//! Identifiers of users, connections and polls, and their textual UUID form.
use vstd::prelude::*;

verus! {

/// The identifier that `uuid::Uuid::parse_str` reads from a text, if it reads one.
pub uninterp spec fn uuid_parse(s: Seq<char>) -> Option<u128>;

/// A hexadecimal digit, lower case.
pub open spec fn hex_digit(d: int) -> char {
    if d < 10 {
        (48 + d) as char
    } else {
        (87 + d) as char
    }
}

/// The last `n` hexadecimal digits of `x`, most significant first.
pub open spec fn hex_digits(x: int, n: nat) -> Seq<char>
    decreases n,
{
    if n == 0 {
        seq![]
    } else {
        hex_digits(x / 16, (n - 1) as nat).push(hex_digit(x % 16))
    }
}

/// The hyphenated text of an identifier: its 32 lower-case hexadecimal digits,
/// most significant first, with hyphens after the 8th, 12th, 16th and 20th.
pub open spec fn uuid_text(id: u128) -> Seq<char> {
    let h = hex_digits(id as int, 32);
    h.subrange(0, 8) + seq!['-'] + h.subrange(8, 12) + seq!['-'] + h.subrange(12, 16) + seq!['-'] + h.subrange(
        16,
        20,
    ) + seq!['-'] + h.subrange(20, 32)
}

/// Calls `uuid::Uuid::parse_str`, which accepts the simple, hyphenated, URN and
/// braced forms of a UUID; the identifier it reads is named `uuid_parse`.
#[verifier::external_body]
pub(crate) fn parse_uuid(s: &str) -> (r: Option<u128>)
    ensures
        r == uuid_parse(s@),
{
    uuid::Uuid::parse_str(s).ok().map(|u| u.as_u128())
}

/// Calls `uuid::Uuid::from_u128` (big-endian) and formats the result with
/// `to_string`, whose `Display` writes the lower-case hyphenated form. That
/// form is one that `parse_str` accepts, and reads back as the same identifier.
#[verifier::external_body]
pub(crate) fn uuid_to_string(id: u128) -> (r: String)
    ensures
        r@ == uuid_text(id),
        uuid_parse(r@) == Some(id),
{
    uuid::Uuid::from_u128(id).to_string()
}

/// Calls `uuid::Uuid::new_v4`: a random identifier, of which nothing is promised.
#[verifier::external_body]
pub(crate) fn new_random_id() -> (r: u128) {
    uuid::Uuid::new_v4().as_u128()
}

} // verus!
