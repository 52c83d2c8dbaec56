//! Building HTML: escaping text, and the card that frames page content.
use vstd::prelude::*;
use vstd::string::*;

verus! {

/// How one character is written in HTML text or an attribute value: `&`, `<`,
/// `>` and `"` as entities, any other character as itself.
pub open spec fn spec_escape_char(c: char) -> Seq<char> {
    if c == '&' {
        "&amp;"@
    } else if c == '<' {
        "&lt;"@
    } else if c == '>' {
        "&gt;"@
    } else if c == '"' {
        "&quot;"@
    } else {
        seq![c]
    }
}

/// A text written safely into HTML, character by character.
pub open spec fn spec_escape_html(s: Seq<char>) -> Seq<char>
    decreases s.len(),
{
    if s.len() == 0 {
        Seq::empty()
    } else {
        spec_escape_html(s.drop_last()) + spec_escape_char(s.last())
    }
}

/// A text written safely into HTML: `&`, `<`, `>` and `"` become entities.
pub fn escape_html(s: &str) -> (r: String)
    ensures
        r@ == spec_escape_html(s@),
{
    let n = s.unicode_len();
    let mut r = String::new();
    let mut i: usize = 0;
    while i < n
        invariant
            n == s@.len(),
            i <= n,
            r@ == spec_escape_html(s@.take(i as int)),
        decreases n - i,
    {
        let c = s.get_char(i);
        proof {
            assert(s@.take(i + 1).drop_last() =~= s@.take(i as int));
            assert(s@.take(i + 1).last() == c);
        }
        if c == '&' {
            r.append("&amp;");
        } else if c == '<' {
            r.append("&lt;");
        } else if c == '>' {
            r.append("&gt;");
        } else if c == '"' {
            r.append("&quot;");
        } else {
            let one = s.substring_char(i, i + 1);
            proof {
                assert(one@ =~= seq![c]);
            }
            r.append(one);
        }
        i = i + 1;
    }
    proof {
        assert(s@.take(n as int) =~= s@);
    }
    r
}

/// A card framing content, in the theme's card style.
pub open spec fn spec_card(card_class: Seq<char>, content: Seq<char>) -> Seq<char> {
    "<div class=\"uk-margin uk-card uk-card-body "@ + spec_escape_html(card_class) + "\">"@ + content + "</div>"@
}

/// A card framing `content` (already HTML), in the card style `card_class`.
pub fn card(card_class: &str, content: &str) -> (r: String)
    ensures
        r@ == spec_card(card_class@, content@),
{
    let mut r = "<div class=\"uk-margin uk-card uk-card-body ".to_owned();
    r.append(escape_html(card_class).as_str());
    r.append("\">");
    r.append(content);
    r.append("</div>");
    r
}

} // verus!
