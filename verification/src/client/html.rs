use vstd::prelude::*;

verus! {

/// `rustimate.on_event('{t}', '{k}', {v});return false;`, with `''` for an empty `v`.
pub open spec fn spec_onclick_event(t: Seq<char>, k: Seq<char>, v: Seq<char>) -> Seq<char> {
    "rustimate.on_event('"@ + t + "', '"@ + k + "', "@ + (if v.len() == 0 {
        "''"@
    } else {
        v
    }) + ");return false;"@
}

/// The script a clickable element runs to raise event `t` with key `k` and
/// value expression `v`.
pub fn onclick_event(t: &str, k: &str, v: &str) -> (r: String)
    ensures
        r@ == spec_onclick_event(t@, k@, v@),
{
    let mut r = "rustimate.on_event('".to_owned();
    r.append(t);
    r.append("', '");
    r.append(k);
    r.append("', ");
    if v.is_empty() {
        r.append("''");
    } else {
        r.append(v);
    }
    r.append(");return false;");
    r
}

/// The CSS `display` value that shows or hides an element.
pub open spec fn spec_display_value(visible: bool) -> Seq<char> {
    if visible {
        "block"@
    } else {
        "none"@
    }
}

/// The CSS `display` value that shows (`block`) or hides (`none`) an element.
pub fn display_value(visible: bool) -> (r: &'static str)
    ensures
        r@ == spec_display_value(visible),
{
    if visible {
        "block"
    } else {
        "none"
    }
}

} // verus!
