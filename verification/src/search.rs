use vstd::prelude::*;

verus! {

/// `i` is the first position of `s` whose item satisfies `p`.
pub open spec fn is_first_match<T>(s: Seq<T>, p: spec_fn(T) -> bool, i: int) -> bool {
    &&& 0 <= i < s.len()
    &&& p(s[i])
    &&& forall|j: int| 0 <= j < i ==> !p(#[trigger] s[j])
}

/// The first position of `s` whose item satisfies `p`, or -1 when there is none.
pub open spec fn first_match<T>(s: Seq<T>, p: spec_fn(T) -> bool) -> int {
    if exists|i: int| is_first_match(s, p, i) {
        choose|i: int| is_first_match(s, p, i)
    } else {
        -1
    }
}

/// The first match is unique: any first match is the one `first_match` names.
pub proof fn lemma_first_match_is<T>(s: Seq<T>, p: spec_fn(T) -> bool, i: int)
    requires
        is_first_match(s, p, i),
    ensures
        first_match(s, p) == i,
{
    let c = choose|k: int| is_first_match(s, p, k);
    assert(is_first_match(s, p, c));
    if c < i {
        assert(!p(s[c]));
    } else if i < c {
        assert(!p(s[i]));
    }
}

/// With no item satisfying `p`, there is no first match.
pub proof fn lemma_first_match_none<T>(s: Seq<T>, p: spec_fn(T) -> bool)
    requires
        forall|j: int| 0 <= j < s.len() ==> !p(#[trigger] s[j]),
    ensures
        first_match(s, p) == -1,
{
    if exists|i: int| is_first_match(s, p, i) {
        let c = choose|k: int| is_first_match(s, p, k);
        assert(p(s[c]));
    }
}

/// An item satisfying `p` at `k` means a first match at or before `k`.
pub proof fn lemma_first_match_at_most<T>(s: Seq<T>, p: spec_fn(T) -> bool, k: int)
    requires
        0 <= k < s.len(),
        p(s[k]),
    ensures
        0 <= first_match(s, p) <= k,
        is_first_match(s, p, first_match(s, p)),
    decreases k,
{
    if exists|j: int| 0 <= j < k && p(#[trigger] s[j]) {
        let j = choose|j: int| 0 <= j < k && p(#[trigger] s[j]);
        lemma_first_match_at_most(s, p, j);
    } else {
        assert(is_first_match(s, p, k));
        lemma_first_match_is(s, p, k);
    }
}

/// The first match, when there is one, satisfies its definition.
pub proof fn lemma_first_match_facts<T>(s: Seq<T>, p: spec_fn(T) -> bool)
    ensures
        -1 <= first_match(s, p) < s.len(),
        first_match(s, p) >= 0 ==> is_first_match(s, p, first_match(s, p)),
        first_match(s, p) == -1 ==> forall|j: int| 0 <= j < s.len() ==> !p(#[trigger] s[j]),
{
    if exists|j: int| 0 <= j < s.len() && p(#[trigger] s[j]) {
        let j = choose|j: int| 0 <= j < s.len() && p(#[trigger] s[j]);
        lemma_first_match_at_most(s, p, j);
    } else {
        lemma_first_match_none(s, p);
    }
}

} // verus!
