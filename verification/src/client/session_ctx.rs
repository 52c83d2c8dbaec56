//! The client's picture of the session it has joined.
use crate::member::{Member, MemberView};
use crate::poll::{Poll, PollView, Vote, VoteView};
use crate::search::{first_match, is_first_match, lemma_first_match_facts, lemma_first_match_is, lemma_first_match_none};
use crate::session::{EstimateSession, EstimateSessionView};
use crate::session_ctx::{collect_votes, id_set, lemma_collect_votes_unique, spec_collect_votes};
use crate::store::{
    same_vote_key, law_vote_keeps_unique, law_vote_read_after_write, members_unique, polls_unique, same_member, same_poll,
    spec_upsert_vote, upsert_vote, vote_slot, votes_unique,
};
use crate::text::{lemma_text_lt_total, lemma_text_lt_transitive, text_le, text_less, text_lt};
use std::collections::HashSet;
use vstd::prelude::*;

verus! {

broadcast use {vstd::std_specs::hash::group_hash_axioms, vstd::seq_lib::group_to_multiset_ensures};

/// The members after `m` is put in: it replaces the entry of its user, or is appended.
pub open spec fn spec_put_member(s: Seq<MemberView>, m: MemberView) -> Seq<MemberView> {
    let i = first_match(s, same_member(m.user_id));
    if i >= 0 {
        s.update(i, m)
    } else {
        s.push(m)
    }
}

/// The polls after `p` is put in: it replaces the entry of its poll, or is appended.
pub open spec fn spec_put_poll(s: Seq<PollView>, p: PollView) -> Seq<PollView> {
    let i = first_match(s, same_poll(p.id));
    if i >= 0 {
        s.update(i, p)
    } else {
        s.push(p)
    }
}

/// Each member of `s` put in turn into an empty list.
pub open spec fn spec_put_members(s: Seq<MemberView>) -> Seq<MemberView>
    decreases s.len(),
{
    if s.len() == 0 {
        Seq::empty()
    } else {
        spec_put_member(spec_put_members(s.drop_last()), s.last())
    }
}

/// Each poll of `s` put in turn into an empty list.
pub open spec fn spec_put_polls(s: Seq<PollView>) -> Seq<PollView>
    decreases s.len(),
{
    if s.len() == 0 {
        Seq::empty()
    } else {
        spec_put_poll(spec_put_polls(s.drop_last()), s.last())
    }
}

/// Who voted what in poll `poll`, in the order of the votes.
pub open spec fn spec_votes_by_poll(s: Seq<VoteView>, poll: u128) -> Seq<(u128, Seq<char>)>
    decreases s.len(),
{
    if s.len() == 0 {
        Seq::empty()
    } else {
        let r = spec_votes_by_poll(s.drop_last(), poll);
        if s.last().poll_id == poll {
            r.push((s.last().user_id, s.last().choice))
        } else {
            r
        }
    }
}

/// What user `user` voted in each poll, in the order of the votes.
pub open spec fn spec_votes_by_user(s: Seq<VoteView>, user: u128) -> Seq<(u128, Seq<char>)>
    decreases s.len(),
{
    if s.len() == 0 {
        Seq::empty()
    } else {
        let r = spec_votes_by_user(s.drop_last(), user);
        if s.last().user_id == user {
            r.push((s.last().poll_id, s.last().choice))
        } else {
            r
        }
    }
}

/// Members in order of their names.
pub open spec fn sorted_by_name(s: Seq<MemberView>) -> bool {
    forall|i: int, j: int| 0 <= i < j < s.len() ==> text_le(#[trigger] s[i].name, #[trigger] s[j].name)
}

/// Polls in order of their numbers.
pub open spec fn sorted_by_idx(s: Seq<PollView>) -> bool {
    forall|i: int, j: int| 0 <= i < j < s.len() ==> #[trigger] s[i].idx <= #[trigger] s[j].idx
}

/// The client's picture of a session, as the contracts see it.
pub struct ClientSessionView {
    pub session: EstimateSessionView,
    pub members: Seq<MemberView>,
    pub connected: Set<u128>,
    pub polls: Seq<PollView>,
    pub votes: Seq<VoteView>,
}

/// The client's picture of the session it has joined.
#[derive(Debug)]
pub struct SessionContext {
    session: EstimateSession,
    members: Vec<Member>,
    connected: HashSet<u128>,
    polls: Vec<Poll>,
    votes: Vec<Vote>,
}

impl View for SessionContext {
    type V = ClientSessionView;

    closed spec fn view(&self) -> ClientSessionView {
        ClientSessionView {
            session: self.session@,
            members: self.members.deep_view(),
            connected: self.connected@,
            polls: self.polls.deep_view(),
            votes: self.votes.deep_view(),
        }
    }
}

impl SessionContext {
    /// No user is listed twice, no poll twice, and no user has two votes in one poll.
    #[verifier::type_invariant]
    spec fn well_formed(self) -> bool {
        &&& members_unique(self.members.deep_view())
        &&& polls_unique(self.polls.deep_view())
        &&& votes_unique(self.votes.deep_view())
    }
}

proof fn lemma_put_member_unique(s: Seq<MemberView>, m: MemberView)
    requires
        members_unique(s),
    ensures
        members_unique(spec_put_member(s, m)),
{
    let p = same_member(m.user_id);
    lemma_first_match_facts(s, p);
    let t = spec_put_member(s, m);
    assert forall|i: int, j: int| 0 <= i < j < t.len() implies #[trigger] t[i].user_id
        != #[trigger] t[j].user_id by {
        if j == s.len() {
            assert(!p(s[i]));
        } else {
            assert(s[i].user_id != s[j].user_id);
        }
    }
}

proof fn lemma_put_poll_unique(s: Seq<PollView>, q: PollView)
    requires
        polls_unique(s),
    ensures
        polls_unique(spec_put_poll(s, q)),
{
    let p = same_poll(q.id);
    lemma_first_match_facts(s, p);
    let t = spec_put_poll(s, q);
    assert forall|i: int, j: int| 0 <= i < j < t.len() implies #[trigger] t[i].id != #[trigger] t[j].id by {
        if j == s.len() {
            assert(!p(s[i]));
        } else {
            assert(s[i].id != s[j].id);
        }
    }
}

proof fn lemma_put_members_unique(s: Seq<MemberView>)
    ensures
        members_unique(spec_put_members(s)),
    decreases s.len(),
{
    if s.len() > 0 {
        lemma_put_members_unique(s.drop_last());
        lemma_put_member_unique(spec_put_members(s.drop_last()), s.last());
    }
}

proof fn lemma_put_polls_unique(s: Seq<PollView>)
    ensures
        polls_unique(spec_put_polls(s)),
    decreases s.len(),
{
    if s.len() > 0 {
        lemma_put_polls_unique(s.drop_last());
        lemma_put_poll_unique(spec_put_polls(s.drop_last()), s.last());
    }
}

/// Vote `i` of `s` is user `u`'s vote `c` in poll `p`.
pub open spec fn vote_at(s: Seq<VoteView>, i: int, p: u128, u: u128, c: Seq<char>) -> bool {
    0 <= i < s.len() && s[i].poll_id == p && s[i].user_id == u && s[i].choice == c
}

/// No user appears twice.
pub open spec fn users_distinct(r: Seq<(u128, Seq<char>)>) -> bool {
    forall|a: int, b: int| 0 <= a < b < r.len() ==> #[trigger] r[a].0 != #[trigger] r[b].0
}

proof fn lemma_votes_by_poll_source(s: Seq<VoteView>, p: u128, k: int) -> (i: int)
    requires
        0 <= k < spec_votes_by_poll(s, p).len(),
    ensures
        vote_at(s, i, p, spec_votes_by_poll(s, p)[k].0, spec_votes_by_poll(s, p)[k].1),
    decreases s.len(),
{
    let s0 = s.drop_last();
    let r0 = spec_votes_by_poll(s0, p);
    let r = spec_votes_by_poll(s, p);
    if k < r0.len() {
        let i = lemma_votes_by_poll_source(s0, p, k);
        assert(r[k] == r0[k]);
        assert(s[i] == s0[i]);
        i
    } else {
        s.len() - 1
    }
}

proof fn lemma_votes_by_poll_complete(s: Seq<VoteView>, p: u128)
    ensures
        forall|i: int|
            0 <= i < s.len() && s[i].poll_id == p ==> spec_votes_by_poll(s, p).contains(
                (#[trigger] s[i].user_id, s[i].choice),
            ),
    decreases s.len(),
{
    if s.len() > 0 {
        let s0 = s.drop_last();
        lemma_votes_by_poll_complete(s0, p);
        let r0 = spec_votes_by_poll(s0, p);
        let r = spec_votes_by_poll(s, p);
        assert forall|i: int| 0 <= i < s.len() && s[i].poll_id == p implies r.contains(
            (#[trigger] s[i].user_id, s[i].choice),
        ) by {
            if i < s0.len() {
                assert(s0[i] == s[i]);
                assert(r0.contains((s0[i].user_id, s0[i].choice)));
                let k = choose|k: int| 0 <= k < r0.len() && r0[k] == (s0[i].user_id, s0[i].choice);
                assert(r[k] == r0[k]);
            } else {
                assert(r[r.len() - 1] == (s[i].user_id, s[i].choice));
            }
        }
    }
}

/// When no user has two votes in one poll, no poll's votes name a user twice.
pub proof fn law_votes_by_poll_distinct(s: Seq<VoteView>, p: u128)
    requires
        votes_unique(s),
    ensures
        users_distinct(spec_votes_by_poll(s, p)),
    decreases s.len(),
{
    if s.len() > 0 {
        let s0 = s.drop_last();
        assert forall|i: int, j: int|
            0 <= i < j < s0.len() && #[trigger] s0[i].poll_id == #[trigger] s0[j].poll_id implies s0[i].user_id
            != s0[j].user_id by {
            assert(s0[i] == s[i] && s0[j] == s[j]);
            assert(s[i].poll_id == s[j].poll_id);
        }
        law_votes_by_poll_distinct(s0, p);
        let r0 = spec_votes_by_poll(s0, p);
        let r = spec_votes_by_poll(s, p);
        assert forall|a: int, b: int| 0 <= a < b < r.len() implies #[trigger] r[a].0 != #[trigger] r[b].0 by {
            if b < r0.len() {
                assert(r[a] == r0[a] && r[b] == r0[b]);
            } else {
                assert(r[a] == r0[a]);
                let i = lemma_votes_by_poll_source(s0, p, a);
                assert(s[i] == s0[i]);
                assert(s[i].poll_id == s[s.len() - 1].poll_id);
            }
        }
    }
}

proof fn lemma_votes_by_poll_same(s: Seq<VoteView>, t: Seq<VoteView>, q: u128)
    requires
        s.len() == t.len(),
        forall|i: int| 0 <= i < s.len() && (s[i].poll_id == q || t[i].poll_id == q) ==> #[trigger] s[i] == t[i],
    ensures
        spec_votes_by_poll(s, q) == spec_votes_by_poll(t, q),
    decreases s.len(),
{
    if s.len() > 0 {
        let s0 = s.drop_last();
        let t0 = t.drop_last();
        assert forall|i: int| 0 <= i < s0.len() && (s0[i].poll_id == q || t0[i].poll_id == q) implies #[trigger] s0[i]
            == t0[i] by {
            assert(s0[i] == s[i] && t0[i] == t[i]);
        }
        lemma_votes_by_poll_same(s0, t0, q);
        assert(s[s.len() - 1] == s.last() && t[t.len() - 1] == t.last());
    }
}

/// The votes of a poll are exactly the votes recorded in it: `(u, c)` is
/// among them when some recorded vote is user `u`'s vote `c` in that poll.
pub proof fn law_votes_by_poll_exact(s: Seq<VoteView>, q: u128, u: u128, c: Seq<char>)
    ensures
        spec_votes_by_poll(s, q).contains((u, c)) <==> exists|i: int| #[trigger] vote_at(s, i, q, u, c),
{
    let r = spec_votes_by_poll(s, q);
    if r.contains((u, c)) {
        let k = choose|k: int| 0 <= k < r.len() && r[k] == (u, c);
        let i = lemma_votes_by_poll_source(s, q, k);
        assert(vote_at(s, i, q, u, c));
    }
    if exists|i: int| #[trigger] vote_at(s, i, q, u, c) {
        let i = choose|i: int| #[trigger] vote_at(s, i, q, u, c);
        lemma_votes_by_poll_complete(s, q);
        assert(s[i].poll_id == q);
        assert(r.contains((s[i].user_id, s[i].choice)));
    }
}

/// Recording user `u`'s vote `c` in poll `p`: afterwards the votes of `p` hold
/// `(u, c)` and no other vote of `u`; the votes of every other poll are as they
/// were; and no poll's votes name a user twice.
pub proof fn law_set_vote_votes_by_poll(s: Seq<VoteView>, p: u128, u: u128, c: Seq<char>, q: u128)
    requires
        votes_unique(s),
    ensures
        ({
            let t = spec_upsert_vote(s, VoteView { poll_id: p, user_id: u, choice: c }).0;
            let r = spec_votes_by_poll(t, p);
            &&& r.contains((u, c))
            &&& forall|k: int| 0 <= k < r.len() && r[k].0 == u ==> r[k].1 == c
            &&& q != p ==> spec_votes_by_poll(t, q) == spec_votes_by_poll(s, q)
            &&& users_distinct(spec_votes_by_poll(t, q))
        }),
{
    let vote = VoteView { poll_id: p, user_id: u, choice: c };
    law_vote_read_after_write(s, vote);
    law_vote_keeps_unique(s, vote);
    let t = spec_upsert_vote(s, vote).0;
    let k = vote_slot(s, vote);
    let r = spec_votes_by_poll(t, p);
    lemma_votes_by_poll_complete(t, p);
    assert(t[k].poll_id == p);
    assert(r.contains((t[k].user_id, t[k].choice)));
    assert forall|j: int| 0 <= j < r.len() && r[j].0 == u implies r[j].1 == c by {
        let i = lemma_votes_by_poll_source(t, p, j);
        if i < k {
            assert(t[i].poll_id == t[k].poll_id);
        } else if i > k {
            assert(t[k].poll_id == t[i].poll_id);
        }
    }
    if q != p {
        let f = same_vote_key(p, u);
        lemma_first_match_facts(s, f);
        if k < s.len() {
            assert(f(s[k]));
            lemma_votes_by_poll_same(s, t, q);
        } else {
            assert(t.drop_last() =~= s);
        }
    }
    law_votes_by_poll_distinct(t, q);
}

fn put_member(s: &mut Vec<Member>, m: Member)
    ensures
        final(s).deep_view() == spec_put_member(old(s).deep_view(), m@),
{
    let ghost s0 = s.deep_view();
    let ghost p = same_member(m@.user_id);
    let id = m.user_id();
    let mut i: usize = 0;
    while i < s.len()
        invariant
            i <= s.len(),
            s.deep_view() == s0,
            s0 == old(s).deep_view(),
            p == same_member(id),
            id == m@.user_id,
            forall|j: int| 0 <= j < i ==> !p(#[trigger] s0[j]),
        decreases s.len() - i,
    {
        if s[i].user_id() == id {
            proof {
                assert(s0[i as int] == s@[i as int]@);
                assert(is_first_match(s0, p, i as int));
                lemma_first_match_is(s0, p, i as int);
            }
            let ghost mv = m@;
            s.set(i, m);
            proof {
                assert(s.deep_view() =~= s0.update(i as int, mv));
            }
            return;
        }
        proof {
            assert(s0[i as int] == s@[i as int]@);
        }
        i = i + 1;
    }
    proof {
        lemma_first_match_none(s0, p);
    }
    let ghost mv = m@;
    s.push(m);
    proof {
        assert(s.deep_view() =~= s0.push(mv));
    }
}

fn put_poll(s: &mut Vec<Poll>, q: Poll)
    ensures
        final(s).deep_view() == spec_put_poll(old(s).deep_view(), q@),
{
    let ghost s0 = s.deep_view();
    let ghost p = same_poll(q@.id);
    let id = q.id();
    let mut i: usize = 0;
    while i < s.len()
        invariant
            i <= s.len(),
            s.deep_view() == s0,
            s0 == old(s).deep_view(),
            p == same_poll(id),
            id == q@.id,
            forall|j: int| 0 <= j < i ==> !p(#[trigger] s0[j]),
        decreases s.len() - i,
    {
        if s[i].id() == id {
            proof {
                assert(s0[i as int] == s@[i as int]@);
                assert(is_first_match(s0, p, i as int));
                lemma_first_match_is(s0, p, i as int);
            }
            let ghost qv = q@;
            s.set(i, q);
            proof {
                assert(s.deep_view() =~= s0.update(i as int, qv));
            }
            return;
        }
        proof {
            assert(s0[i as int] == s@[i as int]@);
        }
        i = i + 1;
    }
    proof {
        lemma_first_match_none(s0, p);
    }
    let ghost qv = q@;
    s.push(q);
    proof {
        assert(s.deep_view() =~= s0.push(qv));
    }
}

fn put_members(members: &[Member]) -> (r: Vec<Member>)
    ensures
        r.deep_view() == spec_put_members(members@.map_values(|m: Member| m@)),
{
    let ghost all = members@.map_values(|m: Member| m@);
    let mut r: Vec<Member> = Vec::new();
    let mut i: usize = 0;
    while i < members.len()
        invariant
            i <= members.len(),
            all == members@.map_values(|m: Member| m@),
            r.deep_view() == spec_put_members(all.take(i as int)),
        decreases members.len() - i,
    {
        put_member(&mut r, members[i].clone());
        proof {
            assert(all.take(i + 1).drop_last() =~= all.take(i as int));
        }
        i = i + 1;
    }
    proof {
        assert(all.take(members.len() as int) =~= all);
    }
    r
}

fn put_polls(polls: &[Poll]) -> (r: Vec<Poll>)
    ensures
        r.deep_view() == spec_put_polls(polls@.map_values(|p: Poll| p@)),
{
    let ghost all = polls@.map_values(|p: Poll| p@);
    let mut r: Vec<Poll> = Vec::new();
    let mut i: usize = 0;
    while i < polls.len()
        invariant
            i <= polls.len(),
            all == polls@.map_values(|p: Poll| p@),
            r.deep_view() == spec_put_polls(all.take(i as int)),
        decreases polls.len() - i,
    {
        put_poll(&mut r, polls[i].clone());
        proof {
            assert(all.take(i + 1).drop_last() =~= all.take(i as int));
        }
        i = i + 1;
    }
    proof {
        assert(all.take(polls.len() as int) =~= all);
    }
    r
}

/// The members of `members`, ordered by name; members with the same name keep
/// their relative order.
pub fn sort_members_by_name(members: &Vec<Member>) -> (r: Vec<Member>)
    ensures
        r.deep_view().to_multiset() == members.deep_view().to_multiset(),
        sorted_by_name(r.deep_view()),
{
    let ghost all = members.deep_view();
    let mut r: Vec<Member> = Vec::new();
    let mut i: usize = 0;
    while i < members.len()
        invariant
            i <= members.len(),
            all == members.deep_view(),
            r.deep_view().to_multiset() == all.take(i as int).to_multiset(),
            sorted_by_name(r.deep_view()),
        decreases members.len() - i,
    {
        let x = members[i].clone();
        let ghost rv = r.deep_view();
        let mut j: usize = 0;
        while j < r.len() && !text_less(x.name().as_str(), r[j].name().as_str())
            invariant
                j <= r.len(),
                rv == r.deep_view(),
                forall|k: int| 0 <= k < j ==> text_le(#[trigger] rv[k].name, x@.name),
            decreases r.len() - j,
        {
            proof {
                lemma_text_lt_total(x@.name, rv[j as int].name);
            }
            j = j + 1;
        }
        proof {
            assert forall|k: int| j <= k < rv.len() implies text_lt(x@.name, #[trigger] rv[k].name) by {
                if k > j {
                    assert(text_le(rv[j as int].name, rv[k].name));
                    if text_lt(rv[j as int].name, rv[k].name) {
                        lemma_text_lt_transitive(x@.name, rv[j as int].name, rv[k].name);
                    }
                }
            }
        }
        let ghost xv = x@;
        r.insert(j, x);
        proof {
            let t = r.deep_view();
            assert(t =~= rv.insert(j as int, xv));
            assert(all.take(i + 1) =~= all.take(i as int).push(xv));
            assert forall|a: int, b: int| 0 <= a < b < t.len() implies text_le(
                #[trigger] t[a].name,
                #[trigger] t[b].name,
            ) by {
                if b < j {
                    assert(t[a] == rv[a] && t[b] == rv[b]);
                } else if b == j {
                    assert(t[a] == rv[a]);
                } else if a < j {
                    assert(t[a] == rv[a] && t[b] == rv[b - 1]);
                    assert(text_le(rv[a].name, xv.name));
                    assert(text_lt(xv.name, rv[b - 1].name));
                    if text_lt(rv[a].name, xv.name) {
                        lemma_text_lt_transitive(rv[a].name, xv.name, rv[b - 1].name);
                    }
                } else if a == j {
                    assert(t[b] == rv[b - 1]);
                } else {
                    assert(t[a] == rv[a - 1] && t[b] == rv[b - 1]);
                }
            }
        }
        i = i + 1;
    }
    proof {
        assert(all.take(members.len() as int) =~= all);
    }
    r
}

/// The polls of `polls`, ordered by number; polls with the same number keep
/// their relative order.
pub fn sort_polls_by_idx(polls: &Vec<Poll>) -> (r: Vec<Poll>)
    ensures
        r.deep_view().to_multiset() == polls.deep_view().to_multiset(),
        sorted_by_idx(r.deep_view()),
{
    let ghost all = polls.deep_view();
    let mut r: Vec<Poll> = Vec::new();
    let mut i: usize = 0;
    while i < polls.len()
        invariant
            i <= polls.len(),
            all == polls.deep_view(),
            r.deep_view().to_multiset() == all.take(i as int).to_multiset(),
            sorted_by_idx(r.deep_view()),
        decreases polls.len() - i,
    {
        let x = polls[i].clone();
        let ghost rv = r.deep_view();
        let mut j: usize = 0;
        while j < r.len() && r[j].idx() <= x.idx()
            invariant
                j <= r.len(),
                rv == r.deep_view(),
                forall|k: int| 0 <= k < j ==> #[trigger] rv[k].idx <= x@.idx,
            decreases r.len() - j,
        {
            j = j + 1;
        }
        let ghost xv = x@;
        r.insert(j, x);
        proof {
            let t = r.deep_view();
            assert(t =~= rv.insert(j as int, xv));
            assert(all.take(i + 1) =~= all.take(i as int).push(xv));
            assert forall|a: int, b: int| 0 <= a < b < t.len() implies #[trigger] t[a].idx
                <= #[trigger] t[b].idx by {
                if b < j {
                    assert(t[a] == rv[a] && t[b] == rv[b]);
                } else if b == j {
                    assert(t[a] == rv[a]);
                } else if a < j {
                    assert(t[a] == rv[a] && t[b] == rv[b - 1]);
                    assert(rv[j as int].idx <= rv[b - 1].idx);
                } else if a == j {
                    assert(t[b] == rv[b - 1]);
                    assert(rv[j as int].idx <= rv[b - 1].idx);
                } else {
                    assert(t[a] == rv[a - 1] && t[b] == rv[b - 1]);
                }
            }
        }
        i = i + 1;
    }
    proof {
        assert(all.take(polls.len() as int) =~= all);
    }
    r
}

impl SessionContext {
    /// The client's picture of a session it has just joined. Entries with the
    /// same key replace one another, the last one counting.
    pub fn new(session: EstimateSession, members: &[Member], connected: &[u128], polls: &[Poll], votes: &[Vote]) -> (c:
        SessionContext)
        ensures
            c@ == (ClientSessionView {
                session: session@,
                members: spec_put_members(members@.map_values(|m: Member| m@)),
                connected: connected@.to_set(),
                polls: spec_put_polls(polls@.map_values(|p: Poll| p@)),
                votes: spec_collect_votes(votes.deep_view()),
            }),
    {
        proof {
            lemma_put_members_unique(members@.map_values(|m: Member| m@));
            lemma_put_polls_unique(polls@.map_values(|p: Poll| p@));
            lemma_collect_votes_unique(votes.deep_view());
        }
        SessionContext {
            session,
            members: put_members(members),
            connected: id_set(connected),
            polls: put_polls(polls),
            votes: collect_votes(votes),
        }
    }

    pub fn session(&self) -> (r: &EstimateSession)
        ensures
            r@ == self@.session,
    {
        &self.session
    }

    pub fn set_session(&mut self, s: EstimateSession)
        ensures
            final(self)@ == (ClientSessionView { session: s@, ..old(self)@ }),
    {
        proof {
            use_type_invariant(&*self);
        }
        self.session = s;
    }

    /// The members; no user is listed twice.
    pub fn members(&self) -> (r: &Vec<Member>)
        ensures
            r.deep_view() == self@.members,
            members_unique(self@.members),
    {
        proof {
            use_type_invariant(self);
        }
        &self.members
    }

    /// The members, ordered by name.
    pub fn members_sorted(&self) -> (r: Vec<Member>)
        ensures
            r.deep_view().to_multiset() == self@.members.to_multiset(),
            sorted_by_name(r.deep_view()),
    {
        sort_members_by_name(&self.members)
    }

    /// Puts a member in, replacing the entry of the same user.
    pub fn set_member(&mut self, m: Member)
        ensures
            final(self)@ == (ClientSessionView { members: spec_put_member(old(self)@.members, m@), ..old(self)@ }),
    {
        proof {
            use_type_invariant(&*self);
            lemma_put_member_unique(self.members.deep_view(), m@);
        }
        let mut members: Vec<Member> = Vec::new();
        std::mem::swap(&mut members, &mut self.members);
        put_member(&mut members, m);
        self.members = members;
    }

    pub fn connected(&self) -> (r: &HashSet<u128>)
        ensures
            r@ == self@.connected,
    {
        &self.connected
    }

    /// The polls; no poll is listed twice.
    pub fn polls(&self) -> (r: &Vec<Poll>)
        ensures
            r.deep_view() == self@.polls,
            polls_unique(self@.polls),
    {
        proof {
            use_type_invariant(self);
        }
        &self.polls
    }

    /// Puts a poll in, replacing the entry of the same poll.
    pub fn set_poll(&mut self, p: Poll)
        ensures
            final(self)@ == (ClientSessionView { polls: spec_put_poll(old(self)@.polls, p@), ..old(self)@ }),
    {
        proof {
            use_type_invariant(&*self);
            lemma_put_poll_unique(self.polls.deep_view(), p@);
        }
        let mut polls: Vec<Poll> = Vec::new();
        std::mem::swap(&mut polls, &mut self.polls);
        put_poll(&mut polls, p);
        self.polls = polls;
    }

    /// The votes; no user has two in one poll.
    pub fn votes(&self) -> (r: &Vec<Vote>)
        ensures
            r.deep_view() == self@.votes,
            votes_unique(self@.votes),
    {
        proof {
            use_type_invariant(self);
        }
        &self.votes
    }

    /// Who voted what in poll `p`; no user is named twice.
    pub fn votes_by_poll(&self, p: u128) -> (r: Vec<(u128, String)>)
        ensures
            r.deep_view() == spec_votes_by_poll(self@.votes, p),
            users_distinct(r.deep_view()),
    {
        proof {
            use_type_invariant(self);
            law_votes_by_poll_distinct(self.votes.deep_view(), p);
        }
        let ghost all = self.votes.deep_view();
        let mut r: Vec<(u128, String)> = Vec::new();
        let mut i: usize = 0;
        while i < self.votes.len()
            invariant
                i <= self.votes.len(),
                all == self.votes.deep_view(),
                r.deep_view() == spec_votes_by_poll(all.take(i as int), p),
            decreases self.votes.len() - i,
        {
            proof {
                assert(all.take(i + 1).drop_last() =~= all.take(i as int));
            }
            if self.votes[i].poll_id() == p {
                let ghost before = r.deep_view();
                r.push((self.votes[i].user_id(), self.votes[i].choice().clone()));
                proof {
                    assert(r.deep_view() =~= before.push((all[i as int].user_id, all[i as int].choice)));
                }
            }
            i = i + 1;
        }
        proof {
            assert(all.take(self.votes.len() as int) =~= all);
        }
        r
    }

    /// What user `u` voted in each poll.
    pub fn votes_by_user(&self, u: u128) -> (r: Vec<(u128, String)>)
        ensures
            r.deep_view() == spec_votes_by_user(self@.votes, u),
    {
        let ghost all = self.votes.deep_view();
        let mut r: Vec<(u128, String)> = Vec::new();
        let mut i: usize = 0;
        while i < self.votes.len()
            invariant
                i <= self.votes.len(),
                all == self.votes.deep_view(),
                r.deep_view() == spec_votes_by_user(all.take(i as int), u),
            decreases self.votes.len() - i,
        {
            proof {
                assert(all.take(i + 1).drop_last() =~= all.take(i as int));
            }
            if self.votes[i].user_id() == u {
                let ghost before = r.deep_view();
                r.push((self.votes[i].poll_id(), self.votes[i].choice().clone()));
                proof {
                    assert(r.deep_view() =~= before.push((all[i as int].poll_id, all[i as int].choice)));
                }
            }
            i = i + 1;
        }
        proof {
            assert(all.take(self.votes.len() as int) =~= all);
        }
        r
    }

    /// Records user `u`'s vote `v` in poll `p`, replacing any earlier one.
    pub fn set_vote(&mut self, p: u128, u: u128, v: String)
        ensures
            final(self)@ == (ClientSessionView {
                votes: spec_upsert_vote(old(self)@.votes, VoteView { poll_id: p, user_id: u, choice: v@ }).0,
                ..old(self)@
            }),
    {
        proof {
            use_type_invariant(&*self);
            law_vote_keeps_unique(self.votes.deep_view(), VoteView { poll_id: p, user_id: u, choice: v@ });
        }
        let mut votes: Vec<Vote> = Vec::new();
        std::mem::swap(&mut votes, &mut self.votes);
        let _ = upsert_vote(&mut votes, Vote::new(p, u, v));
        self.votes = votes;
    }
}

/// Putting a member in and looking the user up gives that member; the other
/// users' entries are found as before.
pub proof fn law_put_member_read_after_write(s: Seq<MemberView>, m: MemberView, other: u128)
    ensures
        ({
            let t = spec_put_member(s, m);
            let k = first_match(t, same_member(m.user_id));
            &&& 0 <= k < t.len()
            &&& t[k] == m
            &&& other != m.user_id ==> {
                let i = first_match(s, same_member(other));
                let j = first_match(t, same_member(other));
                &&& (i < 0 <==> j < 0)
                &&& i >= 0 ==> t[j] == s[i]
            }
        }),
{
    let p = same_member(m.user_id);
    let q = same_member(other);
    lemma_first_match_facts(s, p);
    lemma_first_match_facts(s, q);
    let t = spec_put_member(s, m);
    let k0 = first_match(s, p);
    let k = if k0 >= 0 { k0 } else { s.len() as int };
    assert(is_first_match(t, p, k)) by {
        assert forall|j: int| 0 <= j < k implies !p(#[trigger] t[j]) by {
            assert(t[j] == s[j]);
        }
    }
    lemma_first_match_is(t, p, k);
    if other != m.user_id {
        lemma_first_match_facts(t, q);
        let i = first_match(s, q);
        if i >= 0 {
            assert(is_first_match(t, q, i)) by {
                assert(t[i] == s[i]);
                assert forall|j: int| 0 <= j < i implies !q(#[trigger] t[j]) by {
                    if j != k {
                        assert(t[j] == s[j]);
                    }
                }
            }
            lemma_first_match_is(t, q, i);
        } else {
            assert forall|j: int| 0 <= j < t.len() implies !q(#[trigger] t[j]) by {
                if j != k {
                    assert(t[j] == s[j]);
                }
            }
            lemma_first_match_none(t, q);
        }
    }
}

/// The entry kept for a user when a list of members is taken in: the last one
/// given for that user.
pub open spec fn last_entry_of(s: Seq<MemberView>, id: u128) -> Option<MemberView>
    decreases s.len(),
{
    if s.len() == 0 {
        None
    } else if s.last().user_id == id {
        Some(s.last())
    } else {
        last_entry_of(s.drop_last(), id)
    }
}

/// When the client takes in the members of a session it joins, looking a user
/// up gives the last entry given for that user, and finds nothing for a user
/// who was not given.
pub proof fn law_joined_members_last_entry_wins(s: Seq<MemberView>, id: u128)
    ensures
        ({
            let t = spec_put_members(s);
            let j = first_match(t, same_member(id));
            match last_entry_of(s, id) {
                Some(m) => j >= 0 && t[j] == m,
                None => j < 0,
            }
        }),
    decreases s.len(),
{
    if s.len() == 0 {
        lemma_first_match_none(Seq::<MemberView>::empty(), same_member(id));
    } else {
        law_joined_members_last_entry_wins(s.drop_last(), id);
        law_put_member_read_after_write(spec_put_members(s.drop_last()), s.last(), id);
    }
}

} // verus!
