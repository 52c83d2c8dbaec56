//! Everything known about one session at once: the session, its members, who is
//! connected, its polls and its votes.
use crate::member::{Member, MemberView};
use crate::poll::{Poll, PollView, Vote, VoteView};
use crate::session::{EstimateSession, EstimateSessionView};
use crate::search::lemma_first_match_facts;
use crate::store::{
    law_vote_keeps_unique, law_vote_read_after_write, same_vote_key, spec_upsert_vote, upsert_vote, vote_slot,
    votes_unique,
};
use std::collections::{HashMap, HashSet};
use vstd::prelude::*;

verus! {

broadcast use vstd::std_specs::hash::group_hash_axioms;

/// Members by user: each user's last entry in the list.
pub open spec fn spec_member_map(s: Seq<MemberView>) -> Map<u128, MemberView>
    decreases s.len(),
{
    if s.len() == 0 {
        Map::empty()
    } else {
        spec_member_map(s.drop_last()).insert(s.last().user_id, s.last())
    }
}

/// Polls by id: each poll's last entry in the list.
pub open spec fn spec_poll_map(s: Seq<PollView>) -> Map<u128, PollView>
    decreases s.len(),
{
    if s.len() == 0 {
        Map::empty()
    } else {
        spec_poll_map(s.drop_last()).insert(s.last().id, s.last())
    }
}

/// Votes as they are kept: each user's vote in each poll once, at the place of
/// its first entry in the list, with the choice of its last.
pub open spec fn spec_collect_votes(s: Seq<VoteView>) -> Seq<VoteView>
    decreases s.len(),
{
    if s.len() == 0 {
        Seq::empty()
    } else {
        spec_upsert_vote(spec_collect_votes(s.drop_last()), s.last()).0
    }
}

/// A session context, as the contracts see it.
pub struct SessionContextView {
    pub session: EstimateSessionView,
    pub members: Map<u128, MemberView>,
    pub connected: Set<u128>,
    pub polls: Map<u128, PollView>,
    pub votes: Seq<VoteView>,
}

/// Everything known about one session.
#[derive(Debug)]
pub struct SessionContext {
    session: EstimateSession,
    members: HashMap<u128, Member>,
    connected: HashSet<u128>,
    polls: HashMap<u128, Poll>,
    votes: Vec<Vote>,
}

impl SessionContext {
    /// No user has two votes in one poll.
    #[verifier::type_invariant]
    spec fn well_formed(self) -> bool {
        votes_unique(self.votes.deep_view())
    }
}

/// Collecting votes never gives one user two votes in one poll.
pub proof fn lemma_collect_votes_unique(s: Seq<VoteView>)
    ensures
        votes_unique(spec_collect_votes(s)),
    decreases s.len(),
{
    if s.len() > 0 {
        lemma_collect_votes_unique(s.drop_last());
        law_vote_keeps_unique(spec_collect_votes(s.drop_last()), s.last());
    }
}

impl View for SessionContext {
    type V = SessionContextView;

    closed spec fn view(&self) -> SessionContextView {
        SessionContextView {
            session: self.session@,
            members: self.members@.map_values(|m: Member| m@),
            connected: self.connected@,
            polls: self.polls@.map_values(|p: Poll| p@),
            votes: self.votes.deep_view(),
        }
    }
}

fn member_map(members: &Vec<Member>) -> (r: HashMap<u128, Member>)
    ensures
        r@.map_values(|m: Member| m@) == spec_member_map(members.deep_view()),
{
    let mut r: HashMap<u128, Member> = HashMap::new();
    let mut i: usize = 0;
    while i < members.len()
        invariant
            i <= members.len(),
            r@.map_values(|m: Member| m@) == spec_member_map(members.deep_view().take(i as int)),
        decreases members.len() - i,
    {
        let m = members[i].clone();
        let ghost before = r@;
        r.insert(m.user_id(), m);
        proof {
            let t = members.deep_view().take(i + 1);
            assert(t.drop_last() =~= members.deep_view().take(i as int));
            assert(r@.map_values(|m: Member| m@) =~= before.map_values(|m: Member| m@).insert(
                t.last().user_id,
                t.last(),
            ));
        }
        i = i + 1;
    }
    proof {
        assert(members.deep_view().take(members.len() as int) =~= members.deep_view());
    }
    r
}

fn poll_map(polls: &Vec<Poll>) -> (r: HashMap<u128, Poll>)
    ensures
        r@.map_values(|p: Poll| p@) == spec_poll_map(polls.deep_view()),
{
    let mut r: HashMap<u128, Poll> = HashMap::new();
    let mut i: usize = 0;
    while i < polls.len()
        invariant
            i <= polls.len(),
            r@.map_values(|p: Poll| p@) == spec_poll_map(polls.deep_view().take(i as int)),
        decreases polls.len() - i,
    {
        let p = polls[i].clone();
        let ghost before = r@;
        r.insert(p.id(), p);
        proof {
            let t = polls.deep_view().take(i + 1);
            assert(t.drop_last() =~= polls.deep_view().take(i as int));
            assert(r@.map_values(|p: Poll| p@) =~= before.map_values(|p: Poll| p@).insert(t.last().id, t.last()));
        }
        i = i + 1;
    }
    proof {
        assert(polls.deep_view().take(polls.len() as int) =~= polls.deep_view());
    }
    r
}

/// The set of the given identifiers.
pub(crate) fn id_set(ids: &[u128]) -> (r: HashSet<u128>)
    ensures
        r@ == ids@.to_set(),
{
    let mut r: HashSet<u128> = HashSet::new();
    let mut i: usize = 0;
    while i < ids.len()
        invariant
            i <= ids.len(),
            r@ == ids@.take(i as int).to_set(),
        decreases ids.len() - i,
    {
        let ghost before = r@;
        r.insert(ids[i]);
        proof {
            let t = ids@.take(i + 1);
            assert(t =~= ids@.take(i as int).push(ids@[i as int]));
            assert forall|x: u128| t.contains(x) <==> before.insert(ids@[i as int]).contains(x) by {
                if t.contains(x) {
                    let k = choose|k: int| 0 <= k < t.len() && t[k] == x;
                    if k < i {
                        assert(ids@.take(i as int)[k] == x);
                    }
                }
                if before.contains(x) && x != ids@[i as int] {
                    let k = choose|k: int| 0 <= k < i && ids@.take(i as int)[k] == x;
                    assert(t[k] == x);
                }
                if x == ids@[i as int] {
                    assert(t[i as int] == x);
                }
            }
            assert(r@ =~= t.to_set());
        }
        i = i + 1;
    }
    proof {
        assert(ids@.take(ids.len() as int) =~= ids@);
    }
    r
}

/// Each vote written in turn into an empty list.
pub(crate) fn collect_votes(votes: &[Vote]) -> (r: Vec<Vote>)
    ensures
        r.deep_view() == spec_collect_votes(votes.deep_view()),
{
    let mut r: Vec<Vote> = Vec::new();
    let mut i: usize = 0;
    while i < votes.len()
        invariant
            i <= votes.len(),
            r.deep_view() == spec_collect_votes(votes.deep_view().take(i as int)),
        decreases votes.len() - i,
    {
        let v = votes[i].clone();
        let _ = upsert_vote(&mut r, v);
        proof {
            let t = votes.deep_view().take(i + 1);
            assert(t.drop_last() =~= votes.deep_view().take(i as int));
        }
        i = i + 1;
    }
    proof {
        assert(votes.deep_view().take(votes.len() as int) =~= votes.deep_view());
    }
    r
}

impl SessionContext {
    /// Gathers a session with its members, connections, polls and votes; where
    /// an entry repeats a key, the last one counts.
    pub fn new(
        session: Box<EstimateSession>,
        members: Vec<Member>,
        connected: Vec<u128>,
        polls: Vec<Poll>,
        votes: Vec<Vote>,
    ) -> (c: SessionContext)
        ensures
            c@ == (SessionContextView {
                session: session@,
                members: spec_member_map(members.deep_view()),
                connected: connected@.to_set(),
                polls: spec_poll_map(polls.deep_view()),
                votes: spec_collect_votes(votes.deep_view()),
            }),
    {
        let vs = votes.as_slice();
        proof {
            assert(vs.deep_view() =~= votes.deep_view());
            lemma_collect_votes_unique(votes.deep_view());
        }
        SessionContext {
            session: *session,
            members: member_map(&members),
            connected: id_set(connected.as_slice()),
            polls: poll_map(&polls),
            votes: collect_votes(vs),
        }
    }

    pub fn session(&self) -> (r: &EstimateSession)
        ensures
            r@ == self@.session,
    {
        &self.session
    }

    pub fn members(&self) -> (r: &HashMap<u128, Member>)
        ensures
            r@.map_values(|m: Member| m@) == self@.members,
    {
        &self.members
    }

    pub fn connected(&self) -> (r: &HashSet<u128>)
        ensures
            r@ == self@.connected,
    {
        &self.connected
    }

    pub fn polls(&self) -> (r: &HashMap<u128, Poll>)
        ensures
            r@.map_values(|p: Poll| p@) == self@.polls,
    {
        &self.polls
    }

    /// The votes; no user has two in one poll.
    pub fn votes(&self) -> (r: &Vec<Vote>)
        ensures
            r.deep_view() == self@.votes,
            votes_unique(self@.votes),
    {
        proof {
            use_type_invariant(self);
        }
        &self.votes
    }
}

/// Votes `a` and `b` are by one user in one poll.
pub open spec fn same_ballot(a: VoteView, b: VoteView) -> bool {
    a.poll_id == b.poll_id && a.user_id == b.user_id
}

/// Collecting votes keeps, for each user in each poll, the last vote given:
/// a vote that no later vote of the same user in the same poll replaces is
/// found, as given, among the collected votes.
pub proof fn law_collect_votes_last_wins(s: Seq<VoteView>, i: int)
    requires
        0 <= i < s.len(),
        forall|j: int| i < j < s.len() ==> !same_ballot(#[trigger] s[j], s[i]),
    ensures
        exists|k: int| 0 <= k < spec_collect_votes(s).len() && #[trigger] spec_collect_votes(s)[k] == s[i],
    decreases s.len(),
{
    let s0 = s.drop_last();
    let t0 = spec_collect_votes(s0);
    let t = spec_collect_votes(s);
    law_vote_read_after_write(t0, s.last());
    let slot = vote_slot(t0, s.last());
    if i == s.len() - 1 {
        assert(t[slot] == s[i]);
    } else {
        assert forall|j: int| i < j < s0.len() implies !same_ballot(#[trigger] s0[j], s0[i]) by {
            assert(s0[j] == s[j]);
        }
        law_collect_votes_last_wins(s0, i);
        let k = choose|k: int| 0 <= k < t0.len() && #[trigger] t0[k] == s0[i];
        assert(!same_ballot(s[s.len() - 1], s[i]));
        if k == slot {
            lemma_first_match_facts(t0, same_vote_key(s.last().poll_id, s.last().user_id));
        }
        assert(t[k] == s[i]);
    }
}

} // verus!
