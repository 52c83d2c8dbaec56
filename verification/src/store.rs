//! How a session's stored members, polls and votes change when one of them is
//! written: the entry with the same key is updated in place, or a new entry is
//! appended at the end.
use crate::member::{Member, MemberRole, MemberView};
use crate::poll::{opt_text, Poll, PollStatus, PollView, Vote, VoteView};
use crate::search::{first_match, is_first_match, lemma_first_match_facts, lemma_first_match_is, lemma_first_match_none};
use vstd::prelude::*;

verus! {

/// Matches the votes cast by `user_id` in `poll_id`.
pub open spec fn same_vote_key(poll_id: u128, user_id: u128) -> spec_fn(VoteView) -> bool {
    |v: VoteView| v.poll_id == poll_id && v.user_id == user_id
}

/// The stored votes after `vote` is written, and the vote that is stored: the
/// first vote of the same user in the same poll takes the new choice, or, when
/// there is none, `vote` is appended.
pub open spec fn spec_upsert_vote(s: Seq<VoteView>, vote: VoteView) -> (Seq<VoteView>, VoteView) {
    let i = first_match(s, same_vote_key(vote.poll_id, vote.user_id));
    if i >= 0 {
        let u = VoteView { choice: vote.choice, ..s[i] };
        (s.update(i, u), u)
    } else {
        (s.push(vote), vote)
    }
}

/// Writes `vote` into the stored votes and returns the vote as stored.
pub fn upsert_vote(current: &mut Vec<Vote>, vote: Vote) -> (r: Vote)
    ensures
        (final(current).deep_view(), r@) == spec_upsert_vote(old(current).deep_view(), vote@),
{
    let ghost s = current.deep_view();
    let ghost p = same_vote_key(vote@.poll_id, vote@.user_id);
    let pid = vote.poll_id();
    let uid = vote.user_id();
    let mut i: usize = 0;
    while i < current.len()
        invariant
            i <= current.len(),
            current.deep_view() == s,
            s == old(current).deep_view(),
            p == same_vote_key(pid, uid),
            pid == vote@.poll_id,
            uid == vote@.user_id,
            forall|j: int| 0 <= j < i ==> !p(#[trigger] s[j]),
        decreases current.len() - i,
    {
        if current[i].poll_id() == pid && current[i].user_id() == uid {
            proof {
                assert(s[i as int] == current@[i as int]@);
                assert(is_first_match(s, p, i as int));
                lemma_first_match_is(s, p, i as int);
            }
            let mut v = current[i].clone();
            v.set_choice(vote.choice().clone());
            let r = v.clone();
            current.set(i, v);
            proof {
                assert(r@ == (VoteView { choice: vote@.choice, ..s[i as int] }));
                assert(current.deep_view() =~= s.update(i as int, r@));
            }
            return r;
        }
        proof {
            assert(s[i as int] == current@[i as int]@);
        }
        i = i + 1;
    }
    proof {
        lemma_first_match_none(s, p);
    }
    let r = vote.clone();
    current.push(vote);
    proof {
        assert(current.deep_view() =~= s.push(r@));
    }
    r
}

/// Matches the entries of `user_id`.
pub open spec fn same_member(user_id: u128) -> spec_fn(MemberView) -> bool {
    |m: MemberView| m.user_id == user_id
}

/// The stored members after `user_id` is written with `name` (and `role`, when
/// given), and the member that is stored: the first entry of that user takes the
/// new name and, when one is given, the new role; or, when there is no such
/// entry, a new member is appended, a participant unless a role is given.
pub open spec fn spec_upsert_member(
    s: Seq<MemberView>,
    user_id: u128,
    name: Seq<char>,
    role: Option<MemberRole>,
) -> (Seq<MemberView>, MemberView) {
    let i = first_match(s, same_member(user_id));
    if i >= 0 {
        let u = MemberView {
            name: name,
            role: match role {
                Some(r) => r,
                None => s[i].role,
            },
            ..s[i]
        };
        (s.update(i, u), u)
    } else {
        let u = MemberView {
            user_id: user_id,
            name: name,
            role: match role {
                Some(r) => r,
                None => MemberRole::Participant,
            },
        };
        (s.push(u), u)
    }
}

/// Writes a member's name (and role, when given) into the stored members and
/// returns the member as stored.
pub fn upsert_member(current: &mut Vec<Member>, user_id: u128, name: String, role: Option<MemberRole>) -> (r: Member)
    ensures
        (final(current).deep_view(), r@) == spec_upsert_member(old(current).deep_view(), user_id, name@, role),
{
    let ghost s = current.deep_view();
    let ghost p = same_member(user_id);
    let mut i: usize = 0;
    while i < current.len()
        invariant
            i <= current.len(),
            current.deep_view() == s,
            s == old(current).deep_view(),
            p == same_member(user_id),
            forall|j: int| 0 <= j < i ==> !p(#[trigger] s[j]),
        decreases current.len() - i,
    {
        if current[i].user_id() == user_id {
            proof {
                assert(s[i as int] == current@[i as int]@);
                assert(is_first_match(s, p, i as int));
                lemma_first_match_is(s, p, i as int);
            }
            let mut m = current[i].clone();
            m.set_name(name);
            match role {
                Some(r) => m.set_role(r),
                None => {},
            }
            let r = m.clone();
            current.set(i, m);
            proof {
                assert(current.deep_view() =~= s.update(i as int, r@));
            }
            return r;
        }
        proof {
            assert(s[i as int] == current@[i as int]@);
        }
        i = i + 1;
    }
    proof {
        lemma_first_match_none(s, p);
    }
    let role = match role {
        Some(r) => r,
        None => MemberRole::Participant,
    };
    let m = Member::new(user_id, name, role);
    let r = m.clone();
    current.push(m);
    proof {
        assert(current.deep_view() =~= s.push(r@));
    }
    r
}

/// Matches the entries of poll `poll_id`.
pub open spec fn same_poll(poll_id: u128) -> spec_fn(PollView) -> bool {
    |p: PollView| p.id == poll_id
}

/// The title a poll takes when it is created without one.
pub open spec fn spec_new_poll_title() -> Seq<char> {
    "New poll"@
}

/// The stored polls after poll `poll_id` is written, and the poll that is
/// stored: the first entry of that poll takes the title and the status that are
/// given, keeping its own where none is; or, when there is no such entry, a new
/// poll is appended, numbered by the count of polls before it, written by
/// `author_id`, titled "New poll" and pending unless told otherwise.
pub open spec fn spec_upsert_poll(
    s: Seq<PollView>,
    poll_id: u128,
    title: Option<Seq<char>>,
    status: Option<PollStatus>,
    author_id: u128,
) -> (Seq<PollView>, PollView) {
    let i = first_match(s, same_poll(poll_id));
    if i >= 0 {
        let u = PollView {
            title: match title {
                Some(t) => t,
                None => s[i].title,
            },
            status: match status {
                Some(st) => st,
                None => s[i].status,
            },
            ..s[i]
        };
        (s.update(i, u), u)
    } else {
        let u = PollView {
            id: poll_id,
            idx: s.len() as u32,
            author_id: author_id,
            title: match title {
                Some(t) => t,
                None => spec_new_poll_title(),
            },
            status: match status {
                Some(st) => st,
                None => PollStatus::Pending,
            },
            final_vote: None,
        };
        (s.push(u), u)
    }
}

/// Writes a poll's title and status (each when given) into the stored polls and
/// returns the poll as stored.
pub fn upsert_poll(
    current: &mut Vec<Poll>,
    poll_id: u128,
    title: Option<String>,
    status: Option<PollStatus>,
    author_id: u128,
) -> (r: Poll)
    ensures
        (final(current).deep_view(), r@) == spec_upsert_poll(
            old(current).deep_view(),
            poll_id,
            opt_text(title),
            status,
            author_id,
        ),
{
    let ghost s = current.deep_view();
    let ghost p = same_poll(poll_id);
    let mut i: usize = 0;
    while i < current.len()
        invariant
            i <= current.len(),
            current.deep_view() == s,
            s == old(current).deep_view(),
            p == same_poll(poll_id),
            forall|j: int| 0 <= j < i ==> !p(#[trigger] s[j]),
        decreases current.len() - i,
    {
        if current[i].id() == poll_id {
            proof {
                assert(s[i as int] == current@[i as int]@);
                assert(is_first_match(s, p, i as int));
                lemma_first_match_is(s, p, i as int);
            }
            let mut q = current[i].clone();
            match title {
                Some(t) => q.set_title(t),
                None => {},
            }
            match status {
                Some(st) => q.set_status(st),
                None => {},
            }
            let r = q.clone();
            current.set(i, q);
            proof {
                assert(current.deep_view() =~= s.update(i as int, r@));
            }
            return r;
        }
        proof {
            assert(s[i as int] == current@[i as int]@);
        }
        i = i + 1;
    }
    proof {
        lemma_first_match_none(s, p);
    }
    let idx = current.len() as u32;
    let title = match title {
        Some(t) => t,
        None => "New poll".to_owned(),
    };
    let status = match status {
        Some(st) => st,
        None => PollStatus::Pending,
    };
    let q = Poll::new(poll_id, idx, author_id, title, status);
    let r = q.clone();
    current.push(q);
    proof {
        assert(current.deep_view() =~= s.push(r@));
    }
    r
}

/// No two stored votes belong to the same user in the same poll.
pub open spec fn votes_unique(s: Seq<VoteView>) -> bool {
    forall|i: int, j: int|
        0 <= i < j < s.len() && #[trigger] s[i].poll_id == #[trigger] s[j].poll_id ==> s[i].user_id
            != s[j].user_id
}

/// The position that writing `vote` touches: the user's existing vote in that
/// poll, or the end of the list.
pub open spec fn vote_slot(s: Seq<VoteView>, vote: VoteView) -> int {
    let i = first_match(s, same_vote_key(vote.poll_id, vote.user_id));
    if i >= 0 { i } else { s.len() as int }
}

/// Writing a vote and reading it back: afterwards the first vote of that user in
/// that poll is the one returned, and it carries the written choice; every other
/// stored vote is unchanged, and at most one vote was added.
pub proof fn law_vote_read_after_write(s: Seq<VoteView>, vote: VoteView)
    ensures
        ({
            let (t, r) = spec_upsert_vote(s, vote);
            let k = vote_slot(s, vote);
            &&& r == (VoteView { poll_id: vote.poll_id, user_id: vote.user_id, choice: vote.choice })
            &&& first_match(t, same_vote_key(vote.poll_id, vote.user_id)) == k
            &&& t[k] == r
            &&& t.len() == (if k < s.len() { s.len() } else { s.len() + 1 })
            &&& forall|j: int| 0 <= j < s.len() && j != k ==> t[j] == s[j]
        }),
{
    let p = same_vote_key(vote.poll_id, vote.user_id);
    lemma_first_match_facts(s, p);
    let (t, r) = spec_upsert_vote(s, vote);
    let k = vote_slot(s, vote);
    assert(p(r));
    assert(is_first_match(t, p, k)) by {
        assert forall|j: int| 0 <= j < k implies !p(#[trigger] t[j]) by {
            assert(t[j] == s[j]);
        }
    }
    lemma_first_match_is(t, p, k);
}

/// Writing votes never makes two votes of one user in one poll.
pub proof fn law_vote_keeps_unique(s: Seq<VoteView>, vote: VoteView)
    requires
        votes_unique(s),
    ensures
        votes_unique(spec_upsert_vote(s, vote).0),
{
    let p = same_vote_key(vote.poll_id, vote.user_id);
    lemma_first_match_facts(s, p);
    let t = spec_upsert_vote(s, vote).0;
    assert forall|i: int, j: int|
        0 <= i < j < t.len() && #[trigger] t[i].poll_id == #[trigger] t[j].poll_id implies t[i].user_id
        != t[j].user_id by {
        if j == s.len() {
            assert(!p(s[i]));
        } else {
            assert(s[i].poll_id == s[j].poll_id);
        }
    }
}

/// Writing the same vote twice leaves what writing it once left.
pub proof fn law_vote_idempotent(s: Seq<VoteView>, vote: VoteView)
    ensures
        spec_upsert_vote(spec_upsert_vote(s, vote).0, vote) == spec_upsert_vote(s, vote),
{
    law_vote_read_after_write(s, vote);
    let (t, r) = spec_upsert_vote(s, vote);
    let k = vote_slot(s, vote);
    assert(t.update(k, VoteView { choice: vote.choice, ..t[k] }) =~= t);
}

/// No two stored members are the same user.
pub open spec fn members_unique(s: Seq<MemberView>) -> bool {
    forall|i: int, j: int| 0 <= i < j < s.len() ==> #[trigger] s[i].user_id != #[trigger] s[j].user_id
}

/// The position that writing member `user_id` touches.
pub open spec fn member_slot(s: Seq<MemberView>, user_id: u128) -> int {
    let i = first_match(s, same_member(user_id));
    if i >= 0 { i } else { s.len() as int }
}

/// Writing a member and reading it back: afterwards the first entry of that user
/// is the one returned, with the written name; its role is the one given, else
/// the role it had, else `Participant` for a newcomer; every other entry is
/// unchanged, and at most one was added.
pub proof fn law_member_read_after_write(
    s: Seq<MemberView>,
    user_id: u128,
    name: Seq<char>,
    role: Option<MemberRole>,
)
    ensures
        ({
            let (t, r) = spec_upsert_member(s, user_id, name, role);
            let k = member_slot(s, user_id);
            &&& r.user_id == user_id
            &&& r.name == name
            &&& r.role == (match role {
                Some(x) => x,
                None => if k < s.len() { s[k].role } else { MemberRole::Participant },
            })
            &&& first_match(t, same_member(user_id)) == k
            &&& t[k] == r
            &&& t.len() == (if k < s.len() { s.len() } else { s.len() + 1 })
            &&& forall|j: int| 0 <= j < s.len() && j != k ==> t[j] == s[j]
        }),
{
    let p = same_member(user_id);
    lemma_first_match_facts(s, p);
    let (t, r) = spec_upsert_member(s, user_id, name, role);
    let k = member_slot(s, user_id);
    assert(p(r));
    assert(is_first_match(t, p, k)) by {
        assert forall|j: int| 0 <= j < k implies !p(#[trigger] t[j]) by {
            assert(t[j] == s[j]);
        }
    }
    lemma_first_match_is(t, p, k);
}

/// Writing members never makes two entries for one user.
pub proof fn law_member_keeps_unique(
    s: Seq<MemberView>,
    user_id: u128,
    name: Seq<char>,
    role: Option<MemberRole>,
)
    requires
        members_unique(s),
    ensures
        members_unique(spec_upsert_member(s, user_id, name, role).0),
{
    let p = same_member(user_id);
    lemma_first_match_facts(s, p);
    let t = spec_upsert_member(s, user_id, name, role).0;
    assert forall|i: int, j: int| 0 <= i < j < t.len() implies #[trigger] t[i].user_id
        != #[trigger] t[j].user_id by {
        if j == s.len() {
            assert(!p(s[i]));
        } else {
            assert(s[i].user_id != s[j].user_id);
        }
    }
}

/// No two stored polls share an id.
pub open spec fn polls_unique(s: Seq<PollView>) -> bool {
    forall|i: int, j: int| 0 <= i < j < s.len() ==> #[trigger] s[i].id != #[trigger] s[j].id
}

/// The position that writing poll `poll_id` touches.
pub open spec fn poll_slot(s: Seq<PollView>, poll_id: u128) -> int {
    let i = first_match(s, same_poll(poll_id));
    if i >= 0 { i } else { s.len() as int }
}

/// Writing a poll and reading it back: afterwards the first entry of that poll
/// is the one returned; it has the given title and status, each defaulting to
/// what the poll had, or for a new poll to "New poll" and `Pending`; an existing
/// poll keeps its number, author and final vote, while a new one is numbered by
/// the count of polls before it and credited to the writer; every other entry is
/// unchanged, and at most one was added.
pub proof fn law_poll_read_after_write(
    s: Seq<PollView>,
    poll_id: u128,
    title: Option<Seq<char>>,
    status: Option<PollStatus>,
    author_id: u128,
)
    ensures
        ({
            let (t, r) = spec_upsert_poll(s, poll_id, title, status, author_id);
            let k = poll_slot(s, poll_id);
            &&& r.id == poll_id
            &&& r.title == (match title {
                Some(x) => x,
                None => if k < s.len() { s[k].title } else { spec_new_poll_title() },
            })
            &&& r.status == (match status {
                Some(x) => x,
                None => if k < s.len() { s[k].status } else { PollStatus::Pending },
            })
            &&& (k < s.len() ==> r.idx == s[k].idx && r.author_id == s[k].author_id && r.final_vote
                == s[k].final_vote)
            &&& (k == s.len() ==> r.idx == s.len() as u32 && r.author_id == author_id && r.final_vote
                is None)
            &&& first_match(t, same_poll(poll_id)) == k
            &&& t[k] == r
            &&& t.len() == (if k < s.len() { s.len() } else { s.len() + 1 })
            &&& forall|j: int| 0 <= j < s.len() && j != k ==> t[j] == s[j]
        }),
{
    let p = same_poll(poll_id);
    lemma_first_match_facts(s, p);
    let (t, r) = spec_upsert_poll(s, poll_id, title, status, author_id);
    let k = poll_slot(s, poll_id);
    assert(p(r));
    assert(is_first_match(t, p, k)) by {
        assert forall|j: int| 0 <= j < k implies !p(#[trigger] t[j]) by {
            assert(t[j] == s[j]);
        }
    }
    lemma_first_match_is(t, p, k);
}

/// Writing polls never makes two polls with one id.
pub proof fn law_poll_keeps_unique(
    s: Seq<PollView>,
    poll_id: u128,
    title: Option<Seq<char>>,
    status: Option<PollStatus>,
    author_id: u128,
)
    requires
        polls_unique(s),
    ensures
        polls_unique(spec_upsert_poll(s, poll_id, title, status, author_id).0),
{
    let p = same_poll(poll_id);
    lemma_first_match_facts(s, p);
    let t = spec_upsert_poll(s, poll_id, title, status, author_id).0;
    assert forall|i: int, j: int| 0 <= i < j < t.len() implies #[trigger] t[i].id != #[trigger] t[j].id by {
        if j == s.len() {
            assert(!p(s[i]));
        } else {
            assert(s[i].id != s[j].id);
        }
    }
}

/// Every poll is numbered by its position in the list.
pub open spec fn polls_numbered(s: Seq<PollView>) -> bool {
    forall|i: int| 0 <= i < s.len() ==> #[trigger] s[i].idx == i
}

/// When every poll is numbered by its position, writing polls keeps it so, as
/// long as the count of polls fits in a `u32`.
pub proof fn law_poll_keeps_numbering(
    s: Seq<PollView>,
    poll_id: u128,
    title: Option<Seq<char>>,
    status: Option<PollStatus>,
    author_id: u128,
)
    requires
        polls_numbered(s),
        s.len() < u32::MAX,
    ensures
        polls_numbered(spec_upsert_poll(s, poll_id, title, status, author_id).0),
{
    law_poll_read_after_write(s, poll_id, title, status, author_id);
}

/// The directory that holds a session's files.
pub open spec fn spec_session_dir(key: Seq<char>) -> Seq<char> {
    "session/"@ + key
}

/// `session/{key}/{file}`.
pub open spec fn spec_session_file(key: Seq<char>, file: Seq<char>) -> Seq<char> {
    spec_session_dir(key) + "/"@ + file
}

/// The directory that holds a session's files: `session/{key}`.
pub fn session_dir(key: &str) -> (r: String)
    ensures
        r@ == spec_session_dir(key@),
{
    let mut r = "session/".to_owned();
    r.append(key);
    r
}

/// Where a session's own record is stored: `session/{key}/session.json`.
pub fn session_path(key: &str) -> (r: String)
    ensures
        r@ == spec_session_file(key@, "session.json"@),
{
    let mut r = session_dir(key);
    r.append("/");
    r.append("session.json");
    r
}

/// Where a session's members are stored: `session/{key}/members.json`.
pub fn members_path(key: &str) -> (r: String)
    ensures
        r@ == spec_session_file(key@, "members.json"@),
{
    let mut r = session_dir(key);
    r.append("/");
    r.append("members.json");
    r
}

/// Where a session's polls are stored: `session/{key}/polls.json`.
pub fn polls_path(key: &str) -> (r: String)
    ensures
        r@ == spec_session_file(key@, "polls.json"@),
{
    let mut r = session_dir(key);
    r.append("/");
    r.append("polls.json");
    r
}

/// Where a session's votes are stored: `session/{key}/votes.json`.
pub fn votes_path(key: &str) -> (r: String)
    ensures
        r@ == spec_session_file(key@, "votes.json"@),
{
    let mut r = session_dir(key);
    r.append("/");
    r.append("votes.json");
    r
}

} // verus!
