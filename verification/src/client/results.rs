//! Who voted what in a poll: the choice shown for each member, and the count of
//! members who voted and who did not.
use crate::member::{Member, MemberView};
use crate::poll::PollStatus;
use vstd::prelude::*;

verus! {

/// The choice of `user` in `votes`: that of the first vote by the user.
pub open spec fn spec_vote_for(votes: Seq<(u128, Seq<char>)>, user: u128) -> Option<Seq<char>>
    decreases votes.len(),
{
    if votes.len() == 0 {
        None
    } else if votes[0].0 == user {
        Some(votes[0].1)
    } else {
        spec_vote_for(votes.drop_first(), user)
    }
}

/// The choice of `user` among `votes` (pairs of user and choice), if the user voted.
pub fn vote_for(votes: &Vec<(u128, String)>, user: u128) -> (r: Option<String>)
    ensures
        match r {
            Some(c) => spec_vote_for(votes.deep_view(), user) == Some(c@),
            None => spec_vote_for(votes.deep_view(), user) is None,
        },
{
    let ghost all = votes.deep_view();
    let mut i: usize = 0;
    proof {
        assert(all.skip(0) =~= all);
    }
    while i < votes.len()
        invariant
            i <= votes.len(),
            all == votes.deep_view(),
            spec_vote_for(all, user) == spec_vote_for(all.skip(i as int), user),
        decreases votes.len() - i,
    {
        proof {
            assert(all.skip(i as int).drop_first() =~= all.skip(i + 1));
            assert(all.skip(i as int)[0] == all[i as int]);
        }
        if votes[i].0 == user {
            return Some(votes[i].1.clone());
        }
        i = i + 1;
    }
    None
}

/// Whether `user` voted.
pub fn has_voted(votes: &Vec<(u128, String)>, user: u128) -> (r: bool)
    ensures
        r == spec_vote_for(votes.deep_view(), user) is Some,
{
    vote_for(votes, user).is_some()
}

/// What a member's cell shows among the results: the member's choice, or `---`.
pub open spec fn spec_vote_label(votes: Seq<(u128, Seq<char>)>, user: u128) -> Seq<char> {
    match spec_vote_for(votes, user) {
        Some(c) => c,
        None => "---"@,
    }
}

/// What a member's cell shows among the results: the member's choice, or `---`.
pub fn vote_label(votes: &Vec<(u128, String)>, user: u128) -> (r: String)
    ensures
        r@ == spec_vote_label(votes.deep_view(), user),
{
    match vote_for(votes, user) {
        Some(c) => c,
        None => "---".to_owned(),
    }
}

/// Whether a card is the one the user has chosen.
pub fn is_current_choice(current: &Option<String>, choice: &String) -> (r: bool)
    ensures
        r == (match current {
            Some(c) => c@ == choice@,
            None => false,
        }),
{
    match current {
        Some(c) => *c == *choice,
        None => false,
    }
}

/// What is said of a member's connection.
pub open spec fn spec_connection_label(connected: bool) -> Seq<char> {
    if connected {
        " (Connected)"@
    } else {
        " (Not Connected)"@
    }
}

/// What is said of a member's connection.
pub fn connection_label(connected: bool) -> (r: &'static str)
    ensures
        r@ == spec_connection_label(connected),
{
    if connected {
        " (Connected)"
    } else {
        " (Not Connected)"
    }
}

/// The members who voted, each with their choice, in the members' order.
pub open spec fn spec_valid_votes(members: Seq<MemberView>, votes: Seq<(u128, Seq<char>)>) -> Seq<
    (u128, Seq<char>),
>
    decreases members.len(),
{
    if members.len() == 0 {
        Seq::empty()
    } else {
        let r = spec_valid_votes(members.drop_last(), votes);
        match spec_vote_for(votes, members.last().user_id) {
            Some(c) => r.push((members.last().user_id, c)),
            None => r,
        }
    }
}

/// The members who did not vote, in the members' order.
pub open spec fn spec_invalid_votes(members: Seq<MemberView>, votes: Seq<(u128, Seq<char>)>) -> Seq<u128>
    decreases members.len(),
{
    if members.len() == 0 {
        Seq::empty()
    } else {
        let r = spec_invalid_votes(members.drop_last(), votes);
        match spec_vote_for(votes, members.last().user_id) {
            Some(_) => r,
            None => r.push(members.last().user_id),
        }
    }
}

/// Who voted (with the choice) and who did not, among a poll's members.
#[derive(Debug)]
pub struct VoteTally {
    pub valid_votes: Vec<(u128, String)>,
    pub invalid_votes: Vec<u128>,
}

/// Splits the members into those who voted, with their choices, and those who did not.
pub fn tally_votes(members: &Vec<Member>, votes: &Vec<(u128, String)>) -> (r: VoteTally)
    ensures
        r.valid_votes.deep_view() == spec_valid_votes(members.deep_view(), votes.deep_view()),
        r.invalid_votes@ == spec_invalid_votes(members.deep_view(), votes.deep_view()),
{
    let ghost all = members.deep_view();
    let mut valid: Vec<(u128, String)> = Vec::new();
    let mut invalid: Vec<u128> = Vec::new();
    let mut i: usize = 0;
    while i < members.len()
        invariant
            i <= members.len(),
            all == members.deep_view(),
            valid.deep_view() == spec_valid_votes(all.take(i as int), votes.deep_view()),
            invalid@ == spec_invalid_votes(all.take(i as int), votes.deep_view()),
        decreases members.len() - i,
    {
        proof {
            assert(all.take(i + 1).drop_last() =~= all.take(i as int));
        }
        let id = members[i].user_id();
        match vote_for(votes, id) {
            Some(c) => {
                let ghost before = valid.deep_view();
                valid.push((id, c));
                proof {
                    assert(valid.deep_view() =~= before.push((id, c@)));
                }
            },
            None => {
                invalid.push(id);
            },
        }
        i = i + 1;
    }
    proof {
        assert(all.take(members.len() as int) =~= all);
    }
    VoteTally { valid_votes: valid, invalid_votes: invalid }
}

/// Every member is counted once: as having voted or as not having voted.
pub proof fn law_tally_counts_every_member(members: Seq<MemberView>, votes: Seq<(u128, Seq<char>)>)
    ensures
        spec_valid_votes(members, votes).len() + spec_invalid_votes(members, votes).len() == members.len(),
    decreases members.len(),
{
    if members.len() > 0 {
        law_tally_counts_every_member(members.drop_last(), votes);
    }
}

/// Which parts of the poll dialog show for a poll's status, and whether the
/// voting panel or the results are drawn.
#[derive(Debug, PartialEq, Eq, Structural, Clone, Copy)]
pub struct PollSections {
    pub pending: bool,
    pub active: bool,
    pub complete: bool,
    pub render_votes: bool,
    pub render_results: bool,
}

/// Each status shows its own section; an active poll draws the voting panel and
/// a complete one the results.
pub open spec fn spec_poll_sections(s: PollStatus) -> PollSections {
    PollSections {
        pending: s == PollStatus::Pending,
        active: s == PollStatus::Active,
        complete: s == PollStatus::Complete,
        render_votes: s == PollStatus::Active,
        render_results: s == PollStatus::Complete,
    }
}

/// Which parts of the poll dialog show for a poll's status.
pub fn poll_sections(s: PollStatus) -> (r: PollSections)
    ensures
        r == spec_poll_sections(s),
{
    PollSections {
        pending: s == PollStatus::Pending,
        active: s == PollStatus::Active,
        complete: s == PollStatus::Complete,
        render_votes: s == PollStatus::Active,
        render_results: s == PollStatus::Complete,
    }
}

/// A number written in decimal.
pub open spec fn spec_decimal(n: nat) -> Seq<char>
    decreases n,
{
    if n < 10 {
        seq![(48 + n) as char]
    } else {
        spec_decimal(n / 10).push((48 + n % 10) as char)
    }
}

/// A digit, written.
fn digit_text(d: usize) -> (r: &'static str)
    requires
        d < 10,
    ensures
        r@ == seq![(48 + d) as char],
{
    let r = if d == 0 {
        "0"
    } else if d == 1 {
        "1"
    } else if d == 2 {
        "2"
    } else if d == 3 {
        "3"
    } else if d == 4 {
        "4"
    } else if d == 5 {
        "5"
    } else if d == 6 {
        "6"
    } else if d == 7 {
        "7"
    } else if d == 8 {
        "8"
    } else {
        "9"
    };
    proof {
        reveal_strlit("0");
        reveal_strlit("1");
        reveal_strlit("2");
        reveal_strlit("3");
        reveal_strlit("4");
        reveal_strlit("5");
        reveal_strlit("6");
        reveal_strlit("7");
        reveal_strlit("8");
        reveal_strlit("9");
    }
    r
}

/// A number written in decimal.
pub fn decimal(n: usize) -> (r: String)
    ensures
        r@ == spec_decimal(n as nat),
    decreases n,
{
    if n < 10 {
        digit_text(n).to_owned()
    } else {
        let mut r = decimal(n / 10);
        r.append(digit_text(n % 10));
        r
    }
}

/// How many of a poll's members voted, and how many members there are, as the
/// statistics show them.
pub fn vote_counts(tally: &VoteTally) -> (r: (String, String))
    requires
        tally.valid_votes.len() + tally.invalid_votes.len() <= usize::MAX,
    ensures
        r.0@ == spec_decimal(tally.valid_votes.len() as nat),
        r.1@ == spec_decimal((tally.valid_votes.len() + tally.invalid_votes.len()) as nat),
{
    let valid = tally.valid_votes.len();
    (decimal(valid), decimal(valid + tally.invalid_votes.len()))
}

} // verus!
