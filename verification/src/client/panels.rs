//! What the voting and results panels show, member by member, stated directly
//! over the poll's votes: who has a vote, and which vote is a member's.
use crate::client::results::{spec_vote_for, spec_vote_label};
use crate::client::templates::{
    spec_vote_result_row, spec_vote_results, spec_vote_results_rows, spec_vote_status, spec_vote_status_row,
    spec_vote_status_rows,
};
use crate::member::MemberView;
use vstd::prelude::*;

verus! {

/// Some vote in `votes` is by `user`, wherever it stands.
pub open spec fn has_vote_by(votes: Seq<(u128, Seq<char>)>, user: u128) -> bool {
    exists|k: int| 0 <= k < votes.len() && (#[trigger] votes[k]).0 == user
}

/// Position `k` holds the first vote by `user`.
pub open spec fn first_vote_at(votes: Seq<(u128, Seq<char>)>, user: u128, k: int) -> bool {
    &&& 0 <= k < votes.len()
    &&& votes[k].0 == user
    &&& forall|j: int| 0 <= j < k ==> (#[trigger] votes[j]).0 != user
}

/// What a member's result cell holds: the choice of the member's first vote,
/// or `---` when the member has none.
pub open spec fn shown_choice(votes: Seq<(u128, Seq<char>)>, user: u128) -> Seq<char> {
    if has_vote_by(votes, user) {
        votes[choose|k: int| first_vote_at(votes, user, k)].1
    } else {
        "---"@
    }
}

/// Texts one after another.
pub open spec fn concat(parts: Seq<Seq<char>>) -> Seq<char>
    decreases parts.len(),
{
    if parts.len() == 0 {
        seq![]
    } else {
        concat(parts.drop_last()) + parts.last()
    }
}

/// A user's vote is found exactly when there is one, and it is the user's first.
pub proof fn law_vote_for_is_first_vote(votes: Seq<(u128, Seq<char>)>, user: u128)
    ensures
        spec_vote_for(votes, user) is Some <==> has_vote_by(votes, user),
        forall|k: int| first_vote_at(votes, user, k) ==> spec_vote_for(votes, user) == Some(votes[k].1),
        has_vote_by(votes, user) ==> exists|k: int| first_vote_at(votes, user, k),
    decreases votes.len(),
{
    if votes.len() > 0 {
        let rest = votes.drop_first();
        law_vote_for_is_first_vote(rest, user);
        if votes[0].0 == user {
            assert(first_vote_at(votes, user, 0));
            assert forall|k: int| first_vote_at(votes, user, k) implies spec_vote_for(votes, user) == Some(
                votes[k].1,
            ) by {
                if k > 0 {
                    assert(votes[0].0 != user);
                }
            }
        } else {
            assert forall|k: int| first_vote_at(votes, user, k) implies spec_vote_for(votes, user) == Some(
                votes[k].1,
            ) by {
                assert(k > 0);
                assert(rest[k - 1] == votes[k]);
                assert forall|j: int| 0 <= j < k - 1 implies (#[trigger] rest[j]).0 != user by {
                    assert(rest[j] == votes[j + 1]);
                }
                assert(first_vote_at(rest, user, k - 1));
            }
            if has_vote_by(votes, user) {
                let k = choose|k: int| 0 <= k < votes.len() && (#[trigger] votes[k]).0 == user;
                assert(rest[k - 1] == votes[k]);
                assert(has_vote_by(rest, user));
                let k2 = choose|k2: int| first_vote_at(rest, user, k2);
                assert(rest[k2] == votes[k2 + 1]);
                assert forall|j: int| 0 <= j < k2 + 1 implies (#[trigger] votes[j]).0 != user by {
                    if j > 0 {
                        assert(votes[j] == rest[j - 1]);
                    }
                }
                assert(first_vote_at(votes, user, k2 + 1));
            }
            if has_vote_by(rest, user) {
                let k = choose|k: int| 0 <= k < rest.len() && (#[trigger] rest[k]).0 == user;
                assert(votes[k + 1] == rest[k]);
            }
        }
    }
}

/// A result cell shows the member's first vote, or `---` when there is none.
pub proof fn law_vote_label_is_shown_choice(votes: Seq<(u128, Seq<char>)>, user: u128)
    ensures
        spec_vote_label(votes, user) == shown_choice(votes, user),
{
    law_vote_for_is_first_vote(votes, user);
    if has_vote_by(votes, user) {
        let k = choose|k: int| first_vote_at(votes, user, k);
        assert(first_vote_at(votes, user, k));
    }
}

proof fn lemma_status_rows(members: Seq<MemberView>, votes: Seq<(u128, Seq<char>)>)
    ensures
        spec_vote_status_rows(members, votes) == concat(
            members.map_values(|m: MemberView| spec_vote_status_row(m, has_vote_by(votes, m.user_id))),
        ),
    decreases members.len(),
{
    let f = |m: MemberView| spec_vote_status_row(m, has_vote_by(votes, m.user_id));
    if members.len() > 0 {
        lemma_status_rows(members.drop_last(), votes);
        law_vote_for_is_first_vote(votes, members.last().user_id);
        assert(members.map_values(f).drop_last() =~= members.drop_last().map_values(f));
    } else {
        assert(members.map_values(f) =~= seq![]);
    }
}

proof fn lemma_results_rows(members: Seq<MemberView>, votes: Seq<(u128, Seq<char>)>)
    ensures
        spec_vote_results_rows(members, votes) == concat(
            members.map_values(|m: MemberView| spec_vote_result_row(m, shown_choice(votes, m.user_id))),
        ),
    decreases members.len(),
{
    let f = |m: MemberView| spec_vote_result_row(m, shown_choice(votes, m.user_id));
    if members.len() > 0 {
        lemma_results_rows(members.drop_last(), votes);
        law_vote_label_is_shown_choice(votes, members.last().user_id);
        assert(members.map_values(f).drop_last() =~= members.drop_last().map_values(f));
    } else {
        assert(members.map_values(f) =~= seq![]);
    }
}

/// The voting panel has one row per member, in order, and a member's row is
/// checked exactly when some vote of the poll is the member's, wherever it
/// stands among the votes.
pub proof fn law_vote_status_checks_voters(members: Seq<MemberView>, votes: Seq<(u128, Seq<char>)>)
    ensures
        spec_vote_status(members, votes) == "<div>"@ + concat(
            members.map_values(|m: MemberView| spec_vote_status_row(m, has_vote_by(votes, m.user_id))),
        ) + "</div><div class=\"clear\"></div>"@,
{
    lemma_status_rows(members, votes);
}

/// The results have one row per member, in order, and a member's cell shows
/// the choice of the member's first vote wherever it stands among the votes,
/// and `---` only when the member has no vote.
pub proof fn law_vote_results_show_choices(members: Seq<MemberView>, votes: Seq<(u128, Seq<char>)>)
    ensures
        spec_vote_results(members, votes) == "<div>"@ + concat(
            members.map_values(|m: MemberView| spec_vote_result_row(m, shown_choice(votes, m.user_id))),
        ) + "</div><div class=\"clear\"></div>"@,
{
    lemma_results_rows(members, votes);
}

} // verus!
