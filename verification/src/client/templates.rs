//! The client's panels and lists, as HTML.
use crate::client::html::{onclick_event, spec_onclick_event};
use crate::client::results::{connection_label, has_voted, is_current_choice, spec_connection_label, spec_vote_for, spec_vote_label, vote_label};
use crate::ids::{uuid_text, uuid_to_string};
use crate::markup::{escape_html, spec_escape_html};
use crate::member::{role_label, Member, MemberView};
use crate::poll::{opt_text, Poll, PollView};
use std::collections::HashSet;
use vstd::prelude::*;

verus! {

broadcast use vstd::std_specs::hash::group_hash_axioms;

/// Whether a member is connected, as a span.
pub open spec fn spec_conn_el(connected: bool) -> Seq<char> {
    "<span>"@ + spec_connection_label(connected) + "</span>"@
}

/// Whether a member is connected, as a span.
pub fn conn_el(connected: bool) -> (r: String)
    ensures
        r@ == spec_conn_el(connected),
{
    let mut r = "<span>".to_owned();
    r.append(connection_label(connected));
    r.append("</span>");
    r
}

/// A member in the member list: a link that opens the member's dialog, with the name and whether the member is connected.
pub open spec fn spec_member_summary(link_class: Seq<char>, m: MemberView, connected: bool) -> Seq<char> {
    "<li><a class=\""@ + spec_escape_html(link_class) + "\" onclick=\""@ + spec_escape_html(spec_onclick_event("member-detail"@, uuid_text(m.user_id), ""@)) + "\">"@ + spec_escape_html(m.name) + spec_conn_el(connected) + "</a></li>"@
}

/// A member in the member list: a link that opens the member's dialog, with the name and whether the member is connected.
pub fn member_summary(link_class: &str, m: &Member, connected: bool) -> (r: String)
    ensures
        r@ == spec_member_summary(link_class@, m@, connected),
{
    let mut r = "<li><a class=\"".to_owned();
    let part1 = escape_html(link_class);
    r.append(part1.as_str());
    r.append("\" onclick=\"");
    let part2 = escape_html(onclick_event("member-detail", uuid_to_string(m.user_id()).as_str(), "").as_str());
    r.append(part2.as_str());
    r.append("\">");
    let part3 = escape_html(m.name().as_str());
    r.append(part3.as_str());
    let part4 = conn_el(connected);
    r.append(part4.as_str());
    r.append("</a></li>");
    r
}

/// The member dialog's content: the member's role and whether the member is connected.
pub open spec fn spec_member_detail(m: MemberView, connected: bool) -> Seq<char> {
    "<em>"@ + spec_escape_html(role_label(m.role)) + "</em><div>"@ + spec_conn_el(connected) + "</div>"@
}

/// The member dialog's content: the member's role and whether the member is connected.
pub fn member_detail(m: &Member, connected: bool) -> (r: String)
    ensures
        r@ == spec_member_detail(m@, connected),
{
    let mut r = "<em>".to_owned();
    let part1 = escape_html(m.role().to_string().as_str());
    r.append(part1.as_str());
    r.append("</em><div>");
    let part2 = conn_el(connected);
    r.append(part2.as_str());
    r.append("</div>");
    r
}

/// The rows of members, one for each item in order.
pub open spec fn spec_members_rows(link_class: Seq<char>, ms: Seq<MemberView>, connected: Set<u128>) -> Seq<char>
    decreases ms.len(),
{
    if ms.len() == 0 {
        Seq::empty()
    } else {
        spec_members_rows(link_class, ms.drop_last(), connected) + spec_member_summary(link_class, ms.last(), connected.contains(ms.last().user_id))
    }
}

/// The member list: each member in order, marked connected when `connected` holds the member's id.
pub open spec fn spec_members(link_class: Seq<char>, ms: Seq<MemberView>, connected: Set<u128>) -> Seq<char> {
    spec_members_rows(link_class, ms, connected)
}

/// The member list: each member in order, marked connected when `connected` holds the member's id.
pub fn members(link_class: &str, ms: &Vec<Member>, connected: &HashSet<u128>) -> (r: String)
    ensures
        r@ == spec_members(link_class@, ms.deep_view(), connected@),
{
    let ghost all = ms.deep_view();
    let mut rows = String::new();
    let mut i: usize = 0;
    while i < ms.len()
        invariant
            i <= ms.len(),
            all == ms.deep_view(),
            rows@ == spec_members_rows(link_class@, all.take(i as int), connected@),
        decreases ms.len() - i,
    {
        let piece = member_summary(link_class, &ms[i], connected.contains(&ms[i].user_id()));
        proof {
            assert(all.take(i + 1).drop_last() =~= all.take(i as int));
            assert(all.take(i + 1).last() == all[i as int]);
        }
        rows.append(piece.as_str());
        i = i + 1;
    }
    proof {
        assert(all.take(ms.len() as int) =~= all);
    }
    rows
}

/// A poll in the poll list: a link with its title that opens the poll's dialog.
pub open spec fn spec_poll_summary(link_class: Seq<char>, p: PollView) -> Seq<char> {
    "<li><a class=\""@ + spec_escape_html(link_class) + "\" onclick=\""@ + spec_escape_html(spec_onclick_event("poll-detail"@, uuid_text(p.id), ""@)) + "\">"@ + spec_escape_html(p.title) + "</a></li>"@
}

/// A poll in the poll list: a link with its title that opens the poll's dialog.
pub fn poll_summary(link_class: &str, p: &Poll) -> (r: String)
    ensures
        r@ == spec_poll_summary(link_class@, p@),
{
    let mut r = "<li><a class=\"".to_owned();
    let part1 = escape_html(link_class);
    r.append(part1.as_str());
    r.append("\" onclick=\"");
    let part2 = escape_html(onclick_event("poll-detail", uuid_to_string(p.id()).as_str(), "").as_str());
    r.append(part2.as_str());
    r.append("\">");
    let part3 = escape_html(p.title().as_str());
    r.append(part3.as_str());
    r.append("</a></li>");
    r
}

/// The rows of poll_list, one for each item in order.
pub open spec fn spec_poll_list_rows(link_class: Seq<char>, ps: Seq<PollView>) -> Seq<char>
    decreases ps.len(),
{
    if ps.len() == 0 {
        Seq::empty()
    } else {
        spec_poll_list_rows(link_class, ps.drop_last()) + spec_poll_summary(link_class, ps.last())
    }
}

/// The polls in order.
pub open spec fn spec_poll_list(link_class: Seq<char>, ps: Seq<PollView>) -> Seq<char> {
    spec_poll_list_rows(link_class, ps)
}

/// The polls in order.
pub fn poll_list(link_class: &str, ps: &Vec<Poll>) -> (r: String)
    ensures
        r@ == spec_poll_list(link_class@, ps.deep_view()),
{
    let ghost all = ps.deep_view();
    let mut rows = String::new();
    let mut i: usize = 0;
    while i < ps.len()
        invariant
            i <= ps.len(),
            all == ps.deep_view(),
            rows@ == spec_poll_list_rows(link_class@, all.take(i as int)),
        decreases ps.len() - i,
    {
        let piece = poll_summary(link_class, &ps[i]);
        proof {
            assert(all.take(i + 1).drop_last() =~= all.take(i as int));
            assert(all.take(i + 1).last() == all[i as int]);
        }
        rows.append(piece.as_str());
        i = i + 1;
    }
    proof {
        assert(all.take(ps.len() as int) =~= all);
    }
    rows
}

/// A member in the voting panel, with a check when the member has voted and a dash otherwise.
pub open spec fn spec_vote_status_row(m: MemberView, voted: bool) -> Seq<char> {
    "<div class=\"vote-member\"><div>"@ + spec_escape_html(m.name) + "<div><div class=\"icon\" data-uk-icon=\"icon: "@ + (if voted { "check"@ } else { "minus"@ }) + "; ratio: 2\"></div></div></div></div>"@
}

/// A member in the voting panel, with a check when the member has voted and a dash otherwise.
pub fn vote_status_row(m: &Member, voted: bool) -> (r: String)
    ensures
        r@ == spec_vote_status_row(m@, voted),
{
    let mut r = "<div class=\"vote-member\"><div>".to_owned();
    let part1 = escape_html(m.name().as_str());
    r.append(part1.as_str());
    r.append("<div><div class=\"icon\" data-uk-icon=\"icon: ");
    r.append(if voted { "check" } else { "minus" });
    r.append("; ratio: 2\"></div></div></div></div>");
    r
}

/// The rows of vote_status, one for each item in order.
pub open spec fn spec_vote_status_rows(members: Seq<MemberView>, votes: Seq<(u128, Seq<char>)>) -> Seq<char>
    decreases members.len(),
{
    if members.len() == 0 {
        Seq::empty()
    } else {
        spec_vote_status_rows(members.drop_last(), votes) + spec_vote_status_row(members.last(), spec_vote_for(votes, members.last().user_id) is Some)
    }
}

/// Who has voted: each member in order, checked when `votes` holds a vote of the member.
pub open spec fn spec_vote_status(members: Seq<MemberView>, votes: Seq<(u128, Seq<char>)>) -> Seq<char> {
    "<div>"@ + spec_vote_status_rows(members, votes) + "</div><div class=\"clear\"></div>"@
}

/// Who has voted: each member in order, checked when `votes` holds a vote of the member.
pub fn vote_status(members: &Vec<Member>, votes: &Vec<(u128, String)>) -> (r: String)
    ensures
        r@ == spec_vote_status(members.deep_view(), votes.deep_view()),
{
    let ghost all = members.deep_view();
    let mut rows = String::new();
    let mut i: usize = 0;
    while i < members.len()
        invariant
            i <= members.len(),
            all == members.deep_view(),
            rows@ == spec_vote_status_rows(all.take(i as int), votes.deep_view()),
        decreases members.len() - i,
    {
        let piece = vote_status_row(&members[i], has_voted(votes, members[i].user_id()));
        proof {
            assert(all.take(i + 1).drop_last() =~= all.take(i as int));
            assert(all.take(i + 1).last() == all[i as int]);
        }
        rows.append(piece.as_str());
        i = i + 1;
    }
    proof {
        assert(all.take(members.len() as int) =~= all);
    }
    let mut r = "<div>".to_owned();
    r.append(rows.as_str());
    r.append("</div><div class=\"clear\"></div>");
    r
}

/// The card the user has chosen.
pub open spec fn spec_vote_choice_active(choice: Seq<char>) -> Seq<char> {
    "<div class=\"vote-choice active\">"@ + spec_escape_html(choice) + "</div>"@
}

/// The card the user has chosen.
pub fn vote_choice_active(choice: &str) -> (r: String)
    ensures
        r@ == spec_vote_choice_active(choice@),
{
    let mut r = "<div class=\"vote-choice active\">".to_owned();
    let part1 = escape_html(choice);
    r.append(part1.as_str());
    r.append("</div>");
    r
}

/// A card the user may choose: clicking it votes it.
pub open spec fn spec_vote_choice_open(choice: Seq<char>) -> Seq<char> {
    "<div class=\"vote-choice\" onclick=\""@ + spec_escape_html(spec_onclick_event("select-choice"@, choice, ""@)) + "\">"@ + spec_escape_html(choice) + "</div>"@
}

/// A card the user may choose: clicking it votes it.
pub fn vote_choice_open(choice: &str) -> (r: String)
    ensures
        r@ == spec_vote_choice_open(choice@),
{
    let mut r = "<div class=\"vote-choice\" onclick=\"".to_owned();
    let part1 = escape_html(onclick_event("select-choice", choice, "").as_str());
    r.append(part1.as_str());
    r.append("\">");
    let part2 = escape_html(choice);
    r.append(part2.as_str());
    r.append("</div>");
    r
}

/// The rows of vote_choices, one for each item in order.
pub open spec fn spec_vote_choices_rows(choices: Seq<Seq<char>>, current: Option<Seq<char>>) -> Seq<char>
    decreases choices.len(),
{
    if choices.len() == 0 {
        Seq::empty()
    } else {
        spec_vote_choices_rows(choices.drop_last(), current) + (if current == Some(choices.last()) { spec_vote_choice_active(choices.last()) } else { spec_vote_choice_open(choices.last()) })
    }
}

/// The cards on offer, in order; the one the user has chosen is marked and cannot be clicked.
pub open spec fn spec_vote_choices(choices: Seq<Seq<char>>, current: Option<Seq<char>>) -> Seq<char> {
    "<div>"@ + spec_vote_choices_rows(choices, current) + "</div><div class=\"clear\"></div>"@
}

/// The cards on offer, in order; the one the user has chosen is marked and cannot be clicked.
pub fn vote_choices(choices: &Vec<String>, current: &Option<String>) -> (r: String)
    ensures
        r@ == spec_vote_choices(choices.deep_view(), opt_text(*current)),
{
    let ghost all = choices.deep_view();
    let mut rows = String::new();
    let mut i: usize = 0;
    while i < choices.len()
        invariant
            i <= choices.len(),
            all == choices.deep_view(),
            rows@ == spec_vote_choices_rows(all.take(i as int), opt_text(*current)),
        decreases choices.len() - i,
    {
        let piece = vote_choice(&choices[i], current);
        proof {
            assert(all.take(i + 1).drop_last() =~= all.take(i as int));
            assert(all.take(i + 1).last() == all[i as int]);
        }
        rows.append(piece.as_str());
        i = i + 1;
    }
    proof {
        assert(all.take(choices.len() as int) =~= all);
    }
    let mut r = "<div>".to_owned();
    r.append(rows.as_str());
    r.append("</div><div class=\"clear\"></div>");
    r
}

/// A member among the results, with the member's choice or `---`.
pub open spec fn spec_vote_result_row(m: MemberView, label: Seq<char>) -> Seq<char> {
    "<div class=\"vote-member\"><div>"@ + spec_escape_html(m.name) + "<div><div class=\"large-text\">"@ + spec_escape_html(label) + "</div></div></div></div>"@
}

/// A member among the results, with the member's choice or `---`.
pub fn vote_result_row(m: &Member, label: &str) -> (r: String)
    ensures
        r@ == spec_vote_result_row(m@, label@),
{
    let mut r = "<div class=\"vote-member\"><div>".to_owned();
    let part1 = escape_html(m.name().as_str());
    r.append(part1.as_str());
    r.append("<div><div class=\"large-text\">");
    let part2 = escape_html(label);
    r.append(part2.as_str());
    r.append("</div></div></div></div>");
    r
}

/// The rows of vote_results, one for each item in order.
pub open spec fn spec_vote_results_rows(members: Seq<MemberView>, votes: Seq<(u128, Seq<char>)>) -> Seq<char>
    decreases members.len(),
{
    if members.len() == 0 {
        Seq::empty()
    } else {
        spec_vote_results_rows(members.drop_last(), votes) + spec_vote_result_row(members.last(), spec_vote_label(votes, members.last().user_id))
    }
}

/// The results: each member in order with the choice of the member's first vote, or `---`.
pub open spec fn spec_vote_results(members: Seq<MemberView>, votes: Seq<(u128, Seq<char>)>) -> Seq<char> {
    "<div>"@ + spec_vote_results_rows(members, votes) + "</div><div class=\"clear\"></div>"@
}

/// The results: each member in order with the choice of the member's first vote, or `---`.
pub fn vote_results(members: &Vec<Member>, votes: &Vec<(u128, String)>) -> (r: String)
    ensures
        r@ == spec_vote_results(members.deep_view(), votes.deep_view()),
{
    let ghost all = members.deep_view();
    let mut rows = String::new();
    let mut i: usize = 0;
    while i < members.len()
        invariant
            i <= members.len(),
            all == members.deep_view(),
            rows@ == spec_vote_results_rows(all.take(i as int), votes.deep_view()),
        decreases members.len() - i,
    {
        let piece = vote_result_row(&members[i], vote_label(votes, members[i].user_id()).as_str());
        proof {
            assert(all.take(i + 1).drop_last() =~= all.take(i as int));
            assert(all.take(i + 1).last() == all[i as int]);
        }
        rows.append(piece.as_str());
        i = i + 1;
    }
    proof {
        assert(all.take(members.len() as int) =~= all);
    }
    let mut r = "<div>".to_owned();
    r.append(rows.as_str());
    r.append("</div><div class=\"clear\"></div>");
    r
}

/// `[{valid}/{total}] votes counted`.
pub open spec fn spec_votes_counted(valid: Seq<char>, total: Seq<char>) -> Seq<char> {
    "["@ + valid + "/"@ + total + "] votes counted"@
}

/// `[{valid}/{total}] votes counted`.
fn votes_counted(valid: &str, total: &str) -> (r: String)
    ensures
        r@ == spec_votes_counted(valid@, total@),
{
    let mut r = "[".to_owned();
    r.append(valid);
    r.append("/");
    r.append(total);
    r.append("] votes counted");
    r
}

/// The statistics of a poll: how many of the members voted, and the mean, median and mode of the numeric votes, each given as text.
pub open spec fn spec_vote_stats(valid: Seq<char>, total: Seq<char>, mean: Seq<char>, median: Seq<char>, mode: Seq<char>) -> Seq<char> {
    "<div><div>"@ + spec_escape_html(spec_votes_counted(valid, total)) + "</div><div>Mean: "@ + spec_escape_html(mean) + "</div><div>Median: "@ + spec_escape_html(median) + "</div><div>Mode: "@ + spec_escape_html(mode) + "</div></div><div class=\"clear\"></div>"@
}

/// The statistics of a poll: how many of the members voted, and the mean, median and mode of the numeric votes, each given as text.
pub fn vote_stats(valid: &str, total: &str, mean: &str, median: &str, mode: &str) -> (r: String)
    ensures
        r@ == spec_vote_stats(valid@, total@, mean@, median@, mode@),
{
    let mut r = "<div><div>".to_owned();
    let part1 = escape_html(votes_counted(valid, total).as_str());
    r.append(part1.as_str());
    r.append("</div><div>Mean: ");
    let part2 = escape_html(mean);
    r.append(part2.as_str());
    r.append("</div><div>Median: ");
    let part3 = escape_html(median);
    r.append(part3.as_str());
    r.append("</div><div>Mode: ");
    let part4 = escape_html(mode);
    r.append(part4.as_str());
    r.append("</div></div><div class=\"clear\"></div>");
    r
}

/// One card on offer: marked when it is the user's choice, clickable otherwise.
fn vote_choice(choice: &String, current: &Option<String>) -> (r: String)
    ensures
        r@ == (if opt_text(*current) == Some(choice@) {
            spec_vote_choice_active(choice@)
        } else {
            spec_vote_choice_open(choice@)
        }),
{
    if is_current_choice(current, choice) {
        vote_choice_active(choice.as_str())
    } else {
        vote_choice_open(choice.as_str())
    }
}

/// The poll list: "No polls" when there are none, else each poll in order.
pub open spec fn spec_polls(link_class: Seq<char>, ps: Seq<PollView>) -> Seq<char> {
    if ps.len() == 0 {
        "<li>No polls</li>"@
    } else {
        spec_poll_list(link_class, ps)
    }
}

/// The poll list: "No polls" when there are none, else each poll in order.
pub fn polls(link_class: &str, ps: &Vec<Poll>) -> (r: String)
    ensures
        r@ == spec_polls(link_class@, ps.deep_view()),
{
    if ps.len() == 0 {
        "<li>No polls</li>".to_owned()
    } else {
        poll_list(link_class, ps)
    }
}

} // verus!
