//! What the client shows: the changes it makes to the page, and the data each
//! panel is drawn from.
use crate::client::events::{get_active_poll_id, ClientEvent, ClientEventView};
use crate::client::results::{spec_vote_for, tally_votes, vote_for, VoteTally};
use crate::client::session_ctx::{sort_polls_by_idx, sorted_by_idx, sorted_by_name, spec_votes_by_poll, SessionContext};
use crate::client::templates::{member_detail, spec_member_detail, spec_members, spec_polls, spec_vote_choices, spec_vote_results, spec_vote_status, members, vote_choices, vote_results, vote_status};
use crate::poll::opt_text;
use crate::ids::{uuid_parse, uuid_text, uuid_to_string};
use crate::member::{Member, MemberView};
use crate::poll::{Poll, PollStatus, PollView};
use crate::search::{first_match, is_first_match, lemma_first_match_is, lemma_first_match_none};
use crate::session::clone_texts;
use crate::store::{same_member, same_poll};
use vstd::prelude::*;

verus! {

/// A change to the page.
#[derive(Debug)]
pub enum DomOp {
    /// Put a value in an input field.
    SetInputValue { id: String, value: String },
    /// Replace an element's content with a text.
    SetText { id: String, text: String },
    /// Replace an element's content with HTML.
    SetHtml { id: String, html: String },
    /// Show or hide an element.
    SetVisible { id: String, visible: bool },
    /// Draw the voting panel of the poll in the dialog.
    RenderVotes,
    /// Draw the results of the poll in the dialog.
    RenderResults,
    /// Open a dialog.
    ShowModal { id: String },
}

/// A change to the page, as the contracts see it.
pub enum DomOpView {
    SetInputValue { id: Seq<char>, value: Seq<char> },
    SetText { id: Seq<char>, text: Seq<char> },
    SetHtml { id: Seq<char>, html: Seq<char> },
    SetVisible { id: Seq<char>, visible: bool },
    RenderVotes,
    RenderResults,
    ShowModal { id: Seq<char> },
}

impl View for DomOp {
    type V = DomOpView;

    open spec fn view(&self) -> DomOpView {
        match self {
            DomOp::SetInputValue { id, value } => DomOpView::SetInputValue { id: id@, value: value@ },
            DomOp::SetText { id, text } => DomOpView::SetText { id: id@, text: text@ },
            DomOp::SetHtml { id, html } => DomOpView::SetHtml { id: id@, html: html@ },
            DomOp::SetVisible { id, visible } => DomOpView::SetVisible { id: id@, visible: *visible },
            DomOp::RenderVotes => DomOpView::RenderVotes,
            DomOp::RenderResults => DomOpView::RenderResults,
            DomOp::ShowModal { id } => DomOpView::ShowModal { id: id@ },
        }
    }
}

impl DeepView for DomOp {
    type V = DomOpView;

    open spec fn deep_view(&self) -> DomOpView {
        self@
    }
}

/// Opening the profile dialog fills it with the user's name.
pub fn on_profile_detail(profile_name: &str) -> (r: Vec<DomOp>)
    ensures
        r.deep_view() == seq![
            DomOpView::SetInputValue { id: "profile-detail-modal-input"@, value: profile_name@ },
            DomOpView::ShowModal { id: "profile-detail-modal"@ },
        ],
{
    let mut r: Vec<DomOp> = Vec::new();
    r.push(DomOp::SetInputValue { id: "profile-detail-modal-input".to_owned(), value: profile_name.to_owned() });
    r.push(DomOp::ShowModal { id: "profile-detail-modal".to_owned() });
    proof {
        assert(r.deep_view() =~= seq![
            DomOpView::SetInputValue { id: "profile-detail-modal-input"@, value: profile_name@ },
            DomOpView::ShowModal { id: "profile-detail-modal"@ },
        ]);
    }
    r
}

/// Opening the session dialog fills it with the session's title, once a session
/// has been joined.
pub fn on_session_detail(sc: &Option<SessionContext>) -> (r: Vec<DomOp>)
    ensures
        r.deep_view() == (match sc {
            Some(c) => seq![
                DomOpView::SetInputValue { id: "session-detail-modal-input"@, value: c@.session.title },
                DomOpView::ShowModal { id: "session-detail-modal"@ },
            ],
            None => seq![DomOpView::ShowModal { id: "session-detail-modal"@ }],
        }),
{
    let mut r: Vec<DomOp> = Vec::new();
    match sc {
        Some(c) => {
            r.push(
                DomOp::SetInputValue {
                    id: "session-detail-modal-input".to_owned(),
                    value: c.session().title().clone(),
                },
            );
        },
        None => {},
    }
    r.push(DomOp::ShowModal { id: "session-detail-modal".to_owned() });
    proof {
        match sc {
            Some(c) => {
                assert(r.deep_view() =~= seq![
                    DomOpView::SetInputValue { id: "session-detail-modal-input"@, value: c@.session.title },
                    DomOpView::ShowModal { id: "session-detail-modal"@ },
                ]);
            },
            None => {
                assert(r.deep_view() =~= seq![DomOpView::ShowModal { id: "session-detail-modal"@ }]);
            },
        }
    }
    r
}

/// Showing a poll's status: one section per status, visible only for the
/// poll's own, then the voting panel for an active poll or the results for a
/// complete one.
pub open spec fn spec_poll_status_dom(s: PollStatus) -> Seq<DomOpView> {
    let base = seq![
        DomOpView::SetVisible { id: "poll-section-pending"@, visible: s == PollStatus::Pending },
        DomOpView::SetVisible { id: "poll-section-active"@, visible: s == PollStatus::Active },
        DomOpView::SetVisible { id: "poll-section-complete"@, visible: s == PollStatus::Complete },
    ];
    if s == PollStatus::Active {
        base.push(DomOpView::RenderVotes)
    } else if s == PollStatus::Complete {
        base.push(DomOpView::RenderResults)
    } else {
        base
    }
}

/// The changes that show a poll's status.
pub fn poll_status_dom(s: PollStatus) -> (r: Vec<DomOp>)
    ensures
        r.deep_view() == spec_poll_status_dom(s),
{
    let mut r: Vec<DomOp> = Vec::new();
    r.push(DomOp::SetVisible { id: "poll-section-pending".to_owned(), visible: s == PollStatus::Pending });
    r.push(DomOp::SetVisible { id: "poll-section-active".to_owned(), visible: s == PollStatus::Active });
    r.push(DomOp::SetVisible { id: "poll-section-complete".to_owned(), visible: s == PollStatus::Complete });
    if s == PollStatus::Active {
        r.push(DomOp::RenderVotes);
    }
    if s == PollStatus::Complete {
        r.push(DomOp::RenderResults);
    }
    proof {
        assert(r.deep_view() =~= spec_poll_status_dom(s));
    }
    r
}

fn find_member(members: &Vec<Member>, id: u128) -> (r: Option<usize>)
    ensures
        match r {
            Some(i) => first_match(members.deep_view(), same_member(id)) == i,
            None => first_match(members.deep_view(), same_member(id)) == -1,
        },
{
    let ghost s = members.deep_view();
    let ghost p = same_member(id);
    let mut i: usize = 0;
    while i < members.len()
        invariant
            i <= members.len(),
            s == members.deep_view(),
            p == same_member(id),
            forall|j: int| 0 <= j < i ==> !p(#[trigger] s[j]),
        decreases members.len() - i,
    {
        proof {
            assert(s[i as int] == members@[i as int]@);
        }
        if members[i].user_id() == id {
            proof {
                assert(is_first_match(s, p, i as int));
                lemma_first_match_is(s, p, i as int);
            }
            return Some(i);
        }
        i = i + 1;
    }
    proof {
        lemma_first_match_none(s, p);
    }
    None
}

fn find_poll(polls: &Vec<Poll>, id: u128) -> (r: Option<usize>)
    ensures
        match r {
            Some(i) => first_match(polls.deep_view(), same_poll(id)) == i,
            None => first_match(polls.deep_view(), same_poll(id)) == -1,
        },
{
    let ghost s = polls.deep_view();
    let ghost p = same_poll(id);
    let mut i: usize = 0;
    while i < polls.len()
        invariant
            i <= polls.len(),
            s == polls.deep_view(),
            p == same_poll(id),
            forall|j: int| 0 <= j < i ==> !p(#[trigger] s[j]),
        decreases polls.len() - i,
    {
        proof {
            assert(s[i as int] == polls@[i as int]@);
        }
        if polls[i].id() == id {
            proof {
                assert(is_first_match(s, p, i as int));
                lemma_first_match_is(s, p, i as int);
            }
            return Some(i);
        }
        i = i + 1;
    }
    proof {
        lemma_first_match_none(s, p);
    }
    None
}

/// Opening a member's dialog shows the member's name, and the member's role
/// and (as "not connected") connection, when the member is known.
pub open spec fn spec_on_member_detail(members: Option<Seq<MemberView>>, id: u128) -> Seq<DomOpView> {
    let show = DomOpView::ShowModal { id: "member-detail-modal"@ };
    match members {
        Some(ms) => {
            let i = first_match(ms, same_member(id));
            if i >= 0 {
                seq![
                    DomOpView::SetText { id: "member-detail-name"@, text: ms[i].name },
                    DomOpView::SetHtml { id: "member-detail-content"@, html: spec_member_detail(ms[i], false) },
                    show,
                ]
            } else {
                seq![show]
            }
        },
        None => seq![show],
    }
}

/// The members known to the client, if a session has been joined.
pub open spec fn opt_members(sc: Option<SessionContext>) -> Option<Seq<MemberView>> {
    match sc {
        Some(c) => Some(c@.members),
        None => None,
    }
}

/// The changes that open member `id`'s dialog.
pub fn on_member_detail(sc: &Option<SessionContext>, id: u128) -> (r: Vec<DomOp>)
    ensures
        r.deep_view() == spec_on_member_detail(opt_members(*sc), id),
{
    let mut r: Vec<DomOp> = Vec::new();
    match sc {
        Some(c) => {
            match find_member(c.members(), id) {
                Some(i) => {
                    let m = &c.members()[i];
                    r.push(DomOp::SetText { id: "member-detail-name".to_owned(), text: m.name().clone() });
                    r.push(DomOp::SetHtml { id: "member-detail-content".to_owned(), html: member_detail(m, false) });
                },
                None => {},
            }
        },
        None => {},
    }
    r.push(DomOp::ShowModal { id: "member-detail-modal".to_owned() });
    proof {
        assert(r.deep_view() =~= spec_on_member_detail(opt_members(*sc), id));
    }
    r
}

/// Opening a poll's dialog, when the poll is known: its title, its identifier
/// in the dialog's hidden field, and its status.
pub open spec fn spec_on_poll_detail(polls: Option<Seq<PollView>>, id: u128) -> Seq<DomOpView> {
    let show = DomOpView::ShowModal { id: "poll-detail-modal"@ };
    match polls {
        Some(ps) => {
            let i = first_match(ps, same_poll(id));
            if i >= 0 {
                seq![
                    DomOpView::SetText { id: "poll-detail-title"@, text: ps[i].title },
                    DomOpView::SetInputValue { id: "active-poll-id"@, value: uuid_text(id) },
                ] + spec_poll_status_dom(ps[i].status) + seq![show]
            } else {
                seq![show]
            }
        },
        None => seq![show],
    }
}

/// The polls known to the client, if a session has been joined.
pub open spec fn opt_polls(sc: Option<SessionContext>) -> Option<Seq<PollView>> {
    match sc {
        Some(c) => Some(c@.polls),
        None => None,
    }
}

/// The changes that open poll `id`'s dialog.
pub fn on_poll_detail(sc: &Option<SessionContext>, id: u128) -> (r: Vec<DomOp>)
    ensures
        r.deep_view() == spec_on_poll_detail(opt_polls(*sc), id),
        // The identifier put in the dialog reads back as the poll's.
        opt_polls(*sc) matches Some(ps) && first_match(ps, same_poll(id)) >= 0 ==> uuid_parse(uuid_text(id))
            == Some(id),
{
    let mut r: Vec<DomOp> = Vec::new();
    match sc {
        Some(c) => {
            match find_poll(c.polls(), id) {
                Some(i) => {
                    let p = &c.polls()[i];
                    r.push(DomOp::SetText { id: "poll-detail-title".to_owned(), text: p.title().clone() });
                    r.push(DomOp::SetInputValue { id: "active-poll-id".to_owned(), value: uuid_to_string(id) });
                    let mut ops = poll_status_dom(*p.status());
                    r.append(&mut ops);
                },
                None => {},
            }
        },
        None => {},
    }
    r.push(DomOp::ShowModal { id: "poll-detail-modal".to_owned() });
    proof {
        assert(r.deep_view() =~= spec_on_poll_detail(opt_polls(*sc), id));
    }
    r
}

/// What the voting panel is drawn from: the members by name, who voted what in
/// the poll, the user's own choice, and the cards on offer.
#[derive(Debug)]
pub struct VotesPanel {
    pub members: Vec<Member>,
    pub votes: Vec<(u128, String)>,
    pub current: Option<String>,
    pub choices: Vec<String>,
    /// What `poll-vote-status` shows: who has voted.
    pub status_html: String,
    /// What `poll-vote-choices` shows: the cards, the user's own marked.
    pub choices_html: String,
}

/// The voting panel of the poll whose identifier the dialog holds, for user
/// `me`; nothing when the dialog holds no identifier or no session is joined.
pub fn render_votes(sc: &Option<SessionContext>, active_input: &str, me: u128) -> (r: Option<VotesPanel>)
    ensures
        match r {
            None => uuid_parse(active_input@) is None || sc is None,
            Some(panel) => uuid_parse(active_input@) matches Some(active) && sc matches Some(c) && {
                let votes = spec_votes_by_poll(c@.votes, active);
                &&& panel.members.deep_view().to_multiset() == c@.members.to_multiset()
                &&& sorted_by_name(panel.members.deep_view())
                &&& panel.votes.deep_view() == votes
                &&& match panel.current {
                    Some(x) => spec_vote_for(votes, me) == Some(x@),
                    None => spec_vote_for(votes, me) is None,
                }
                &&& panel.choices.deep_view() == c@.session.choices
                &&& panel.status_html@ == spec_vote_status(panel.members.deep_view(), votes)
                &&& panel.choices_html@ == spec_vote_choices(c@.session.choices, opt_text(panel.current))
            },
        },
{
    match get_active_poll_id(active_input) {
        Ok(active) => {
            match sc {
                Some(c) => {
                    let votes = c.votes_by_poll(active);
                    let current = vote_for(&votes, me);
                    let members = c.members_sorted();
                    let choices = clone_texts(c.session().choices());
                    let status_html = vote_status(&members, &votes);
                    let choices_html = vote_choices(&choices, &current);
                    Some(VotesPanel { members, votes, current, choices, status_html, choices_html })
                },
                None => None,
            }
        },
        Err(_) => None,
    }
}

/// What the results are drawn from: the members by name, who voted what in the
/// poll, and who voted and who did not.
#[derive(Debug)]
pub struct ResultsPanel {
    pub members: Vec<Member>,
    pub votes: Vec<(u128, String)>,
    pub tally: VoteTally,
    /// What `poll-complete-summary` shows: each member's choice.
    pub summary_html: String,
}

/// The results of the poll whose identifier the dialog holds; nothing when the
/// dialog holds no identifier or no session is joined.
pub fn render_results(sc: &Option<SessionContext>, active_input: &str) -> (r: Option<ResultsPanel>)
    ensures
        match r {
            None => uuid_parse(active_input@) is None || sc is None,
            Some(panel) => uuid_parse(active_input@) matches Some(active) && sc matches Some(c) && {
                let votes = spec_votes_by_poll(c@.votes, active);
                &&& panel.members.deep_view().to_multiset() == c@.members.to_multiset()
                &&& sorted_by_name(panel.members.deep_view())
                &&& panel.votes.deep_view() == votes
                &&& panel.tally.valid_votes.deep_view() == crate::client::results::spec_valid_votes(
                    panel.members.deep_view(),
                    votes,
                )
                &&& panel.tally.invalid_votes@ == crate::client::results::spec_invalid_votes(
                    panel.members.deep_view(),
                    votes,
                )
                &&& panel.summary_html@ == spec_vote_results(panel.members.deep_view(), votes)
            },
        },
{
    match get_active_poll_id(active_input) {
        Ok(active) => {
            match sc {
                Some(c) => {
                    let members = c.members_sorted();
                    let votes = c.votes_by_poll(active);
                    let tally = tally_votes(&members, &votes);
                    let summary_html = vote_results(&members, &votes);
                    Some(ResultsPanel { members, votes, tally, summary_html })
                },
                None => None,
            }
        },
        Err(_) => None,
    }
}

/// What the poll list is drawn from: the polls by number, and the status of the
/// poll whose identifier the dialog holds, when that poll is listed.
#[derive(Debug)]
pub struct PollsPanel {
    pub active_status: Option<PollStatus>,
    pub polls: Vec<Poll>,
    /// What `poll-listing` shows: the polls by number.
    pub listing_html: String,
}

/// The status of the poll that `active` names among `polls`, if it is listed.
pub open spec fn spec_active_status(polls: Seq<PollView>, active: Option<u128>) -> Option<PollStatus> {
    match active {
        Some(id) => {
            let i = first_match(polls, same_poll(id));
            if i >= 0 {
                Some(polls[i].status)
            } else {
                None
            }
        },
        None => None,
    }
}

/// The poll list of the session, and the status of the poll in the dialog.
pub fn render_polls(sc: &SessionContext, active_input: &str, link_class: &str) -> (r: PollsPanel)
    ensures
        r.listing_html@ == spec_polls(link_class@, r.polls.deep_view()),
        r.active_status == spec_active_status(sc@.polls, uuid_parse(active_input@)),
        r.polls.deep_view().to_multiset() == sc@.polls.to_multiset(),
        sorted_by_idx(r.polls.deep_view()),
{
    let active_status = match get_active_poll_id(active_input) {
        Ok(active) => match find_poll(sc.polls(), active) {
            Some(i) => Some(*sc.polls()[i].status()),
            None => None,
        },
        Err(_) => None,
    };
    let polls = sort_polls_by_idx(sc.polls());
    let listing_html = crate::client::templates::polls(link_class, &polls);
    PollsPanel { active_status, polls, listing_html }
}

/// The changes that show the user's own name, made when the user comes first
/// among the members listed.
pub open spec fn spec_own_profile_ops(members: Seq<MemberView>, me: u128) -> Seq<DomOpView> {
    if members.len() > 0 && members[0].user_id == me {
        seq![
            DomOpView::SetText { id: "profile-name-label"@, text: members[0].name },
            DomOpView::SetInputValue { id: "profile-detail-modal-input"@, value: members[0].name },
        ]
    } else {
        seq![]
    }
}

/// The changes to the user's own name that listing the members makes.
pub fn own_profile_ops(members: &Vec<Member>, me: u128) -> (r: Vec<DomOp>)
    ensures
        r.deep_view() == spec_own_profile_ops(members.deep_view(), me),
{
    let mut r: Vec<DomOp> = Vec::new();
    if members.len() > 0 && members[0].user_id() == me {
        r.push(DomOp::SetText { id: "profile-name-label".to_owned(), text: members[0].name().clone() });
        r.push(DomOp::SetInputValue { id: "profile-detail-modal-input".to_owned(), value: members[0].name().clone() });
    }
    proof {
        assert(r.deep_view() =~= spec_own_profile_ops(members.deep_view(), me));
    }
    r
}

/// What is reported when the server greets the connection.
pub open spec fn spec_connected_text(binary: bool) -> Seq<char> {
    "Connect message received, "@ + (if binary {
        "binary"@
    } else {
        "text"@
    }) + " connection"@
}

/// What is reported when the server greets the connection.
pub fn connected_text(binary: bool) -> (r: String)
    ensures
        r@ == spec_connected_text(binary),
{
    let mut r = "Connect message received, ".to_owned();
    if binary {
        r.append("binary");
    } else {
        r.append("text");
    }
    r.append(" connection");
    r
}

/// What the member list is drawn from: the members by name, the list itself,
/// and the changes to the user's own name that listing them makes.
#[derive(Debug)]
pub struct MembersPanel {
    pub members: Vec<Member>,
    /// What `member-listing` shows.
    pub listing_html: String,
    pub own_profile: Vec<DomOp>,
}

/// The member list of the session, for user `me`.
pub fn render_members(sc: &SessionContext, me: u128, link_class: &str) -> (r: MembersPanel)
    ensures
        r.members.deep_view().to_multiset() == sc@.members.to_multiset(),
        sorted_by_name(r.members.deep_view()),
        r.listing_html@ == spec_members(link_class@, r.members.deep_view(), sc@.connected),
        r.own_profile.deep_view() == spec_own_profile_ops(r.members.deep_view(), me),
{
    let members = sc.members_sorted();
    let listing_html = crate::client::templates::members(link_class, &members, sc.connected());
    let own_profile = own_profile_ops(&members, me);
    MembersPanel { members, listing_html, own_profile }
}

/// The changes a click makes to the page itself: the dialog it opens, filled
/// in; a click that only asks something of the server changes nothing here.
pub fn dom_for(event: &ClientEvent, sc: &Option<SessionContext>, profile_name: &str) -> (r: Vec<DomOp>)
    ensures
        match event@ {
            ClientEventView::MemberDetail { id } => r.deep_view() == spec_on_member_detail(opt_members(*sc), id),
            ClientEventView::PollDetail { id } => r.deep_view() == spec_on_poll_detail(opt_polls(*sc), id),
            ClientEventView::ProfileDetail => r.deep_view() == seq![
                DomOpView::SetInputValue { id: "profile-detail-modal-input"@, value: profile_name@ },
                DomOpView::ShowModal { id: "profile-detail-modal"@ },
            ],
            ClientEventView::SessionDetail => r.deep_view() == (match sc {
                Some(c) => seq![
                    DomOpView::SetInputValue { id: "session-detail-modal-input"@, value: c@.session.title },
                    DomOpView::ShowModal { id: "session-detail-modal"@ },
                ],
                None => seq![DomOpView::ShowModal { id: "session-detail-modal"@ }],
            }),
            _ => r.len() == 0,
        },
{
    match event {
        ClientEvent::MemberDetail { id } => on_member_detail(sc, *id),
        ClientEvent::PollDetail { id } => on_poll_detail(sc, *id),
        ClientEvent::ProfileDetail => on_profile_detail(profile_name),
        ClientEvent::SessionDetail => on_session_detail(sc),
        _ => Vec::new(),
    }
}

} // verus!
