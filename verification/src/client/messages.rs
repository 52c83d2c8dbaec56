//! What a message from the server changes in the client's picture of the
//! session, and what the client then redraws.
use crate::session_ctx::{law_collect_votes_last_wins, lemma_collect_votes_unique, same_ballot, spec_collect_votes};
use crate::client::session_ctx::{law_votes_by_poll_exact, law_votes_by_poll_distinct, users_distinct, vote_at, spec_votes_by_poll, spec_put_member, spec_put_members, spec_put_poll, spec_put_polls, ClientSessionView, SessionContext};
use crate::member::{Member, MemberView};
use crate::messages::{ResponseMessage, ResponseView};
use crate::poll::{Poll, PollView, VoteView};
use crate::session::{EstimateSession, EstimateSessionView};
use crate::profile::{UserProfile, UserProfileView};
use crate::handler::{spec_on_message, MessageHandlerView, SessionDataView, Target};
use crate::messages::RequestView;
use crate::store::{law_member_read_after_write, law_poll_read_after_write, law_vote_read_after_write, spec_upsert_vote};
use vstd::prelude::*;

verus! {

/// What the client does with a server message, once its immediate changes
/// are made.
#[derive(Debug)]
pub enum Reaction {
    /// Record the connection, the user and the user's profile, and report the connection.
    Connected { connection_id: u128, user_id: u128, profile: UserProfile, binary: bool },
    /// Report how long the ping took.
    Pong { v: i64 },
    /// Show a notification.
    Notify { level: String, content: String },
    /// Draw the members and polls of the session just joined; once they are
    /// drawn, `commit` makes it the client's picture.
    SessionJoined { session: SessionContext },
    /// Redraw the members.
    MembersChanged,
    /// Show the session's new title; once it is shown, `commit` puts the
    /// session in the client's picture.
    SessionRenamed { session: EstimateSession },
    /// Redraw the polls.
    PollsChanged,
    /// Redraw the votes and the results.
    VotesChanged,
    /// Nothing to do.
    Unhandled,
}

/// A reaction, as the contracts see it.
pub enum ReactionView {
    Connected { connection_id: u128, user_id: u128, profile: UserProfileView, binary: bool },
    Pong { v: i64 },
    Notify { level: Seq<char>, content: Seq<char> },
    SessionJoined { session: ClientSessionView },
    MembersChanged,
    SessionRenamed { session: EstimateSessionView },
    PollsChanged,
    VotesChanged,
    Unhandled,
}

impl View for Reaction {
    type V = ReactionView;

    open spec fn view(&self) -> ReactionView {
        match self {
            Reaction::Connected { connection_id, user_id, profile, binary } => ReactionView::Connected {
                connection_id: *connection_id,
                user_id: *user_id,
                profile: profile@,
                binary: *binary,
            },
            Reaction::Pong { v } => ReactionView::Pong { v: *v },
            Reaction::Notify { level, content } => ReactionView::Notify { level: level@, content: content@ },
            Reaction::SessionJoined { session } => ReactionView::SessionJoined { session: session@ },
            Reaction::MembersChanged => ReactionView::MembersChanged,
            Reaction::SessionRenamed { session } => ReactionView::SessionRenamed { session: session@ },
            Reaction::PollsChanged => ReactionView::PollsChanged,
            Reaction::VotesChanged => ReactionView::VotesChanged,
            Reaction::Unhandled => ReactionView::Unhandled,
        }
    }
}

/// The client's picture, if a session has been joined, as the contracts see it.
pub open spec fn opt_client_view(s: Option<SessionContext>) -> Option<ClientSessionView> {
    match s {
        Some(c) => Some(c@),
        None => None,
    }
}

/// The client's picture of a session it joins with the given contents.
pub open spec fn spec_joined(
    session: EstimateSessionView,
    members: Seq<MemberView>,
    connected: Seq<u128>,
    polls: Seq<PollView>,
    votes: Seq<VoteView>,
) -> ClientSessionView {
    ClientSessionView {
        session,
        members: spec_put_members(members),
        connected: connected.to_set(),
        polls: spec_put_polls(polls),
        votes: spec_collect_votes(votes),
    }
}

/// The client's picture after a server message has been handled and what it
/// asks drawn has been drawn: joining replaces it; member, session, poll and
/// vote updates change it when a session has been joined; any other message
/// leaves it as it is.
pub open spec fn spec_apply(state: Option<ClientSessionView>, msg: ResponseView) -> Option<ClientSessionView> {
    match msg {
        ResponseView::SessionJoined { session, members, connected, polls, votes } => Some(
            spec_joined(session, members, connected, polls, votes),
        ),
        ResponseView::SessionUpdate { session } => match state {
            Some(c) => Some(ClientSessionView { session, ..c }),
            None => None,
        },
        _ => spec_apply_now(state, msg),
    }
}

/// The changes a server message makes at once, before anything is drawn:
/// member, poll and vote updates change the picture when a session has been
/// joined; joining and renaming wait for their drawing.
pub open spec fn spec_apply_now(state: Option<ClientSessionView>, msg: ResponseView) -> Option<ClientSessionView> {
    match msg {
        ResponseView::MemberUpdate { member } => match state {
            Some(c) => Some(ClientSessionView { members: spec_put_member(c.members, member), ..c }),
            None => None,
        },
        ResponseView::PollUpdate { poll } => match state {
            Some(c) => Some(ClientSessionView { polls: spec_put_poll(c.polls, poll), ..c }),
            None => None,
        },
        ResponseView::VoteUpdate { vote } => match state {
            Some(c) => Some(
                ClientSessionView {
                    votes: spec_upsert_vote(
                        c.votes,
                        VoteView { poll_id: vote.poll_id, user_id: vote.user_id, choice: vote.choice },
                    ).0,
                    ..c
                },
            ),
            None => None,
        },
        _ => state,
    }
}

/// What the client does after a server message.
pub open spec fn spec_reaction(msg: ResponseView) -> ReactionView {
    match msg {
        ResponseView::Connected { connection_id, user_id, u, b } => ReactionView::Connected {
            connection_id,
            user_id,
            profile: u,
            binary: b,
        },
        ResponseView::Pong { v } => ReactionView::Pong { v },
        ResponseView::Notification { level, content } => ReactionView::Notify { level, content },
        ResponseView::SessionJoined { session, members, connected, polls, votes } => ReactionView::SessionJoined {
            session: spec_joined(session, members, connected, polls, votes),
        },
        ResponseView::MemberUpdate { .. } => ReactionView::MembersChanged,
        ResponseView::SessionUpdate { session } => ReactionView::SessionRenamed { session },
        ResponseView::PollUpdate { .. } => ReactionView::PollsChanged,
        ResponseView::VoteUpdate { .. } => ReactionView::VotesChanged,
        _ => ReactionView::Unhandled,
    }
}

/// The client's picture once what a reaction asked drawn has been drawn.
pub open spec fn spec_commit(state: Option<ClientSessionView>, r: ReactionView) -> Option<ClientSessionView> {
    match r {
        ReactionView::SessionJoined { session } => Some(session),
        ReactionView::SessionRenamed { session } => match state {
            Some(c) => Some(ClientSessionView { session, ..c }),
            None => None,
        },
        _ => state,
    }
}

/// Handles the server's messages on the client.
#[derive(Debug)]
pub struct MessageHandler {}

impl MessageHandler {
    /// Makes the changes a server message makes at once, and says what to do
    /// next. A session joined or renamed is handed back in the reaction, to be
    /// committed with `commit` once drawn; if drawing fails, the picture stays.
    pub fn handle(state: &mut Option<SessionContext>, msg: ResponseMessage) -> (r: Reaction)
        ensures
            opt_client_view(*final(state)) == spec_apply_now(opt_client_view(*old(state)), msg@),
            r@ == spec_reaction(msg@),
    {
        match msg {
            ResponseMessage::Connected { connection_id, user_id, u, b } => Reaction::Connected {
                connection_id,
                user_id,
                profile: *u,
                binary: b,
            },
            ResponseMessage::Pong { v } => Reaction::Pong { v },
            ResponseMessage::Notification { level, content } => Reaction::Notify { level, content },
            ResponseMessage::SessionJoined { session, members, connected, polls, votes } => {
                let c = SessionContext::new(
                    *session,
                    members.as_slice(),
                    connected.as_slice(),
                    polls.as_slice(),
                    votes.as_slice(),
                );
                proof {
                    assert(members@.map_values(|m: Member| m@) =~= members.deep_view());
                    assert(polls@.map_values(|p: Poll| p@) =~= polls.deep_view());
                }
                Reaction::SessionJoined { session: c }
            },
            ResponseMessage::MemberUpdate { member } => {
                match state {
                    Some(c) => c.set_member(member),
                    None => {},
                }
                Reaction::MembersChanged
            },
            ResponseMessage::SessionUpdate { session } => Reaction::SessionRenamed { session },
            ResponseMessage::PollUpdate { poll } => {
                match state {
                    Some(c) => c.set_poll(poll),
                    None => {},
                }
                Reaction::PollsChanged
            },
            ResponseMessage::VoteUpdate { vote } => {
                match state {
                    Some(c) => c.set_vote(vote.poll_id(), vote.user_id(), vote.choice().clone()),
                    None => {},
                }
                Reaction::VotesChanged
            },
            _ => Reaction::Unhandled,
        }
    }

    /// After a reaction's drawing succeeded: a joined session becomes the
    /// client's picture, and a renamed session replaces the joined one's.
    pub fn commit(state: &mut Option<SessionContext>, r: Reaction)
        ensures
            opt_client_view(*final(state)) == spec_commit(opt_client_view(*old(state)), r@),
    {
        match r {
            Reaction::SessionJoined { session } => {
                *state = Some(session);
            },
            Reaction::SessionRenamed { session } => {
                match state {
                    Some(c) => c.set_session(session),
                    None => {},
                }
            },
            _ => {},
        }
    }
}

/// Handling a server message and then committing its reaction gives the
/// picture that the message calls for.
pub proof fn law_handle_then_commit(state: Option<ClientSessionView>, msg: ResponseView)
    ensures
        spec_commit(spec_apply_now(state, msg), spec_reaction(msg)) == spec_apply(state, msg),
{
}

/// A client whose picture agrees with what the server stores still agrees after
/// the server handles a request and the client applies what the server sends
/// to everyone: the session, members, polls and votes stay the same on both sides.
pub proof fn law_client_follows_server(h: MessageHandlerView, d: SessionDataView, c: ClientSessionView, m: RequestView)
    requires
        d.session == Some(c.session),
        d.members == c.members,
        d.polls == c.polls,
        d.votes == c.votes,
    ensures
        ({
            let (d2, e, err) = spec_on_message(h, d, m);
            forall|i: int|
                0 <= i < e.len() && #[trigger] e[i] is Send && e[i]->target == Target::Channel
                    ==> spec_apply(Some(c), e[i]->msg) == Some(
                    ClientSessionView {
                        session: d2.session.unwrap(),
                        members: d2.members,
                        connected: c.connected,
                        polls: d2.polls,
                        votes: d2.votes,
                    },
                )
        }),
{
    match m {
        RequestView::SetPollTitle { id, title } => {
            law_poll_read_after_write(d.polls, id, Some(title), None, h.user_id);
        },
        RequestView::SetPollStatus { poll, status } => {
            law_poll_read_after_write(d.polls, poll, None, Some(status), h.user_id);
        },
        RequestView::SubmitVote { poll, vote } => {
            law_vote_read_after_write(d.votes, VoteView { poll_id: poll, user_id: h.user_id, choice: vote });
        },
        RequestView::UpdateSelf { name } => {
            law_member_read_after_write(d.members, h.user_id, name, None);
        },
        _ => {},
    }
}

/// Joining a session: once what the join asks drawn is drawn and committed,
/// the client's picture is the joined session, and each vote the message
/// carries that no later vote of the same user in the same poll replaces is
/// found among that poll's votes, with its choice; no poll's votes name a
/// user twice.
pub proof fn law_join_keeps_the_votes(
    state: Option<ClientSessionView>,
    session: EstimateSessionView,
    members: Seq<MemberView>,
    connected: Seq<u128>,
    polls: Seq<PollView>,
    votes: Seq<VoteView>,
    i: int,
    q: u128,
)
    requires
        0 <= i < votes.len(),
        forall|j: int| i < j < votes.len() ==> !same_ballot(#[trigger] votes[j], votes[i]),
    ensures
        ({
            let msg = ResponseView::SessionJoined { session, members, connected, polls, votes };
            let pic = spec_commit(spec_apply_now(state, msg), spec_reaction(msg));
            &&& pic is Some
            &&& pic.unwrap().session == session
            &&& spec_votes_by_poll(pic.unwrap().votes, votes[i].poll_id).contains(
                (votes[i].user_id, votes[i].choice),
            )
            &&& users_distinct(spec_votes_by_poll(pic.unwrap().votes, q))
        }),
{
    let msg = ResponseView::SessionJoined { session, members, connected, polls, votes };
    let pic = spec_commit(spec_apply_now(state, msg), spec_reaction(msg)).unwrap();
    law_collect_votes_last_wins(votes, i);
    let t = spec_collect_votes(votes);
    assert(pic.votes == t);
    let k = choose|k: int| 0 <= k < t.len() && #[trigger] t[k] == votes[i];
    assert(vote_at(t, k, votes[i].poll_id, votes[i].user_id, votes[i].choice));
    law_votes_by_poll_exact(t, votes[i].poll_id, votes[i].user_id, votes[i].choice);
    lemma_collect_votes_unique(votes);
    law_votes_by_poll_distinct(t, q);
}

} // verus!
