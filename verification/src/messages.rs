//! The messages that clients send to the server, and the server to clients.
use crate::member::{Member, MemberView};
use crate::poll::{Poll, PollStatus, PollView, Vote, VoteView};
use crate::profile::{UserProfile, UserProfileView};
use crate::session::{EstimateSession, EstimateSessionView};
use vstd::prelude::*;

verus! {

/// Sent from a client to the server.
#[derive(Debug, Clone)]
pub enum RequestMessage {
    Ping { v: i64 },
    SetPollTitle { id: u128, title: String },
    SetPollStatus { poll: u128, status: PollStatus },
    SubmitVote { poll: u128, vote: String },
    UpdateSelf { name: String },
    UpdateSession { name: String, choices: Vec<String> },
}

/// A request, as the contracts see it.
pub enum RequestView {
    Ping { v: i64 },
    SetPollTitle { id: u128, title: Seq<char> },
    SetPollStatus { poll: u128, status: PollStatus },
    SubmitVote { poll: u128, vote: Seq<char> },
    UpdateSelf { name: Seq<char> },
    UpdateSession { name: Seq<char>, choices: Seq<Seq<char>> },
}

impl View for RequestMessage {
    type V = RequestView;

    open spec fn view(&self) -> RequestView {
        match self {
            RequestMessage::Ping { v } => RequestView::Ping { v: *v },
            RequestMessage::SetPollTitle { id, title } => RequestView::SetPollTitle { id: *id, title: title@ },
            RequestMessage::SetPollStatus { poll, status } => RequestView::SetPollStatus {
                poll: *poll,
                status: *status,
            },
            RequestMessage::SubmitVote { poll, vote } => RequestView::SubmitVote { poll: *poll, vote: vote@ },
            RequestMessage::UpdateSelf { name } => RequestView::UpdateSelf { name: name@ },
            RequestMessage::UpdateSession { name, choices } => RequestView::UpdateSession {
                name: name@,
                choices: choices.deep_view(),
            },
        }
    }
}

/// Sent from the server to a client.
#[derive(Debug, Clone)]
#[allow(inconsistent_fields)]
pub enum ResponseMessage {
    Connected { connection_id: u128, user_id: u128, u: Box<UserProfile>, b: bool },
    ServerError { reason: String, content: String },
    Pong { v: i64 },
    Notification { level: String, content: String },
    SessionNotFound { id: u128 },
    SessionJoined {
        session: Box<EstimateSession>,
        members: Vec<Member>,
        connected: Vec<u128>,
        polls: Vec<Poll>,
        votes: Vec<Vote>,
    },
    SessionUpdate { session: EstimateSession },
    MemberStatusUpdate { user_id: u128, connected: bool },
    MemberUpdate { member: Member },
    PollUpdate { poll: Poll },
    VoteUpdate { vote: Vote },
}

/// A response, as the contracts see it.
#[allow(inconsistent_fields)]
pub enum ResponseView {
    Connected { connection_id: u128, user_id: u128, u: UserProfileView, b: bool },
    ServerError { reason: Seq<char>, content: Seq<char> },
    Pong { v: i64 },
    Notification { level: Seq<char>, content: Seq<char> },
    SessionNotFound { id: u128 },
    SessionJoined {
        session: EstimateSessionView,
        members: Seq<MemberView>,
        connected: Seq<u128>,
        polls: Seq<PollView>,
        votes: Seq<VoteView>,
    },
    SessionUpdate { session: EstimateSessionView },
    MemberStatusUpdate { user_id: u128, connected: bool },
    MemberUpdate { member: MemberView },
    PollUpdate { poll: PollView },
    VoteUpdate { vote: VoteView },
}

impl View for ResponseMessage {
    type V = ResponseView;

    open spec fn view(&self) -> ResponseView {
        match self {
            ResponseMessage::Connected { connection_id, user_id, u, b } => ResponseView::Connected {
                connection_id: *connection_id,
                user_id: *user_id,
                u: u@,
                b: *b,
            },
            ResponseMessage::ServerError { reason, content } => ResponseView::ServerError {
                reason: reason@,
                content: content@,
            },
            ResponseMessage::Pong { v } => ResponseView::Pong { v: *v },
            ResponseMessage::Notification { level, content } => ResponseView::Notification {
                level: level@,
                content: content@,
            },
            ResponseMessage::SessionNotFound { id } => ResponseView::SessionNotFound { id: *id },
            ResponseMessage::SessionJoined { session, members, connected, polls, votes } =>
                ResponseView::SessionJoined {
                session: session@,
                members: members.deep_view(),
                connected: connected@,
                polls: polls.deep_view(),
                votes: votes.deep_view(),
            },
            ResponseMessage::SessionUpdate { session } => ResponseView::SessionUpdate { session: session@ },
            ResponseMessage::MemberStatusUpdate { user_id, connected } => ResponseView::MemberStatusUpdate {
                user_id: *user_id,
                connected: *connected,
            },
            ResponseMessage::MemberUpdate { member } => ResponseView::MemberUpdate { member: member@ },
            ResponseMessage::PollUpdate { poll } => ResponseView::PollUpdate { poll: poll@ },
            ResponseMessage::VoteUpdate { vote } => ResponseView::VoteUpdate { vote: vote@ },
        }
    }
}

} // verus!
