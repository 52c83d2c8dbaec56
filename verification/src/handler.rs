//! What the server does with a connection to a session: the messages it sends,
//! and the session data it changes and saves, for each message it receives.
use crate::member::{clone_members, Member, MemberRole, MemberView};
use crate::messages::{RequestMessage, RequestView, ResponseMessage, ResponseView};
use crate::poll::{clone_polls, clone_votes, Poll, PollView, Vote, VoteView};
use crate::profile::{UserProfile, UserProfileView};
use crate::session::{EstimateSession, EstimateSessionView};
use crate::store::{
    law_member_read_after_write, law_vote_read_after_write, member_slot, spec_upsert_member, spec_upsert_poll,
    spec_upsert_vote, upsert_member, upsert_poll, upsert_vote, vote_slot,
};
use vstd::prelude::*;

verus! {

/// Who receives a message, seen from the connection that handles it.
#[derive(Debug, PartialEq, Eq, Structural, Clone, Copy)]
pub enum Target {
    /// The handling connection only.
    Connection,
    /// Every connection to the session.
    Channel,
    /// Every connection to the session but the handling one.
    ChannelExceptConnection,
}

/// One thing the server does while handling a message, in order.
#[derive(Debug)]
pub enum Effect {
    Send { target: Target, msg: ResponseMessage },
    /// Store the name in the user's profile.
    SaveProfileName { name: String },
    SaveMembers,
    SavePolls,
    SaveVotes,
    SaveSession,
}

/// An effect, as the contracts see it.
pub enum EffectView {
    Send { target: Target, msg: ResponseView },
    SaveProfileName { name: Seq<char> },
    SaveMembers,
    SavePolls,
    SaveVotes,
    SaveSession,
}

impl View for Effect {
    type V = EffectView;

    open spec fn view(&self) -> EffectView {
        match self {
            Effect::Send { target, msg } => EffectView::Send { target: *target, msg: msg@ },
            Effect::SaveProfileName { name } => EffectView::SaveProfileName { name: name@ },
            Effect::SaveMembers => EffectView::SaveMembers,
            Effect::SavePolls => EffectView::SavePolls,
            Effect::SaveVotes => EffectView::SaveVotes,
            Effect::SaveSession => EffectView::SaveSession,
        }
    }
}

impl DeepView for Effect {
    type V = EffectView;

    open spec fn deep_view(&self) -> EffectView {
        self@
    }
}

/// What is stored for one session: the session itself (if it exists), its
/// members, its polls and its votes.
#[derive(Debug)]
pub struct SessionData {
    pub session: Option<EstimateSession>,
    pub members: Vec<Member>,
    pub polls: Vec<Poll>,
    pub votes: Vec<Vote>,
}

/// Session data, as the contracts see it.
pub struct SessionDataView {
    pub session: Option<EstimateSessionView>,
    pub members: Seq<MemberView>,
    pub polls: Seq<PollView>,
    pub votes: Seq<VoteView>,
}

/// An optional session, as the contracts see it.
pub open spec fn opt_session_view(s: Option<EstimateSession>) -> Option<EstimateSessionView> {
    match s {
        Some(x) => Some(x@),
        None => None,
    }
}

impl View for SessionData {
    type V = SessionDataView;

    open spec fn view(&self) -> SessionDataView {
        SessionDataView {
            session: opt_session_view(self.session),
            members: self.members.deep_view(),
            polls: self.polls.deep_view(),
            votes: self.votes.deep_view(),
        }
    }
}

/// A message that could not be handled.
#[derive(Debug)]
pub enum HandlerError {
    /// No session is stored under the key.
    SessionNotFound { key: String },
}

/// What handling a message did: its effects, in order, and whether it ended in
/// an error (after those effects).
#[derive(Debug)]
pub struct Outcome {
    pub effects: Vec<Effect>,
    pub result: Result<(), HandlerError>,
}

/// An outcome, as the contracts see it: the effects, and the key of the missing
/// session when handling failed.
pub open spec fn outcome_view(o: Outcome) -> (Seq<EffectView>, Option<Seq<char>>) {
    (
        o.effects.deep_view(),
        match o.result {
            Ok(_) => None,
            Err(HandlerError::SessionNotFound { key }) => Some(key@),
        },
    )
}

/// A handler, as the contracts see it.
pub struct MessageHandlerView {
    pub connection_id: u128,
    pub channel_id: Seq<char>,
    pub user_id: u128,
    pub profile: UserProfileView,
    pub verbose: bool,
}

/// Handles one connection of one user to one session (the channel).
#[derive(Debug)]
pub struct MessageHandler {
    connection_id: u128,
    channel_id: String,
    user_id: u128,
    profile: UserProfile,
    verbose: bool,
}

impl View for MessageHandler {
    type V = MessageHandlerView;

    closed spec fn view(&self) -> MessageHandlerView {
        MessageHandlerView {
            connection_id: self.connection_id,
            channel_id: self.channel_id@,
            user_id: self.user_id,
            profile: self.profile@,
            verbose: self.verbose,
        }
    }
}

/// The role of a user who opens a session: the first member creates it.
pub open spec fn spec_opening_role(members: Seq<MemberView>) -> MemberRole {
    if members.len() == 0 {
        MemberRole::Creator
    } else {
        MemberRole::Participant
    }
}

/// What opening a connection does: greet the connection; record the user as a
/// member under the profile's name, with the opening role; tell the others; and
/// send the whole session to the connection, or fail if there is no session.
pub open spec fn spec_on_open(h: MessageHandlerView, d: SessionDataView) -> (
    SessionDataView,
    Seq<EffectView>,
    Option<Seq<char>>,
) {
    let (ms, m) = spec_upsert_member(d.members, h.user_id, h.profile.name, Some(spec_opening_role(d.members)));
    let d2 = SessionDataView { members: ms, ..d };
    let first = seq![
        EffectView::Send {
            target: Target::Connection,
            msg: ResponseView::Connected {
                connection_id: h.connection_id,
                user_id: h.user_id,
                u: h.profile,
                b: !h.verbose,
            },
        },
        EffectView::SaveProfileName { name: h.profile.name },
        EffectView::SaveMembers,
        EffectView::Send { target: Target::ChannelExceptConnection, msg: ResponseView::MemberUpdate { member: m } },
    ];
    match d.session {
        None => (d2, first, Some(h.channel_id)),
        Some(s) => (
            d2,
            first.push(
                EffectView::Send {
                    target: Target::Connection,
                    msg: ResponseView::SessionJoined {
                        session: s,
                        members: ms,
                        connected: seq![],
                        polls: d.polls,
                        votes: d.votes,
                    },
                },
            ),
            None,
        ),
    }
}

/// What a request does. A ping is answered to the connection alone. A new poll
/// title or status is stored (as the user's poll, if the poll is new) and the
/// poll sent to everyone; so is a vote, cast as the user. A new name is stored
/// in the profile and the membership, and the member sent to everyone. A new
/// session title and choice list are stored and the session sent to everyone,
/// or the request fails if there is no session.
pub open spec fn spec_on_message(h: MessageHandlerView, d: SessionDataView, m: RequestView) -> (
    SessionDataView,
    Seq<EffectView>,
    Option<Seq<char>>,
) {
    match m {
        RequestView::Ping { v } => (
            d,
            seq![EffectView::Send { target: Target::Connection, msg: ResponseView::Pong { v } }],
            None,
        ),
        RequestView::SetPollTitle { id, title } => {
            let (ps, p) = spec_upsert_poll(d.polls, id, Some(title), None, h.user_id);
            (
                SessionDataView { polls: ps, ..d },
                seq![
                    EffectView::SavePolls,
                    EffectView::Send { target: Target::Channel, msg: ResponseView::PollUpdate { poll: p } },
                ],
                None,
            )
        },
        RequestView::SetPollStatus { poll, status } => {
            let (ps, p) = spec_upsert_poll(d.polls, poll, None, Some(status), h.user_id);
            (
                SessionDataView { polls: ps, ..d },
                seq![
                    EffectView::SavePolls,
                    EffectView::Send { target: Target::Channel, msg: ResponseView::PollUpdate { poll: p } },
                ],
                None,
            )
        },
        RequestView::SubmitVote { poll, vote } => {
            let (vs, v) = spec_upsert_vote(
                d.votes,
                VoteView { poll_id: poll, user_id: h.user_id, choice: vote },
            );
            (
                SessionDataView { votes: vs, ..d },
                seq![
                    EffectView::SaveVotes,
                    EffectView::Send { target: Target::Channel, msg: ResponseView::VoteUpdate { vote: v } },
                ],
                None,
            )
        },
        RequestView::UpdateSelf { name } => {
            let (ms, mm) = spec_upsert_member(d.members, h.user_id, name, None);
            (
                SessionDataView { members: ms, ..d },
                seq![
                    EffectView::SaveProfileName { name },
                    EffectView::SaveMembers,
                    EffectView::Send { target: Target::Channel, msg: ResponseView::MemberUpdate { member: mm } },
                ],
                None,
            )
        },
        RequestView::UpdateSession { name, choices } => match d.session {
            None => (d, seq![], Some(h.channel_id)),
            Some(s) => {
                let s2 = EstimateSessionView { title: name, choices, ..s };
                (
                    SessionDataView { session: Some(s2), ..d },
                    seq![
                        EffectView::SaveSession,
                        EffectView::Send { target: Target::Channel, msg: ResponseView::SessionUpdate { session: s2 } },
                    ],
                    None,
                )
            },
        },
    }
}

impl MessageHandler {
    pub fn new(connection_id: u128, channel_id: String, user_id: u128, profile: UserProfile, verbose: bool) -> (h:
        MessageHandler)
        ensures
            h@ == (MessageHandlerView {
                connection_id,
                channel_id: channel_id@,
                user_id,
                profile: profile@,
                verbose,
            }),
    {
        MessageHandler { connection_id, channel_id, user_id, profile, verbose }
    }

    pub fn connection_id(&self) -> (r: u128)
        ensures
            r == self@.connection_id,
    {
        self.connection_id
    }

    pub fn channel_id(&self) -> (r: &String)
        ensures
            r@ == self@.channel_id,
    {
        &self.channel_id
    }

    pub fn user_id(&self) -> (r: u128)
        ensures
            r == self@.user_id,
    {
        self.user_id
    }

    pub fn user_profile(&self) -> (r: &UserProfile)
        ensures
            r@ == self@.profile,
    {
        &self.profile
    }

    pub fn verbose(&self) -> (r: bool)
        ensures
            r == self@.verbose,
    {
        self.verbose
    }

    fn missing_session(&self) -> (r: Result<(), HandlerError>)
        ensures
            r matches Err(HandlerError::SessionNotFound { key }) && key@ == self@.channel_id,
    {
        Err(HandlerError::SessionNotFound { key: self.channel_id.clone() })
    }

    /// A connection opens: see `spec_on_open`.
    pub fn on_open(&self, data: &mut SessionData) -> (o: Outcome)
        ensures
            ({
                let (d, e, err) = spec_on_open(self@, old(data)@);
                &&& final(data)@ == d
                &&& outcome_view(o) == (e, err)
            }),
    {
        let ghost d0 = data@;
        let mut effects: Vec<Effect> = Vec::new();
        effects.push(
            Effect::Send {
                target: Target::Connection,
                msg: ResponseMessage::Connected {
                    connection_id: self.connection_id,
                    user_id: self.user_id,
                    u: Box::new(self.profile.clone()),
                    b: !self.verbose,
                },
            },
        );
        let role = if data.members.len() == 0 {
            MemberRole::Creator
        } else {
            MemberRole::Participant
        };
        let name = self.profile.name().clone();
        let member = upsert_member(&mut data.members, self.user_id, name.clone(), Some(role));
        effects.push(Effect::SaveProfileName { name });
        effects.push(Effect::SaveMembers);
        effects.push(
            Effect::Send { target: Target::ChannelExceptConnection, msg: ResponseMessage::MemberUpdate { member } },
        );
        let ghost first = effects.deep_view();
        match &data.session {
            None => {
                let result = self.missing_session();
                let o = Outcome { effects, result };
                proof {
                    let (d, e, err) = spec_on_open(self@, d0);
                    assert(first =~= e);
                    assert(data@ == d);
                }
                o
            },
            Some(s) => {
                let joined = ResponseMessage::SessionJoined {
                    session: Box::new(s.clone()),
                    members: clone_members(&data.members),
                    connected: Vec::new(),
                    polls: clone_polls(&data.polls),
                    votes: clone_votes(&data.votes),
                };
                effects.push(Effect::Send { target: Target::Connection, msg: joined });
                let o = Outcome { effects, result: Ok(()) };
                proof {
                    let (d, e, err) = spec_on_open(self@, d0);
                    assert(o.effects.deep_view() =~= e);
                    assert(data@ == d);
                }
                o
            },
        }
    }

    /// A request arrives: see `spec_on_message`.
    pub fn on_message(&self, data: &mut SessionData, msg: RequestMessage) -> (o: Outcome)
        ensures
            ({
                let (d, e, err) = spec_on_message(self@, old(data)@, msg@);
                &&& final(data)@ == d
                &&& outcome_view(o) == (e, err)
            }),
    {
        let ghost d0 = data@;
        let ghost m0 = msg@;
        let mut effects: Vec<Effect> = Vec::new();
        match msg {
            RequestMessage::Ping { v } => {
                effects.push(Effect::Send { target: Target::Connection, msg: ResponseMessage::Pong { v } });
                proof {
                    assert(effects.deep_view() =~= spec_on_message(self@, d0, m0).1);
                }
                Outcome { effects, result: Ok(()) }
            },
            RequestMessage::SetPollTitle { id, title } => {
                let poll = upsert_poll(&mut data.polls, id, Some(title), None, self.user_id);
                effects.push(Effect::SavePolls);
                effects.push(Effect::Send { target: Target::Channel, msg: ResponseMessage::PollUpdate { poll } });
                proof {
                    assert(effects.deep_view() =~= spec_on_message(self@, d0, m0).1);
                    assert(data@ == spec_on_message(self@, d0, m0).0);
                }
                Outcome { effects, result: Ok(()) }
            },
            RequestMessage::SetPollStatus { poll, status } => {
                let poll = upsert_poll(&mut data.polls, poll, None, Some(status), self.user_id);
                effects.push(Effect::SavePolls);
                effects.push(Effect::Send { target: Target::Channel, msg: ResponseMessage::PollUpdate { poll } });
                proof {
                    assert(effects.deep_view() =~= spec_on_message(self@, d0, m0).1);
                    assert(data@ == spec_on_message(self@, d0, m0).0);
                }
                Outcome { effects, result: Ok(()) }
            },
            RequestMessage::SubmitVote { poll, vote } => {
                let vote = upsert_vote(&mut data.votes, Vote::new(poll, self.user_id, vote));
                effects.push(Effect::SaveVotes);
                effects.push(Effect::Send { target: Target::Channel, msg: ResponseMessage::VoteUpdate { vote } });
                proof {
                    assert(effects.deep_view() =~= spec_on_message(self@, d0, m0).1);
                    assert(data@ == spec_on_message(self@, d0, m0).0);
                }
                Outcome { effects, result: Ok(()) }
            },
            RequestMessage::UpdateSelf { name } => {
                let member = upsert_member(&mut data.members, self.user_id, name.clone(), None);
                effects.push(Effect::SaveProfileName { name });
                effects.push(Effect::SaveMembers);
                effects.push(Effect::Send { target: Target::Channel, msg: ResponseMessage::MemberUpdate { member } });
                proof {
                    assert(effects.deep_view() =~= spec_on_message(self@, d0, m0).1);
                    assert(data@ == spec_on_message(self@, d0, m0).0);
                }
                Outcome { effects, result: Ok(()) }
            },
            RequestMessage::UpdateSession { name, choices } => {
                let current = data.session.take();
                match current {
                    None => {
                        let result = self.missing_session();
                        proof {
                            assert(effects.deep_view() =~= spec_on_message(self@, d0, m0).1);
                            assert(data@ == spec_on_message(self@, d0, m0).0);
                        }
                        Outcome { effects, result }
                    },
                    Some(mut s) => {
                        s.set_title(name);
                        s.set_choices(choices);
                        let sent = s.clone();
                        data.session = Some(s);
                        effects.push(Effect::SaveSession);
                        effects.push(
                            Effect::Send { target: Target::Channel, msg: ResponseMessage::SessionUpdate { session: sent } },
                        );
                        proof {
                            assert(effects.deep_view() =~= spec_on_message(self@, d0, m0).1);
                            assert(data@ == spec_on_message(self@, d0, m0).0);
                        }
                        Outcome { effects, result: Ok(()) }
                    },
                }
            },
        }
    }
}

/// The first user to open a session becomes its creator; a user opening a
/// session that already has members takes part as a participant. Either way the
/// user is stored under the profile's name, and the others are told so.
pub proof fn law_opening_role(h: MessageHandlerView, d: SessionDataView)
    ensures
        ({
            let (d2, e, err) = spec_on_open(h, d);
            let k = member_slot(d.members, h.user_id);
            &&& d2.members[k].user_id == h.user_id
            &&& d2.members[k].name == h.profile.name
            &&& d2.members[k].role == (if d.members.len() == 0 {
                MemberRole::Creator
            } else {
                MemberRole::Participant
            })
            &&& e[3] == (EffectView::Send {
                target: Target::ChannelExceptConnection,
                msg: ResponseView::MemberUpdate { member: d2.members[k] },
            })
        }),
{
    law_member_read_after_write(d.members, h.user_id, h.profile.name, Some(spec_opening_role(d.members)));
}

/// A vote a user submits is stored as that user's vote in that poll with the
/// submitted choice, and that stored vote is what every connection is told.
pub proof fn law_submitted_vote_is_stored(h: MessageHandlerView, d: SessionDataView, poll: u128, vote: Seq<char>)
    ensures
        ({
            let (d2, e, err) = spec_on_message(h, d, RequestView::SubmitVote { poll, vote });
            let v = VoteView { poll_id: poll, user_id: h.user_id, choice: vote };
            let k = vote_slot(d.votes, v);
            &&& d2.votes[k] == v
            &&& e == seq![
                EffectView::SaveVotes,
                EffectView::Send { target: Target::Channel, msg: ResponseView::VoteUpdate { vote: v } },
            ]
            &&& err is None
        }),
{
    law_vote_read_after_write(d.votes, VoteView { poll_id: poll, user_id: h.user_id, choice: vote });
}

/// Opening a connection to a stored session sends the newcomer, on its own
/// connection, the session with every stored poll and vote and with the members
/// as they stand once the newcomer is recorded (under the name of the profile);
/// the stored session, polls and votes are left as they were.
pub proof fn law_open_sends_whole_session(h: MessageHandlerView, d: SessionDataView)
    requires
        d.session is Some,
    ensures
        ({
            let (d2, e, err) = spec_on_open(h, d);
            &&& err is None
            &&& d2.session == d.session
            &&& d2.polls == d.polls
            &&& d2.votes == d.votes
            &&& exists|k: int|
                0 <= k < d2.members.len() && #[trigger] d2.members[k].user_id == h.user_id && d2.members[k].name
                    == h.profile.name
            &&& exists|i: int|
                0 <= i < e.len() && #[trigger] e[i] == (EffectView::Send {
                    target: Target::Connection,
                    msg: ResponseView::SessionJoined {
                        session: d.session.unwrap(),
                        members: d2.members,
                        connected: seq![],
                        votes: d.votes,
                        polls: d.polls,
                    },
                })
        }),
{
    let (d2, e, err) = spec_on_open(h, d);
    law_member_read_after_write(d.members, h.user_id, h.profile.name, Some(spec_opening_role(d.members)));
    let k = member_slot(d.members, h.user_id);
    assert(d2.members[k].user_id == h.user_id);
    assert(e[4] == (EffectView::Send {
        target: Target::Connection,
        msg: ResponseView::SessionJoined {
            session: d.session.unwrap(),
            members: d2.members,
            connected: seq![],
            votes: d.votes,
            polls: d.polls,
        },
    }));
}

} // verus!
