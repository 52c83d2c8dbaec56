//! What a click in the client asks for.
use crate::ids::{new_random_id, parse_uuid, uuid_parse};
use crate::messages::{RequestMessage, RequestView};
use crate::poll::{parse_status, InvalidPollStatus, PollStatus};
use crate::text::text_eq;
use crate::client::session_ctx::SessionContext;
use crate::session::clone_texts;
use vstd::prelude::*;

verus! {

/// An event raised by a click, with what it carries.
#[derive(Debug)]
pub enum ClientEvent {
    UpdateProfile { name: String },
    UpdateSession { name: String },
    MemberDetail { id: u128 },
    PollDetail { id: u128 },
    ProfileDetail,
    SelectChoice { choice: String },
    SendPing,
    SessionDetail,
    SetPollStatus { status: PollStatus },
    SubmitPoll { title: String },
    Unhandled,
}

/// An event, as the contracts see it.
pub enum ClientEventView {
    UpdateProfile { name: Seq<char> },
    UpdateSession { name: Seq<char> },
    MemberDetail { id: u128 },
    PollDetail { id: u128 },
    ProfileDetail,
    SelectChoice { choice: Seq<char> },
    SendPing,
    SessionDetail,
    SetPollStatus { status: PollStatus },
    SubmitPoll { title: Seq<char> },
    Unhandled,
}

impl View for ClientEvent {
    type V = ClientEventView;

    open spec fn view(&self) -> ClientEventView {
        match self {
            ClientEvent::UpdateProfile { name } => ClientEventView::UpdateProfile { name: name@ },
            ClientEvent::UpdateSession { name } => ClientEventView::UpdateSession { name: name@ },
            ClientEvent::MemberDetail { id } => ClientEventView::MemberDetail { id: *id },
            ClientEvent::PollDetail { id } => ClientEventView::PollDetail { id: *id },
            ClientEvent::ProfileDetail => ClientEventView::ProfileDetail,
            ClientEvent::SelectChoice { choice } => ClientEventView::SelectChoice { choice: choice@ },
            ClientEvent::SendPing => ClientEventView::SendPing,
            ClientEvent::SessionDetail => ClientEventView::SessionDetail,
            ClientEvent::SetPollStatus { status } => ClientEventView::SetPollStatus { status: *status },
            ClientEvent::SubmitPoll { title } => ClientEventView::SubmitPoll { title: title@ },
            ClientEvent::Unhandled => ClientEventView::Unhandled,
        }
    }
}

/// The events whose key must be a UUID.
pub open spec fn is_detail_event(t: Seq<char>) -> bool {
    t == "member-detail"@ || t == "poll-detail"@
}

/// The event named `t` with key `k` and value `v`; a status change whose key
/// names no status is refused, with the key.
pub open spec fn spec_event(t: Seq<char>, k: Seq<char>, v: Seq<char>) -> Result<ClientEventView, Seq<char>> {
    if t == "update-profile"@ {
        Ok(ClientEventView::UpdateProfile { name: v })
    } else if t == "update-session"@ {
        Ok(ClientEventView::UpdateSession { name: v })
    } else if t == "member-detail"@ {
        Ok(ClientEventView::MemberDetail { id: uuid_parse(k).unwrap() })
    } else if t == "poll-detail"@ {
        Ok(ClientEventView::PollDetail { id: uuid_parse(k).unwrap() })
    } else if t == "profile-detail"@ {
        Ok(ClientEventView::ProfileDetail)
    } else if t == "select-choice"@ {
        Ok(ClientEventView::SelectChoice { choice: k })
    } else if t == "send-ping"@ {
        Ok(ClientEventView::SendPing)
    } else if t == "session-detail"@ {
        Ok(ClientEventView::SessionDetail)
    } else if t == "set-poll-status"@ {
        match parse_status(k) {
            Some(s) => Ok(ClientEventView::SetPollStatus { status: s }),
            None => Err(k),
        }
    } else if t == "submit-poll"@ {
        Ok(ClientEventView::SubmitPoll { title: v })
    } else {
        Ok(ClientEventView::Unhandled)
    }
}

/// The result of reading an event, as the contracts see it: the event, or the
/// key that named no status.
pub open spec fn event_result_view(r: Result<ClientEvent, InvalidPollStatus>) -> Result<ClientEventView, Seq<char>> {
    match r {
        Ok(e) => Ok(e@),
        Err(e) => Err(e.input@),
    }
}

/// Reads the events raised by clicks.
#[derive(Debug)]
pub struct EventHandler {}

impl EventHandler {
    /// The event named `t`, with key `k` and value `v`. The member and poll
    /// detail events carry the UUID that `k` holds.
    pub fn handle(t: &str, k: &str, v: &str) -> (r: Result<ClientEvent, InvalidPollStatus>)
        requires
            is_detail_event(t@) ==> uuid_parse(k@) is Some,
        ensures
            event_result_view(r) == spec_event(t@, k@, v@),
    {
        if text_eq(t, "update-profile") {
            Ok(ClientEvent::UpdateProfile { name: v.to_owned() })
        } else if text_eq(t, "update-session") {
            Ok(ClientEvent::UpdateSession { name: v.to_owned() })
        } else if text_eq(t, "member-detail") {
            Ok(ClientEvent::MemberDetail { id: parse_uuid(k).unwrap() })
        } else if text_eq(t, "poll-detail") {
            Ok(ClientEvent::PollDetail { id: parse_uuid(k).unwrap() })
        } else if text_eq(t, "profile-detail") {
            Ok(ClientEvent::ProfileDetail)
        } else if text_eq(t, "select-choice") {
            Ok(ClientEvent::SelectChoice { choice: k.to_owned() })
        } else if text_eq(t, "send-ping") {
            Ok(ClientEvent::SendPing)
        } else if text_eq(t, "session-detail") {
            Ok(ClientEvent::SessionDetail)
        } else if text_eq(t, "set-poll-status") {
            match PollStatus::from_str(k) {
                Ok(status) => Ok(ClientEvent::SetPollStatus { status }),
                Err(e) => Err(e),
            }
        } else if text_eq(t, "submit-poll") {
            Ok(ClientEvent::SubmitPoll { title: v.to_owned() })
        } else {
            Ok(ClientEvent::Unhandled)
        }
    }

    /// As `handle`, but answers `None` for a member or poll detail event whose
    /// key is not a UUID.
    pub fn try_handle(t: &str, k: &str, v: &str) -> (r: Option<Result<ClientEvent, InvalidPollStatus>>)
        ensures
            match r {
                None => is_detail_event(t@) && uuid_parse(k@) is None,
                Some(x) => !(is_detail_event(t@) && uuid_parse(k@) is None) && event_result_view(x)
                    == spec_event(t@, k@, v@),
            },
    {
        if (text_eq(t, "member-detail") || text_eq(t, "poll-detail")) && parse_uuid(k).is_none() {
            None
        } else {
            Some(EventHandler::handle(t, k, v))
        }
    }
}

/// What the client does in answer to an event: send a request to the server,
/// or warn the user.
#[derive(Debug)]
pub enum ClientCommand {
    Send(RequestMessage),
    Warn(String),
}

/// A command, as the contracts see it.
pub enum ClientCommandView {
    Send(RequestView),
    Warn(Seq<char>),
}

impl View for ClientCommand {
    type V = ClientCommandView;

    open spec fn view(&self) -> ClientCommandView {
        match self {
            ClientCommand::Send(m) => ClientCommandView::Send(m@),
            ClientCommand::Warn(s) => ClientCommandView::Warn(s@),
        }
    }
}

/// A new name for the user is sent, unless it is empty.
pub fn on_update_profile(name: &str) -> (r: ClientCommand)
    ensures
        r@ == (if name@.len() == 0 {
            ClientCommandView::Warn("Enter a name next time"@)
        } else {
            ClientCommandView::Send(RequestView::UpdateSelf { name: name@ })
        }),
{
    if name.is_empty() {
        ClientCommand::Warn("Enter a name next time".to_owned())
    } else {
        ClientCommand::Send(RequestMessage::UpdateSelf { name: name.to_owned() })
    }
}

/// A new title for the session is sent, with the session's choices, unless it is
/// empty; with no session joined, nothing happens.
pub fn on_update_session(sc: &Option<SessionContext>, name: &str) -> (r: Option<ClientCommand>)
    ensures
        name@.len() == 0 ==> (r matches Some(c) && c@ == ClientCommandView::Warn("Enter a session name next time"@)),
        name@.len() != 0 ==> match sc {
            None => r is None,
            Some(s) => (r matches Some(c) && c@ == ClientCommandView::Send(
                RequestView::UpdateSession { name: name@, choices: s@.session.choices },
            )),
        },
{
    if name.is_empty() {
        Some(ClientCommand::Warn("Enter a session name next time".to_owned()))
    } else {
        match sc {
            Some(s) => {
                let choices = clone_texts(s.session().choices());
                Some(ClientCommand::Send(RequestMessage::UpdateSession { name: name.to_owned(), choices }))
            },
            None => None,
        }
    }
}

/// A new poll with a fresh identifier and the given question is sent, unless
/// the question is empty.
pub fn on_poll_submit(v: &str) -> (r: ClientCommand)
    ensures
        v@.len() == 0 ==> r@ == ClientCommandView::Warn("Enter a question next time"@),
        v@.len() != 0 ==> (r@ matches ClientCommandView::Send(RequestView::SetPollTitle { id, title })
            && title == v@),
{
    if v.is_empty() {
        ClientCommand::Warn("Enter a question next time".to_owned())
    } else {
        ClientCommand::Send(RequestMessage::SetPollTitle { id: new_random_id(), title: v.to_owned() })
    }
}

/// The dialog holds no poll identifier.
#[derive(Debug)]
pub struct NoActivePoll {}

/// The poll open in the poll dialog, read from the identifier the dialog holds.
pub fn get_active_poll_id(input: &str) -> (r: Result<u128, NoActivePoll>)
    ensures
        match r {
            Ok(id) => uuid_parse(input@) == Some(id),
            Err(_) => uuid_parse(input@) is None,
        },
{
    match parse_uuid(input) {
        Some(id) => Ok(id),
        None => Err(NoActivePoll {}),
    }
}

/// Choosing a card votes it in the poll open in the dialog.
pub fn on_select_choice(active_input: &str, vote: &str) -> (r: Result<RequestMessage, NoActivePoll>)
    ensures
        match r {
            Ok(m) => uuid_parse(active_input@) matches Some(id) && m@ == (RequestView::SubmitVote {
                poll: id,
                vote: vote@,
            }),
            Err(_) => uuid_parse(active_input@) is None,
        },
{
    let poll = get_active_poll_id(active_input)?;
    Ok(RequestMessage::SubmitVote { poll, vote: vote.to_owned() })
}

/// Changing the status asks for it on the poll open in the dialog.
pub fn on_set_poll_status(active_input: &str, status: PollStatus) -> (r: Result<RequestMessage, NoActivePoll>)
    ensures
        match r {
            Ok(m) => uuid_parse(active_input@) matches Some(id) && m@ == (RequestView::SetPollStatus {
                poll: id,
                status,
            }),
            Err(_) => uuid_parse(active_input@) is None,
        },
{
    let poll = get_active_poll_id(active_input)?;
    Ok(RequestMessage::SetPollStatus { poll, status })
}

/// The choices of the joined session, if any.
pub open spec fn joined_choices(sc: Option<SessionContext>) -> Option<Seq<Seq<char>>> {
    match sc {
        Some(s) => Some(s@.session.choices),
        None => None,
    }
}

/// The warning for an empty text, or the request that carries it.
pub open spec fn warn_or_send(text: Seq<char>, warning: Seq<char>, request: RequestView) -> ClientCommandView {
    if text.len() == 0 {
        ClientCommandView::Warn(warning)
    } else {
        ClientCommandView::Send(request)
    }
}

/// The request for the poll open in the dialog, or `Err` when the dialog holds
/// no poll identifier.
pub open spec fn for_active_poll(active: Seq<char>, request: spec_fn(u128) -> RequestView) -> Option<Result<ClientCommandView, ()>> {
    match uuid_parse(active) {
        Some(id) => Some(Ok(ClientCommandView::Send(request(id)))),
        None => Some(Err(())),
    }
}

/// What the client does in answer to event `e`: `None` where the event only
/// changes what is shown (or nothing). `fresh` is the identifier that a new
/// poll is given.
pub open spec fn spec_command(
    e: ClientEventView,
    choices: Option<Seq<Seq<char>>>,
    active: Seq<char>,
    now: i64,
    fresh: u128,
) -> Option<Result<ClientCommandView, ()>> {
    match e {
        ClientEventView::UpdateProfile { name } => Some(Ok(warn_or_send(
            name,
            "Enter a name next time"@,
            RequestView::UpdateSelf { name },
        ))),
        ClientEventView::UpdateSession { name } => if name.len() == 0 {
            Some(Ok(ClientCommandView::Warn("Enter a session name next time"@)))
        } else {
            match choices {
                Some(c) => Some(Ok(ClientCommandView::Send(RequestView::UpdateSession { name, choices: c }))),
                None => None,
            }
        },
        ClientEventView::SelectChoice { choice } => for_active_poll(
            active,
            |id: u128| RequestView::SubmitVote { poll: id, vote: choice },
        ),
        ClientEventView::SendPing => Some(Ok(ClientCommandView::Send(RequestView::Ping { v: now }))),
        ClientEventView::SetPollStatus { status } => for_active_poll(
            active,
            |id: u128| RequestView::SetPollStatus { poll: id, status },
        ),
        ClientEventView::SubmitPoll { title } => Some(Ok(warn_or_send(
            title,
            "Enter a question next time"@,
            RequestView::SetPollTitle { id: fresh, title },
        ))),
        _ => None,
    }
}

/// A command result, as the contracts see it.
pub open spec fn command_result_view(r: Option<Result<ClientCommand, NoActivePoll>>) -> Option<Result<ClientCommandView, ()>> {
    match r {
        Some(Ok(c)) => Some(Ok(c@)),
        Some(Err(_)) => Some(Err(())),
        None => None,
    }
}

/// The identifier of the poll that a command creates, or 0.
pub open spec fn created_poll(r: Option<Result<ClientCommand, NoActivePoll>>) -> u128 {
    match r {
        Some(Ok(ClientCommand::Send(RequestMessage::SetPollTitle { id, .. }))) => id,
        _ => 0,
    }
}

/// What the client does in answer to `event`, given the joined session, the
/// poll identifier held by the poll dialog and the time in milliseconds. A new
/// poll gets a fresh random identifier; everything else is fixed by the inputs.
pub fn command_for(event: &ClientEvent, sc: &Option<SessionContext>, active_input: &str, now: i64) -> (r: Option<
    Result<ClientCommand, NoActivePoll>,
>)
    ensures
        command_result_view(r) == spec_command(event@, joined_choices(*sc), active_input@, now, created_poll(r)),
{
    match event {
        ClientEvent::UpdateProfile { name } => Some(Ok(on_update_profile(name.as_str()))),
        ClientEvent::UpdateSession { name } => match on_update_session(sc, name.as_str()) {
            Some(c) => Some(Ok(c)),
            None => None,
        },
        ClientEvent::SelectChoice { choice } => match on_select_choice(active_input, choice.as_str()) {
            Ok(m) => Some(Ok(ClientCommand::Send(m))),
            Err(e) => Some(Err(e)),
        },
        ClientEvent::SendPing => Some(Ok(ClientCommand::Send(RequestMessage::Ping { v: now }))),
        ClientEvent::SetPollStatus { status } => match on_set_poll_status(active_input, *status) {
            Ok(m) => Some(Ok(ClientCommand::Send(m))),
            Err(e) => Some(Err(e)),
        },
        ClientEvent::SubmitPoll { title } => Some(Ok(on_poll_submit(title.as_str()))),
        _ => None,
    }
}

} // verus!
