use rustimate::handler::{Effect, HandlerError, MessageHandler, SessionData, Target};
use rustimate::member::{Member, MemberRole};
use rustimate::messages::{RequestMessage, ResponseMessage};
use rustimate::poll::{PollStatus, Vote};
use rustimate::profile::UserProfile;
use rustimate::session::EstimateSession;

fn handler(user: u128, name: &str) -> MessageHandler {
    MessageHandler::new(100 + user, "room".to_string(), user, UserProfile::new(name.to_string(), "dark".to_string(), "bluegrey".to_string(), "teal".to_string()), false)
}

fn data(with_session: bool) -> SessionData {
    SessionData {
        session: if with_session { Some(EstimateSession::new("room".to_string())) } else { None },
        members: Vec::new(),
        polls: Vec::new(),
        votes: Vec::new(),
    }
}

#[test]
fn first_user_to_open_creates_the_session() {
    let h = handler(1, "Ann");
    let mut d = data(true);
    let o = h.on_open(&mut d);
    assert!(o.result.is_ok());
    assert_eq!(d.members.len(), 1);
    assert_eq!(*d.members[0].role(), MemberRole::Creator);
    assert_eq!(o.effects.len(), 5);
    match &o.effects[0] {
        Effect::Send { target: Target::Connection, msg: ResponseMessage::Connected { connection_id, user_id, u, b } } => {
            assert_eq!(*connection_id, 101);
            assert_eq!(*user_id, 1);
            assert_eq!(u.name(), "Ann");
            assert_eq!(u.theme(), "dark");
            assert_eq!(u.link_color(), "teal");
            assert!(*b);
        }
        e => panic!("unexpected {:?}", e),
    }
    assert!(matches!(&o.effects[1], Effect::SaveProfileName { name } if name == "Ann"));
    assert!(matches!(&o.effects[2], Effect::SaveMembers));
    match &o.effects[3] {
        Effect::Send { target: Target::ChannelExceptConnection, msg: ResponseMessage::MemberUpdate { member } } => {
            assert_eq!(member.user_id(), 1);
            assert_eq!(*member.role(), MemberRole::Creator);
        }
        e => panic!("unexpected {:?}", e),
    }
    match &o.effects[4] {
        Effect::Send { target: Target::Connection, msg: ResponseMessage::SessionJoined { session, members, connected, polls, votes } } => {
            assert_eq!(session.key(), "room");
            assert_eq!(members.len(), 1);
            assert!(connected.is_empty());
            assert!(polls.is_empty() && votes.is_empty());
        }
        e => panic!("unexpected {:?}", e),
    }
}

#[test]
fn later_users_participate() {
    let mut d = data(true);
    handler(1, "Ann").on_open(&mut d);
    let o = handler(2, "Bo").on_open(&mut d);
    assert!(o.result.is_ok());
    assert_eq!(*d.members[1].role(), MemberRole::Participant);
    // Opening again demotes even the creator, as the stored members are not empty.
    handler(1, "Ann").on_open(&mut d);
    assert_eq!(*d.members[0].role(), MemberRole::Participant);
    assert_eq!(d.members.len(), 2);
}

#[test]
fn opening_a_missing_session_fails_after_recording_the_member() {
    let mut d = data(false);
    let o = handler(1, "Ann").on_open(&mut d);
    assert_eq!(o.effects.len(), 4);
    match o.result {
        Err(HandlerError::SessionNotFound { key }) => assert_eq!(key, "room"),
        Ok(_) => panic!("expected an error"),
    }
    assert_eq!(d.members.len(), 1);
}

#[test]
fn ping_is_answered_to_the_connection() {
    let mut d = data(true);
    let o = handler(1, "Ann").on_message(&mut d, RequestMessage::Ping { v: 77 });
    assert_eq!(o.effects.len(), 1);
    assert!(matches!(&o.effects[0], Effect::Send { target: Target::Connection, msg: ResponseMessage::Pong { v: 77 } }));
}

#[test]
fn poll_title_and_status_are_stored_and_broadcast() {
    let mut d = data(true);
    let h = handler(1, "Ann");
    let o = h.on_message(&mut d, RequestMessage::SetPollTitle { id: 9, title: "Q".to_string() });
    assert!(matches!(&o.effects[0], Effect::SavePolls));
    match &o.effects[1] {
        Effect::Send { target: Target::Channel, msg: ResponseMessage::PollUpdate { poll } } => {
            assert_eq!(poll.title(), "Q");
            assert_eq!(poll.author_id(), 1);
            assert_eq!(*poll.status(), PollStatus::Pending);
        }
        e => panic!("unexpected {:?}", e),
    }
    let o = handler(2, "Bo").on_message(&mut d, RequestMessage::SetPollStatus { poll: 9, status: PollStatus::Active });
    assert!(o.result.is_ok());
    assert_eq!(d.polls.len(), 1);
    assert_eq!(*d.polls[0].status(), PollStatus::Active);
    assert_eq!(d.polls[0].author_id(), 1);
}

#[test]
fn votes_are_cast_as_the_user() {
    let mut d = data(true);
    handler(2, "Bo").on_message(&mut d, RequestMessage::SubmitVote { poll: 9, vote: "3".to_string() });
    let o = handler(2, "Bo").on_message(&mut d, RequestMessage::SubmitVote { poll: 9, vote: "5".to_string() });
    assert_eq!(d.votes.len(), 1);
    assert_eq!(d.votes[0].user_id(), 2);
    assert_eq!(d.votes[0].choice(), "5");
    assert!(matches!(&o.effects[0], Effect::SaveVotes));
    assert!(matches!(&o.effects[1], Effect::Send { target: Target::Channel, msg: ResponseMessage::VoteUpdate { vote } } if vote.choice() == "5"));
}

#[test]
fn renaming_oneself_saves_profile_and_membership() {
    let mut d = data(true);
    d.members.push(Member::new(1, "Ann".to_string(), MemberRole::Creator));
    let o = handler(1, "Ann").on_message(&mut d, RequestMessage::UpdateSelf { name: "Anna".to_string() });
    assert_eq!(o.effects.len(), 3);
    assert!(matches!(&o.effects[0], Effect::SaveProfileName { name } if name == "Anna"));
    assert!(matches!(&o.effects[1], Effect::SaveMembers));
    assert_eq!(d.members[0].name(), "Anna");
    assert_eq!(*d.members[0].role(), MemberRole::Creator);
}

#[test]
fn updating_the_session_changes_title_and_choices() {
    let mut d = data(true);
    let o = handler(1, "Ann").on_message(&mut d, RequestMessage::UpdateSession { name: "New".to_string(), choices: vec!["S".to_string(), "M".to_string()] });
    assert!(o.result.is_ok());
    let s = d.session.as_ref().unwrap();
    assert_eq!(s.title(), "New");
    assert_eq!(s.key(), "room");
    assert_eq!(s.choices().len(), 2);
    assert!(matches!(&o.effects[0], Effect::SaveSession));
    assert!(matches!(&o.effects[1], Effect::Send { target: Target::Channel, msg: ResponseMessage::SessionUpdate { session } } if session.title() == "New"));
}

#[test]
fn updating_a_missing_session_fails() {
    let mut d = data(false);
    let o = handler(1, "Ann").on_message(&mut d, RequestMessage::UpdateSession { name: "New".to_string(), choices: vec![] });
    assert!(o.effects.is_empty());
    assert!(matches!(o.result, Err(HandlerError::SessionNotFound { ref key }) if key == "room"));
    assert!(d.session.is_none());
}

#[test]
fn handler_accessors() {
    let h = MessageHandler::new(5, "c".to_string(), 6, UserProfile::new("n".to_string(), "light".to_string(), "a".to_string(), "b".to_string()), true);
    assert_eq!(h.connection_id(), 5);
    assert_eq!(h.channel_id(), "c");
    assert_eq!(h.user_id(), 6);
    assert_eq!(h.user_profile().name(), "n");
    assert!(h.verbose());
    let mut p = UserProfile::new("x".to_string(), "light".to_string(), "nav".to_string(), "link".to_string());
    p.set_name("y");
    assert_eq!(p.name(), "y");
    assert_eq!(p.theme(), "light");
    assert_eq!(p.navbar_color(), "nav");
    assert_eq!(p.link_color(), "link");
    let _ = Vote::new(1, 2, "3".to_string());
}
