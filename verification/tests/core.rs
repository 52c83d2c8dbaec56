use rustimate::member::{Member, MemberRole};
use rustimate::poll::{Poll, PollAction, PollActionType, PollStatus, Vote};
use rustimate::session::{default_choices, slug_for, EstimateSession, SessionStatus};
use rustimate::session_ctx::SessionContext;
use std::collections::HashMap;

#[test]
fn member_role_names() {
    assert_eq!(MemberRole::Creator.to_string(), "Creator");
    assert_eq!(MemberRole::Admin.to_string(), "Admin");
    assert_eq!(MemberRole::Participant.to_string(), "Participant");
    assert_eq!(MemberRole::Observer.to_string(), "Observer");
    assert_eq!(MemberRole::Invited.to_string(), "Invited");
}

#[test]
fn member_accessors() {
    let mut m = Member::new(3, "Ann".to_string(), MemberRole::Invited);
    assert_eq!(m.user_id(), 3);
    m.set_name("Bea".to_string());
    m.set_role(MemberRole::Observer);
    assert_eq!(m.name(), "Bea");
    assert_eq!(*m.role(), MemberRole::Observer);
    let c = m.clone();
    assert_eq!(c.name(), "Bea");
}

#[test]
fn poll_status_parses_its_names() {
    assert_eq!(PollStatus::from_str("Pending").unwrap(), PollStatus::Pending);
    assert_eq!(PollStatus::from_str("Active").unwrap(), PollStatus::Active);
    assert_eq!(PollStatus::from_str("Complete").unwrap(), PollStatus::Complete);
    for s in [PollStatus::Pending, PollStatus::Active, PollStatus::Complete] {
        assert_eq!(PollStatus::from_str(&s.to_string()).unwrap(), s);
    }
}

#[test]
fn poll_status_refuses_other_text() {
    let e = PollStatus::from_str("pending").unwrap_err();
    assert_eq!(e.input, "pending");
    assert!(PollStatus::from_str("").is_err());
}

#[test]
fn poll_accessors() {
    let mut p = Poll::new(1, 4, 2, "Q".to_string(), PollStatus::Pending);
    assert_eq!((p.id(), p.idx(), p.author_id()), (1, 4, 2));
    p.set_title("R".to_string());
    p.set_status(PollStatus::Active);
    p.set_final_vote(Some("5".to_string()));
    assert_eq!(p.title(), "R");
    assert_eq!(*p.status(), PollStatus::Active);
    assert_eq!(p.final_vote().as_deref(), Some("5"));
}

#[test]
fn vote_accessors() {
    let mut v = Vote::new(1, 2, "3".to_string());
    v.set_choice("8".to_string());
    assert_eq!((v.poll_id(), v.user_id(), v.choice().as_str()), (1, 2, "8"));
}

#[test]
fn poll_action_accessors() {
    let a = PollAction::new(1, 2, 3, PollActionType::CastVote, HashMap::new(), "m".to_string());
    assert_eq!((a.id(), a.poll_id(), a.user_id()), (1, 2, 3));
    assert_eq!(a.action_type(), PollActionType::CastVote);
    assert_eq!(a.message(), "m");
    assert!(a.ctx().is_empty());
}

#[test]
fn new_session_is_keyed_by_its_title() {
    let s = EstimateSession::new("Sprint 4".to_string());
    assert_eq!(s.key(), "Sprint 4");
    assert_eq!(s.title(), "Sprint 4");
    assert_eq!(s.status(), SessionStatus::Creating);
    assert!(s.options().is_empty());
    assert_eq!(s.choices(), &default_choices());
}

#[test]
fn default_choices_are_the_planning_cards() {
    assert_eq!(
        default_choices(),
        vec!["0", "0.5", "1", "2", "3", "5", "8", "13", "20", "40", "100", "?"]
    );
}

#[test]
fn slug_is_the_title() {
    assert_eq!(slug_for("a b"), "a b");
    assert_eq!(slug_for(""), "");
}

#[test]
fn session_title_and_choices_change_but_not_the_key() {
    let mut s = EstimateSession::new("a".to_string());
    s.set_title("b".to_string());
    s.set_choices(vec!["x".to_string()]);
    assert_eq!(s.key(), "a");
    assert_eq!(s.title(), "b");
    assert_eq!(s.choices(), &vec!["x".to_string()]);
}

#[test]
fn session_context_keeps_the_last_entry_per_key() {
    let members = vec![
        Member::new(1, "A".to_string(), MemberRole::Creator),
        Member::new(2, "B".to_string(), MemberRole::Participant),
        Member::new(1, "A2".to_string(), MemberRole::Admin),
    ];
    let polls = vec![Poll::new(9, 0, 1, "Q".to_string(), PollStatus::Pending), Poll::new(9, 0, 1, "Q2".to_string(), PollStatus::Active)];
    let votes = vec![Vote::new(9, 1, "3".to_string()), Vote::new(9, 2, "5".to_string()), Vote::new(9, 1, "8".to_string())];
    let c = SessionContext::new(Box::new(EstimateSession::new("s".to_string())), members, vec![1, 2, 1], polls, votes);
    assert_eq!(c.session().key(), "s");
    assert_eq!(c.members().len(), 2);
    assert_eq!(c.members()[&1].name(), "A2");
    assert_eq!(c.connected().len(), 2);
    assert!(c.connected().contains(&2));
    assert_eq!(c.polls().len(), 1);
    assert_eq!(c.polls()[&9].title(), "Q2");
    assert_eq!(c.votes().len(), 2);
    assert_eq!(c.votes()[0].choice(), "8");
    assert_eq!(c.votes()[1].choice(), "5");
}

#[test]
fn an_unknown_status_is_refused_with_its_message() {
    let e = rustimate::poll::PollStatus::from_str("active").unwrap_err();
    assert_eq!(e.input, "active");
    assert_eq!(e.message(), "Invalid theme [active]");
    assert!(rustimate::poll::PollStatus::from_str(" Active").is_err());
}
