use rustimate::client::events::{command_for, get_active_poll_id, NoActivePoll, on_poll_submit, on_select_choice, on_set_poll_status, on_update_profile, on_update_session, ClientCommand, ClientEvent, EventHandler};
use rustimate::client::html::{display_value, onclick_event};
use rustimate::client::messages::{MessageHandler, Reaction};
use rustimate::client::render::{connected_text, on_member_detail, on_poll_detail, on_profile_detail, on_session_detail, own_profile_ops, poll_status_dom, render_members, render_polls, render_results, render_votes, DomOp};
use rustimate::client::templates::{conn_el, member_detail, members as member_list, polls as poll_listing, vote_choices, vote_results, vote_stats, vote_status};
use rustimate::client::results::{connection_label, has_voted, is_current_choice, poll_sections, tally_votes, vote_for, vote_label};
use rustimate::client::session_ctx::SessionContext;
use rustimate::handler::{Effect, MessageHandler as ServerHandler, SessionData, Target};
use rustimate::member::{Member, MemberRole};
use rustimate::messages::{RequestMessage, ResponseMessage};
use rustimate::poll::{Poll, PollStatus, Vote};
use rustimate::profile::UserProfile;
use rustimate::session::EstimateSession;

const POLL: u128 = 0x550e8400e29b41d4a716446655440000;
const POLL_TEXT: &str = "550e8400-e29b-41d4-a716-446655440000";

fn member(id: u128, name: &str) -> Member {
    Member::new(id, name.to_string(), MemberRole::Participant)
}

fn ctx() -> SessionContext {
    SessionContext::new(
        EstimateSession::new("s".to_string()),
        &[member(1, "Zed"), member(2, "Amy"), member(3, "Max")],
        &[1],
        &[Poll::new(POLL, 1, 1, "Q2".to_string(), PollStatus::Active), Poll::new(7, 0, 1, "Q1".to_string(), PollStatus::Complete)],
        &[Vote::new(POLL, 1, "5".to_string()), Vote::new(7, 1, "2".to_string()), Vote::new(POLL, 3, "?".to_string())],
    )
}

#[test]
fn onclick_event_script() {
    assert_eq!(onclick_event("send-ping", "", ""), "rustimate.on_event('send-ping', '', '');return false;");
    assert_eq!(onclick_event("submit-poll", "k", "x.value"), "rustimate.on_event('submit-poll', 'k', x.value);return false;");
}

#[test]
fn display_values() {
    assert_eq!(display_value(true), "block");
    assert_eq!(display_value(false), "none");
}

#[test]
fn events_are_read_by_name() {
    assert!(matches!(EventHandler::handle("update-profile", "", "Ann").unwrap(), ClientEvent::UpdateProfile { name } if name == "Ann"));
    assert!(matches!(EventHandler::handle("update-session", "", "S").unwrap(), ClientEvent::UpdateSession { name } if name == "S"));
    assert!(matches!(EventHandler::handle("member-detail", POLL_TEXT, "").unwrap(), ClientEvent::MemberDetail { id: POLL }));
    assert!(matches!(EventHandler::handle("poll-detail", POLL_TEXT, "").unwrap(), ClientEvent::PollDetail { id: POLL }));
    assert!(matches!(EventHandler::handle("profile-detail", "", "").unwrap(), ClientEvent::ProfileDetail));
    assert!(matches!(EventHandler::handle("select-choice", "13", "").unwrap(), ClientEvent::SelectChoice { choice } if choice == "13"));
    assert!(matches!(EventHandler::handle("send-ping", "", "").unwrap(), ClientEvent::SendPing));
    assert!(matches!(EventHandler::handle("session-detail", "", "").unwrap(), ClientEvent::SessionDetail));
    assert!(matches!(EventHandler::handle("set-poll-status", "Complete", "").unwrap(), ClientEvent::SetPollStatus { status: PollStatus::Complete }));
    assert!(matches!(EventHandler::handle("submit-poll", "", "Why?").unwrap(), ClientEvent::SubmitPoll { title } if title == "Why?"));
    assert!(matches!(EventHandler::handle("delete-poll", "", "").unwrap(), ClientEvent::Unhandled));
}

#[test]
fn a_status_change_to_no_status_is_refused() {
    let e = EventHandler::handle("set-poll-status", "Done", "").unwrap_err();
    assert_eq!(e.input, "Done");
}

#[test]
fn detail_events_need_a_uuid() {
    assert!(EventHandler::try_handle("poll-detail", "not-a-uuid", "").is_none());
    assert!(EventHandler::try_handle("member-detail", "", "").is_none());
    assert!(matches!(EventHandler::try_handle("poll-detail", POLL_TEXT, ""), Some(Ok(ClientEvent::PollDetail { id: POLL }))));
    assert!(matches!(EventHandler::try_handle("send-ping", "junk", ""), Some(Ok(ClientEvent::SendPing))));
}

#[test]
fn renaming_oneself() {
    assert!(matches!(on_update_profile(""), ClientCommand::Warn(w) if w == "Enter a name next time"));
    assert!(matches!(on_update_profile("Ann"), ClientCommand::Send(RequestMessage::UpdateSelf { name }) if name == "Ann"));
}

#[test]
fn renaming_the_session() {
    assert!(matches!(on_update_session(&None, ""), Some(ClientCommand::Warn(w)) if w == "Enter a session name next time"));
    assert!(on_update_session(&None, "S").is_none());
    match on_update_session(&Some(ctx()), "S") {
        Some(ClientCommand::Send(RequestMessage::UpdateSession { name, choices })) => {
            assert_eq!(name, "S");
            assert_eq!(choices.len(), 12);
        }
        c => panic!("unexpected {:?}", c),
    }
}

#[test]
fn submitting_a_poll() {
    assert!(matches!(on_poll_submit(""), ClientCommand::Warn(w) if w == "Enter a question next time"));
    let a = on_poll_submit("Size?");
    let b = on_poll_submit("Size?");
    match (a, b) {
        (ClientCommand::Send(RequestMessage::SetPollTitle { id: x, title }), ClientCommand::Send(RequestMessage::SetPollTitle { id: y, .. })) => {
            assert_eq!(title, "Size?");
            assert_ne!(x, y);
        }
        _ => panic!("expected two requests"),
    }
}

#[test]
fn the_active_poll_is_read_from_its_uuid() {
    assert_eq!(get_active_poll_id(POLL_TEXT).unwrap(), POLL);
    assert_eq!(get_active_poll_id("550E8400E29B41D4A716446655440000").unwrap(), POLL);
    assert!(get_active_poll_id("").is_err());
    assert!(matches!(on_select_choice(POLL_TEXT, "8").unwrap(), RequestMessage::SubmitVote { poll: POLL, vote } if vote == "8"));
    assert!(on_select_choice("x", "8").is_err());
    assert!(matches!(on_set_poll_status(POLL_TEXT, PollStatus::Active).unwrap(), RequestMessage::SetPollStatus { poll: POLL, status: PollStatus::Active }));
    assert!(on_set_poll_status("", PollStatus::Active).is_err());
}

#[test]
fn members_are_sorted_by_name() {
    let c = ctx();
    let names: Vec<String> = c.members_sorted().iter().map(|m| m.name().clone()).collect();
    assert_eq!(names, vec!["Amy", "Max", "Zed"]);
}

#[test]
fn votes_by_poll_and_by_user() {
    let c = ctx();
    assert_eq!(c.votes_by_poll(POLL), vec![(1, "5".to_string()), (3, "?".to_string())]);
    assert_eq!(c.votes_by_user(1), vec![(POLL, "5".to_string()), (7, "2".to_string())]);
}

#[test]
fn setting_replaces_by_key() {
    let mut c = ctx();
    c.set_member(Member::new(2, "Ann".to_string(), MemberRole::Admin));
    assert_eq!(c.members().len(), 3);
    assert_eq!(c.members()[1].name(), "Ann");
    c.set_poll(Poll::new(7, 0, 1, "Q1b".to_string(), PollStatus::Pending));
    assert_eq!(c.polls().len(), 2);
    assert_eq!(c.polls()[1].title(), "Q1b");
    c.set_vote(POLL, 3, "8".to_string());
    c.set_vote(POLL, 2, "1".to_string());
    assert_eq!(c.votes_by_poll(POLL), vec![(1, "5".to_string()), (3, "8".to_string()), (2, "1".to_string())]);
    c.set_session(EstimateSession::new("t".to_string()));
    assert_eq!(c.session().title(), "t");
    assert!(c.connected().contains(&1));
}

#[test]
fn server_messages_update_the_client() {
    let mut state: Option<SessionContext> = None;
    assert!(matches!(MessageHandler::handle(&mut state, ResponseMessage::VoteUpdate { vote: Vote::new(1, 1, "x".to_string()) }), Reaction::VotesChanged));
    assert!(state.is_none());
    let joined = ResponseMessage::SessionJoined {
        session: Box::new(EstimateSession::new("s".to_string())),
        members: vec![member(1, "A")],
        connected: vec![],
        polls: vec![],
        votes: vec![],
    };
    let r = MessageHandler::handle(&mut state, joined);
    assert!(matches!(&r, Reaction::SessionJoined { session } if session.members().len() == 1));
    assert!(state.is_none());
    MessageHandler::commit(&mut state, r);
    assert_eq!(state.as_ref().unwrap().members().len(), 1);
    MessageHandler::handle(&mut state, ResponseMessage::MemberUpdate { member: member(2, "B") });
    MessageHandler::handle(&mut state, ResponseMessage::PollUpdate { poll: Poll::new(5, 0, 1, "Q".to_string(), PollStatus::Pending) });
    MessageHandler::handle(&mut state, ResponseMessage::VoteUpdate { vote: Vote::new(5, 2, "3".to_string()) });
    let r = MessageHandler::handle(&mut state, ResponseMessage::SessionUpdate { session: EstimateSession::new("t".to_string()) });
    assert!(matches!(&r, Reaction::SessionRenamed { session } if session.title() == "t"));
    assert_eq!(state.as_ref().unwrap().session().title(), "s");
    MessageHandler::commit(&mut state, r);
    let c = state.as_ref().unwrap();
    assert_eq!(c.members().len(), 2);
    assert_eq!(c.polls().len(), 1);
    assert_eq!(c.votes_by_poll(5), vec![(2, "3".to_string())]);
    assert_eq!(c.session().title(), "t");
    assert!(matches!(MessageHandler::handle(&mut state, ResponseMessage::Pong { v: 3 }), Reaction::Pong { v: 3 }));
    assert!(matches!(MessageHandler::handle(&mut state, ResponseMessage::SessionNotFound { id: 3 }), Reaction::Unhandled));
    let r = MessageHandler::handle(&mut state, ResponseMessage::Connected { connection_id: 4, user_id: 8, u: Box::new(UserProfile::new("me".to_string(), "light".to_string(), "a".to_string(), "b".to_string())), b: false });
    assert!(matches!(&r, Reaction::Connected { connection_id: 4, user_id: 8, binary: false, profile } if profile.name() == "me"));
    let r = MessageHandler::handle(&mut state, ResponseMessage::Notification { level: "warn".to_string(), content: "c".to_string() });
    assert!(matches!(r, Reaction::Notify { level, content } if level == "warn" && content == "c"));
}

#[test]
fn vote_lookups() {
    let votes = vec![(1, "5".to_string()), (2, "?".to_string()), (1, "8".to_string())];
    assert_eq!(vote_for(&votes, 1), Some("5".to_string()));
    assert_eq!(vote_for(&votes, 3), None);
    assert!(has_voted(&votes, 2));
    assert!(!has_voted(&votes, 3));
    assert_eq!(vote_label(&votes, 2), "?");
    assert_eq!(vote_label(&votes, 3), "---");
    assert!(is_current_choice(&Some("5".to_string()), &"5".to_string()));
    assert!(!is_current_choice(&Some("5".to_string()), &"8".to_string()));
    assert!(!is_current_choice(&None, &"5".to_string()));
    assert_eq!(connection_label(true), " (Connected)");
    assert_eq!(connection_label(false), " (Not Connected)");
}

#[test]
fn tally_counts_every_member_once() {
    let members = vec![member(1, "A"), member(2, "B"), member(3, "C")];
    let votes = vec![(3, "1".to_string()), (1, "?".to_string())];
    let t = tally_votes(&members, &votes);
    assert_eq!(t.valid_votes, vec![(1, "?".to_string()), (3, "1".to_string())]);
    assert_eq!(t.invalid_votes, vec![2]);
}

#[test]
fn poll_sections_by_status() {
    let p = poll_sections(PollStatus::Pending);
    assert!(p.pending && !p.active && !p.complete && !p.render_votes && !p.render_results);
    let a = poll_sections(PollStatus::Active);
    assert!(!a.pending && a.active && !a.complete && a.render_votes && !a.render_results);
    let c = poll_sections(PollStatus::Complete);
    assert!(!c.pending && !c.active && c.complete && !c.render_votes && c.render_results);
    assert_eq!(poll_status_dom(PollStatus::Active).len(), 4);
    assert_eq!(poll_status_dom(PollStatus::Pending).len(), 3);
    assert!(matches!(poll_status_dom(PollStatus::Complete)[3], DomOp::RenderResults));
}

#[test]
fn dialogs() {
    let ops = on_profile_detail("Ann");
    assert!(matches!(&ops[0], DomOp::SetInputValue { id, value } if id == "profile-detail-modal-input" && value == "Ann"));
    assert!(matches!(&ops[1], DomOp::ShowModal { id } if id == "profile-detail-modal"));
    assert_eq!(on_session_detail(&None).len(), 1);
    let ops = on_session_detail(&Some(ctx()));
    assert!(matches!(&ops[0], DomOp::SetInputValue { value, .. } if value == "s"));
    let ops = on_member_detail(&Some(ctx()), 2);
    assert!(matches!(&ops[0], DomOp::SetText { id, text } if id == "member-detail-name" && text == "Amy"));
    assert!(matches!(&ops[1], DomOp::SetHtml { id, html } if id == "member-detail-content" && html == "<em>Participant</em><div><span> (Not Connected)</span></div>"));
    assert_eq!(on_member_detail(&Some(ctx()), 99).len(), 1);
    let ops = on_poll_detail(&Some(ctx()), POLL);
    assert!(matches!(&ops[0], DomOp::SetText { text, .. } if text == "Q2"));
    assert!(matches!(&ops[1], DomOp::SetInputValue { id, value } if id == "active-poll-id" && value == POLL_TEXT));
    assert!(matches!(&ops[5], DomOp::RenderVotes));
    assert!(matches!(&ops[6], DomOp::ShowModal { id } if id == "poll-detail-modal"));
    assert_eq!(on_poll_detail(&None, POLL).len(), 1);
}

#[test]
fn panels() {
    let c = Some(ctx());
    let v = render_votes(&c, POLL_TEXT, 3).unwrap();
    assert_eq!(v.current, Some("?".to_string()));
    assert_eq!(v.votes.len(), 2);
    assert_eq!(v.choices.len(), 12);
    assert_eq!(v.members[0].name(), "Amy");
    assert!(render_votes(&c, "", 3).is_none());
    assert!(render_votes(&None, POLL_TEXT, 3).is_none());
    let r = render_results(&c, POLL_TEXT).unwrap();
    assert_eq!(r.tally.valid_votes, vec![(3, "?".to_string()), (1, "5".to_string())]);
    assert_eq!(r.tally.invalid_votes, vec![2]);
    assert_eq!(r.summary_html, vote_results(&r.members, &r.votes));
    assert_eq!(v.status_html, vote_status(&v.members, &v.votes));
    assert_eq!(v.choices_html, vote_choices(&v.choices, &Some("?".to_string())));
    let p = render_polls(c.as_ref().unwrap(), POLL_TEXT, "lnk");
    assert_eq!(p.active_status, Some(PollStatus::Active));
    assert_eq!(p.polls[0].title(), "Q1");
    assert_eq!(p.listing_html, poll_listing("lnk", &p.polls));
    assert_eq!(render_polls(c.as_ref().unwrap(), "", "lnk").active_status, None);
    let m = render_members(c.as_ref().unwrap(), 2, "lnk");
    assert_eq!(m.members[0].name(), "Amy");
    assert_eq!(m.own_profile.len(), 2);
    assert_eq!(m.listing_html, member_list("lnk", &m.members, c.as_ref().unwrap().connected()));
}

#[test]
fn own_name_follows_the_first_member_listed() {
    let members = vec![member(2, "Amy"), member(1, "Zed")];
    assert_eq!(own_profile_ops(&members, 2).len(), 2);
    assert!(own_profile_ops(&members, 1).is_empty());
}

#[test]
fn connected_texts() {
    assert_eq!(connected_text(true), "Connect message received, binary connection");
    assert_eq!(connected_text(false), "Connect message received, text connection");
}

#[test]
fn client_follows_server_after_a_broadcast() {
    let mut server = SessionData {
        session: Some(EstimateSession::new("s".to_string())),
        members: vec![member(1, "A")],
        polls: vec![],
        votes: vec![],
    };
    let mut client: Option<SessionContext> = Some(SessionContext::new(EstimateSession::new("s".to_string()), &[member(1, "A")], &[], &[], &[]));
    let h = ServerHandler::new(9, "s".to_string(), 1, UserProfile::new("A".to_string(), "light".to_string(), "a".to_string(), "b".to_string()), false);
    let requests = vec![
        RequestMessage::SetPollTitle { id: 5, title: "Q".to_string() },
        RequestMessage::SubmitVote { poll: 5, vote: "3".to_string() },
        RequestMessage::SubmitVote { poll: 5, vote: "8".to_string() },
        RequestMessage::UpdateSelf { name: "Al".to_string() },
        RequestMessage::SetPollStatus { poll: 5, status: PollStatus::Complete },
    ];
    for r in requests {
        let o = h.on_message(&mut server, r);
        for e in o.effects {
            if let Effect::Send { target: Target::Channel, msg } = e {
                let r = MessageHandler::handle(&mut client, msg);
                MessageHandler::commit(&mut client, r);
            }
        }
    }
    let c = client.unwrap();
    assert_eq!(c.members().len(), server.members.len());
    assert_eq!(c.members()[0].name(), "Al");
    assert_eq!(c.polls().len(), 1);
    assert_eq!(*c.polls()[0].status(), PollStatus::Complete);
    assert_eq!(c.votes().len(), server.votes.len());
    assert_eq!(c.votes()[0].choice(), server.votes[0].choice());
    assert_eq!(c.votes()[0].choice(), "8");
}

#[test]
fn joining_keeps_the_last_entry_per_member() {
    let c = SessionContext::new(EstimateSession::new("s".to_string()), &[member(1, "A"), member(2, "B"), member(1, "C")], &[], &[], &[]);
    assert_eq!(c.members().len(), 2);
    assert_eq!(c.members()[0].name(), "C");
    assert_eq!(c.members()[1].name(), "B");
}

#[test]
fn the_poll_dialog_selects_its_poll() {
    let ops = on_poll_detail(&Some(ctx()), 7);
    match &ops[1] {
        DomOp::SetInputValue { value, .. } => assert_eq!(get_active_poll_id(value).unwrap(), 7),
        o => panic!("unexpected {:?}", o),
    }
}

#[test]
fn commands_follow_the_event() {
    let c = Some(ctx());
    assert!(matches!(command_for(&ClientEvent::UpdateProfile { name: "".to_string() }, &c, POLL_TEXT, 1), Some(Ok(ClientCommand::Warn(w))) if w == "Enter a name next time"));
    assert!(matches!(command_for(&ClientEvent::UpdateProfile { name: "Ann".to_string() }, &c, POLL_TEXT, 1), Some(Ok(ClientCommand::Send(RequestMessage::UpdateSelf { name }))) if name == "Ann"));
    assert!(matches!(command_for(&ClientEvent::UpdateSession { name: "".to_string() }, &None, "", 1), Some(Ok(ClientCommand::Warn(w))) if w == "Enter a session name next time"));
    assert!(command_for(&ClientEvent::UpdateSession { name: "S".to_string() }, &None, "", 1).is_none());
    assert!(matches!(command_for(&ClientEvent::UpdateSession { name: "S".to_string() }, &c, "", 1), Some(Ok(ClientCommand::Send(RequestMessage::UpdateSession { name, choices }))) if name == "S" && choices.len() == 12));
    assert!(matches!(command_for(&ClientEvent::SelectChoice { choice: "5".to_string() }, &c, POLL_TEXT, 1), Some(Ok(ClientCommand::Send(RequestMessage::SubmitVote { poll: POLL, vote }))) if vote == "5"));
    assert!(matches!(command_for(&ClientEvent::SelectChoice { choice: "5".to_string() }, &c, "", 1), Some(Err(NoActivePoll {}))));
    assert!(matches!(command_for(&ClientEvent::SendPing, &None, "", 42), Some(Ok(ClientCommand::Send(RequestMessage::Ping { v: 42 })))));
    assert!(matches!(command_for(&ClientEvent::SetPollStatus { status: PollStatus::Complete }, &c, POLL_TEXT, 1), Some(Ok(ClientCommand::Send(RequestMessage::SetPollStatus { poll: POLL, status: PollStatus::Complete })))));
    assert!(matches!(command_for(&ClientEvent::SetPollStatus { status: PollStatus::Active }, &c, "x", 1), Some(Err(_))));
    assert!(matches!(command_for(&ClientEvent::SubmitPoll { title: "".to_string() }, &c, "", 1), Some(Ok(ClientCommand::Warn(w))) if w == "Enter a question next time"));
    assert!(matches!(command_for(&ClientEvent::SubmitPoll { title: "Q".to_string() }, &c, "", 1), Some(Ok(ClientCommand::Send(RequestMessage::SetPollTitle { title, .. }))) if title == "Q"));
    assert!(command_for(&ClientEvent::ProfileDetail, &c, POLL_TEXT, 1).is_none());
    assert!(command_for(&ClientEvent::MemberDetail { id: 2 }, &c, POLL_TEXT, 1).is_none());
    assert!(command_for(&ClientEvent::Unhandled, &c, POLL_TEXT, 1).is_none());
}

#[test]
fn a_recorded_vote_is_the_users_only_vote_in_its_poll() {
    let mut c = ctx();
    c.set_vote(POLL, 1, "13".to_string());
    c.set_vote(POLL, 1, "20".to_string());
    let v = c.votes_by_poll(POLL);
    assert_eq!(v.iter().filter(|(u, _)| *u == 1).count(), 1);
    assert!(v.contains(&(1, "20".to_string())));
    assert_eq!(c.votes_by_poll(7), vec![(1, "2".to_string())]);
    let joined = SessionContext::new(EstimateSession::new("s".to_string()), &[], &[], &[], &[Vote::new(5, 1, "a".to_string()), Vote::new(5, 1, "b".to_string())]);
    assert_eq!(joined.votes_by_poll(5), vec![(1, "b".to_string())]);
}

#[test]
fn a_failed_draw_keeps_the_old_picture() {
    let mut state: Option<SessionContext> = Some(ctx());
    let r = MessageHandler::handle(&mut state, ResponseMessage::SessionUpdate { session: EstimateSession::new("renamed".to_string()) });
    assert!(matches!(&r, Reaction::SessionRenamed { .. }));
    drop(r);
    assert_eq!(state.as_ref().unwrap().session().title(), "s");
    let joined = ResponseMessage::SessionJoined {
        session: Box::new(EstimateSession::new("other".to_string())),
        members: vec![],
        connected: vec![],
        polls: vec![],
        votes: vec![],
    };
    let _ = MessageHandler::handle(&mut state, joined);
    assert_eq!(state.as_ref().unwrap().members().len(), 3);
}

#[test]
fn clicks_open_their_dialogs() {
    let c = Some(ctx());
    let ops = rustimate::client::render::dom_for(&ClientEvent::PollDetail { id: 7 }, &c, "Ann");
    assert!(matches!(&ops[0], DomOp::SetText { text, .. } if text == "Q1"));
    assert!(matches!(ops.last().unwrap(), DomOp::ShowModal { id } if id == "poll-detail-modal"));
    let ops = rustimate::client::render::dom_for(&ClientEvent::ProfileDetail, &c, "Ann");
    assert!(matches!(&ops[0], DomOp::SetInputValue { value, .. } if value == "Ann"));
    let ops = rustimate::client::render::dom_for(&ClientEvent::SessionDetail, &None, "Ann");
    assert_eq!(ops.len(), 1);
    let ops = rustimate::client::render::dom_for(&ClientEvent::MemberDetail { id: 3 }, &c, "Ann");
    assert!(matches!(&ops[0], DomOp::SetText { text, .. } if text == "Max"));
    assert!(rustimate::client::render::dom_for(&ClientEvent::SendPing, &c, "Ann").is_empty());
}

#[test]
fn vote_counts_are_written_in_decimal() {
    assert_eq!(rustimate::client::results::decimal(0), "0");
    assert_eq!(rustimate::client::results::decimal(7), "7");
    assert_eq!(rustimate::client::results::decimal(1203), "1203");
    let members = vec![member(1, "A"), member(2, "B"), member(3, "C")];
    let t = tally_votes(&members, &vec![(3, "1".to_string())]);
    assert_eq!(rustimate::client::results::vote_counts(&t), ("1".to_string(), "3".to_string()));
}
