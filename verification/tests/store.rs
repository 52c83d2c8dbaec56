use rustimate::member::{Member, MemberRole};
use rustimate::poll::{Poll, PollStatus, Vote};
use rustimate::store::{members_path, polls_path, session_dir, session_path, upsert_member, upsert_poll, upsert_vote, votes_path};

fn vote(p: u128, u: u128, c: &str) -> Vote {
    Vote::new(p, u, c.to_string())
}

#[test]
fn upsert_vote_appends_a_new_vote() {
    let mut votes = vec![vote(1, 10, "3")];
    let r = upsert_vote(&mut votes, vote(1, 11, "5"));
    assert_eq!(votes.len(), 2);
    assert_eq!((r.poll_id(), r.user_id(), r.choice().as_str()), (1, 11, "5"));
    assert_eq!(votes[1].choice(), "5");
    assert_eq!(votes[0].choice(), "3");
}

#[test]
fn upsert_vote_replaces_the_users_choice_in_place() {
    let mut votes = vec![vote(1, 10, "3"), vote(2, 10, "8"), vote(1, 11, "1")];
    let r = upsert_vote(&mut votes, vote(2, 10, "13"));
    assert_eq!(votes.len(), 3);
    assert_eq!(r.choice(), "13");
    assert_eq!(votes[1].choice(), "13");
    assert_eq!(votes[0].choice(), "3");
    assert_eq!(votes[2].choice(), "1");
}

#[test]
fn upsert_vote_twice_is_once() {
    let mut once = vec![vote(1, 10, "3")];
    upsert_vote(&mut once, vote(1, 10, "?"));
    let mut twice = vec![vote(1, 10, "3")];
    upsert_vote(&mut twice, vote(1, 10, "?"));
    upsert_vote(&mut twice, vote(1, 10, "?"));
    assert_eq!(once.len(), twice.len());
    assert_eq!(once[0].choice(), twice[0].choice());
}

#[test]
fn upsert_vote_keeps_one_vote_per_user_and_poll() {
    let mut votes = Vec::new();
    for c in ["1", "2", "3"] {
        upsert_vote(&mut votes, vote(7, 9, c));
    }
    assert_eq!(votes.len(), 1);
    assert_eq!(votes[0].choice(), "3");
}

#[test]
fn upsert_member_adds_a_participant_by_default() {
    let mut members = Vec::new();
    let m = upsert_member(&mut members, 5, "Ann".to_string(), None);
    assert_eq!(*m.role(), MemberRole::Participant);
    assert_eq!(m.name(), "Ann");
    assert_eq!(members.len(), 1);
}

#[test]
fn upsert_member_keeps_the_role_when_none_is_given() {
    let mut members = vec![Member::new(5, "Ann".to_string(), MemberRole::Creator)];
    let m = upsert_member(&mut members, 5, "Anna".to_string(), None);
    assert_eq!(*m.role(), MemberRole::Creator);
    assert_eq!(members[0].name(), "Anna");
    assert_eq!(members.len(), 1);
}

#[test]
fn upsert_member_sets_a_given_role() {
    let mut members = vec![Member::new(5, "Ann".to_string(), MemberRole::Creator), Member::new(6, "Bo".to_string(), MemberRole::Observer)];
    let m = upsert_member(&mut members, 6, "Bo".to_string(), Some(MemberRole::Admin));
    assert_eq!(*m.role(), MemberRole::Admin);
    assert_eq!(*members[1].role(), MemberRole::Admin);
    assert_eq!(*members[0].role(), MemberRole::Creator);
}

#[test]
fn upsert_poll_creates_a_numbered_pending_poll() {
    let mut polls = vec![Poll::new(1, 0, 9, "First".to_string(), PollStatus::Active)];
    let p = upsert_poll(&mut polls, 2, None, None, 42);
    assert_eq!(p.idx(), 1);
    assert_eq!(p.title(), "New poll");
    assert_eq!(*p.status(), PollStatus::Pending);
    assert_eq!(p.author_id(), 42);
    assert_eq!(p.final_vote(), &None);
    assert_eq!(polls.len(), 2);
}

#[test]
fn upsert_poll_with_title_and_status() {
    let mut polls = Vec::new();
    let p = upsert_poll(&mut polls, 2, Some("Q".to_string()), Some(PollStatus::Active), 42);
    assert_eq!(p.idx(), 0);
    assert_eq!(p.title(), "Q");
    assert_eq!(*p.status(), PollStatus::Active);
}

#[test]
fn upsert_poll_keeps_what_is_not_given() {
    let mut polls = vec![Poll::new(1, 0, 9, "First".to_string(), PollStatus::Active)];
    let p = upsert_poll(&mut polls, 1, None, Some(PollStatus::Complete), 42);
    assert_eq!(p.title(), "First");
    assert_eq!(*p.status(), PollStatus::Complete);
    assert_eq!(p.author_id(), 9);
    assert_eq!(p.idx(), 0);
    let p = upsert_poll(&mut polls, 1, Some("Renamed".to_string()), None, 42);
    assert_eq!(p.title(), "Renamed");
    assert_eq!(*p.status(), PollStatus::Complete);
    assert_eq!(polls.len(), 1);
}

#[test]
fn session_file_paths() {
    assert_eq!(session_dir("abc"), "session/abc");
    assert_eq!(session_path("abc"), "session/abc/session.json");
    assert_eq!(members_path("abc"), "session/abc/members.json");
    assert_eq!(polls_path("abc"), "session/abc/polls.json");
    assert_eq!(votes_path("abc"), "session/abc/votes.json");
}
