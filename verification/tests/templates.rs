use rustimate::client::templates::{conn_el, member_detail, member_summary, members, poll_summary, polls, vote_choices, vote_results, vote_stats, vote_status};
use rustimate::home::{detail, index, testbed_list, RouteError, RouteStep};
use rustimate::markup::{card, escape_html};
use rustimate::member::{Member, MemberRole};
use rustimate::pages::{flash, index_content, modals, session_detail, session_form, socket, testbed_table};
use rustimate::poll::{Poll, PollStatus};
use std::cell::RefCell;
use std::collections::HashSet;

const ID: u128 = 0x550e8400e29b41d4a716446655440000;
const ID_TEXT: &str = "550e8400-e29b-41d4-a716-446655440000";

fn member(id: u128, name: &str) -> Member {
    Member::new(id, name.to_string(), MemberRole::Participant)
}

/// A router that answers `/{path}/{args...}`, refuses one path, and records
/// what it was asked.
struct TestRouter {
    refuse: Option<(&'static str, &'static str)>,
    asked: RefCell<Vec<String>>,
}

impl TestRouter {
    fn new(refuse: Option<(&'static str, &'static str)>) -> TestRouter {
        TestRouter { refuse, asked: RefCell::new(Vec::new()) }
    }
}

impl TestRouter {
    fn route(&self, path: &str, args: &[String]) -> Result<String, RouteError> {
        let joined = args.join("/");
        self.asked.borrow_mut().push(format!("{}:{}", path, joined));
        if let Some((p, a)) = self.refuse {
            if p == path && a == joined {
                return Err(RouteError { reason: format!("no route {}", path) });
            }
        }
        if joined.is_empty() {
            Ok(format!("/{}", path))
        } else {
            Ok(format!("/{}/{}", path, joined))
        }
    }
}

/// Answers what a page asks until it is built or refused.
fn build(step: impl Fn(&Vec<Result<String, RouteError>>) -> RouteStep, router: &TestRouter) -> Result<String, String> {
    let mut answers: Vec<Result<String, RouteError>> = Vec::new();
    loop {
        match step(&answers) {
            RouteStep::Ask { path, args } => answers.push(router.route(&path, &args)),
            RouteStep::Refused { reason } => return Err(reason),
            RouteStep::Page { html } => return Ok(html),
        }
    }
}

#[test]
fn escaping_replaces_the_markup_characters() {
    assert_eq!(escape_html("a<b>&\"c'"), "a&lt;b&gt;&amp;&quot;c'");
    assert_eq!(escape_html(""), "");
    assert_eq!(escape_html("plain text"), "plain text");
}

#[test]
fn cards_frame_their_content() {
    assert_eq!(card("k", "<p>x</p>"), "<div class=\"uk-margin uk-card uk-card-body k\"><p>x</p></div>");
    assert_eq!(card("a\"b", ""), "<div class=\"uk-margin uk-card uk-card-body a&quot;b\"></div>");
}

#[test]
fn member_markup() {
    assert_eq!(conn_el(true), "<span> (Connected)</span>");
    assert_eq!(
        member_summary("l", &member(ID, "A&B"), true),
        format!("<li><a class=\"l\" onclick=\"rustimate.on_event('member-detail', '{}', '');return false;\">A&amp;B<span> (Connected)</span></a></li>", ID_TEXT)
    );
    assert_eq!(member_detail(&Member::new(1, "x".to_string(), MemberRole::Creator), true), "<em>Creator</em><div><span> (Connected)</span></div>");
    let mut on = HashSet::new();
    on.insert(ID);
    let ms = vec![member(ID, "A"), member(2, "B")];
    assert_eq!(members("l", &ms, &on), format!("{}{}", member_summary("l", &ms[0], true), member_summary("l", &ms[1], false)));
    assert_eq!(members("l", &vec![], &on), "");
}

#[test]
fn poll_markup() {
    let p = Poll::new(ID, 0, 1, "Size <4>?".to_string(), PollStatus::Pending);
    assert_eq!(
        poll_summary("l", &p),
        format!("<li><a class=\"l\" onclick=\"rustimate.on_event('poll-detail', '{}', '');return false;\">Size &lt;4&gt;?</a></li>", ID_TEXT)
    );
    assert_eq!(polls("l", &vec![]), "<li>No polls</li>");
    assert_eq!(polls("l", &vec![p.clone()]), poll_summary("l", &p));
}

#[test]
fn vote_status_checks_who_voted() {
    let ms = vec![member(1, "A"), member(2, "B")];
    let votes = vec![(1, "5".to_string())];
    assert_eq!(
        vote_status(&ms, &votes),
        "<div><div class=\"vote-member\"><div>A<div><div class=\"icon\" data-uk-icon=\"icon: check; ratio: 2\"></div></div></div></div><div class=\"vote-member\"><div>B<div><div class=\"icon\" data-uk-icon=\"icon: minus; ratio: 2\"></div></div></div></div></div><div class=\"clear\"></div>"
    );
}

#[test]
fn vote_choices_mark_the_current_one() {
    let choices = vec!["1".to_string(), "2".to_string()];
    assert_eq!(
        vote_choices(&choices, &Some("2".to_string())),
        "<div><div class=\"vote-choice\" onclick=\"rustimate.on_event('select-choice', '1', '');return false;\">1</div><div class=\"vote-choice active\">2</div></div><div class=\"clear\"></div>"
    );
    assert_eq!(
        vote_choices(&choices, &None),
        "<div><div class=\"vote-choice\" onclick=\"rustimate.on_event('select-choice', '1', '');return false;\">1</div><div class=\"vote-choice\" onclick=\"rustimate.on_event('select-choice', '2', '');return false;\">2</div></div><div class=\"clear\"></div>"
    );
}

#[test]
fn vote_results_show_each_choice() {
    let ms = vec![member(1, "A"), member(2, "B")];
    let votes = vec![(2, "8".to_string())];
    assert_eq!(
        vote_results(&ms, &votes),
        "<div><div class=\"vote-member\"><div>A<div><div class=\"large-text\">---</div></div></div></div><div class=\"vote-member\"><div>B<div><div class=\"large-text\">8</div></div></div></div></div><div class=\"clear\"></div>"
    );
}

#[test]
fn vote_stats_markup() {
    assert_eq!(
        vote_stats("2", "3", "4.5", "4.5", "3"),
        "<div><div>[2/3] votes counted</div><div>Mean: 4.5</div><div>Median: 4.5</div><div>Mode: 3</div></div><div class=\"clear\"></div>"
    );
}

#[test]
fn flash_messages() {
    assert_eq!(
        flash("error", "<b>"),
        "<div class=\"alert-top uk-alert-danger\" data-uk-alert><a class=\"uk-alert-close\" href=\"#\" data-uk-close=\"\"></a><p>&lt;b&gt;</p></div>"
    );
    assert!(flash("other", "x").starts_with("<div class=\"alert-top \" data-uk-alert>"));
}

#[test]
fn session_forms_post_to_their_actions() {
    let f = session_form("c", "/create", "/join");
    assert!(f.starts_with("<div><form action=\"/create\" method=\"get\"><div class=\"uk-margin uk-card uk-card-body c\"><h4>Create Session</h4>"));
    assert!(f.contains("<form action=\"/join\" method=\"get\">"));
    assert!(f.ends_with("Join Session</button></div></form></div>"));
}

#[test]
fn testbed_table_links_each_page() {
    let routes: Vec<String> = ["/d", "/g", "/p", "/s", "/c"].iter().map(|s| s.to_string()).collect();
    let t = testbed_table("c", "l", &routes);
    assert!(t.starts_with("<div class=\"uk-margin uk-card uk-card-body c\"><h4>Testbeds</h4><table class=\"uk-table uk-table-divider\"><tbody>"));
    assert!(t.contains("<tr><td><a class=\"l\" href=\"/d\">Dump</a></td><td>Displays a bunch of info about the app</td></tr>"));
    assert!(t.contains("<tr><td><a class=\"l\" href=\"/c\">Crash</a></td><td>Simulates a server error</td></tr>"));
    assert!(t.find("Gallery").unwrap() < t.find("Prototype").unwrap());
    assert!(t.ends_with("</tbody></table></div>"));
}

#[test]
fn testbed_list_asks_the_router_in_order() {
    let r = TestRouter::new(None);
    let t = build(|a| testbed_list("c", "l", a), &r).unwrap();
    assert_eq!(
        *r.asked.borrow(),
        vec!["testbed.detail:dump", "testbed.detail:gallery", "testbed.detail:prototype", "testbed.detail:scroll", "testbed.detail:crash"]
    );
    let routes: Vec<String> = ["dump", "gallery", "prototype", "scroll", "crash"].iter().map(|k| format!("/testbed.detail/{}", k)).collect();
    assert_eq!(t, testbed_table("c", "l", &routes));
}

#[test]
fn testbed_list_stops_at_the_first_refusal() {
    let r = TestRouter::new(Some(("testbed.detail", "prototype")));
    let e = build(|a| testbed_list("c", "l", a), &r).unwrap_err();
    assert_eq!(e, "no route testbed.detail");
    assert_eq!(r.asked.borrow().len(), 3);
}

#[test]
fn index_routes_the_forms_then_the_testbeds() {
    let r = TestRouter::new(None);
    let page = build(|a| index("c", "l", a), &r).unwrap();
    assert_eq!(r.asked.borrow()[0], "session.create:");
    assert_eq!(r.asked.borrow()[1], "session.join_link:");
    assert_eq!(r.asked.borrow().len(), 7);
    let routes: Vec<String> = ["dump", "gallery", "prototype", "scroll", "crash"].iter().map(|k| format!("/testbed.detail/{}", k)).collect();
    assert_eq!(page, index_content("c", "l", "/session.create", "/session.join_link", &routes));
    assert!(page.starts_with("<div class=\"uk-text-center\"><h1 class=\"uk-heading-hero\">Welcome to rustimate</h1></div>"));
    let refused = TestRouter::new(Some(("session.join_link", "")));
    assert!(build(|a| index("c", "l", a), &refused).is_err());
    assert_eq!(refused.asked.borrow().len(), 2);
}

#[test]
fn the_session_page_loads_the_client_script() {
    let r = TestRouter::new(None);
    let page = build(|a| detail("c", "l", "Ann", "Sprint <1>", a), &r).unwrap();
    assert_eq!(*r.asked.borrow(), vec!["static:client.js"]);
    assert_eq!(page, session_detail("c", "l", "Ann", "Sprint <1>", "/static/client.js"));
    assert!(page.contains("<h3 class=\"left nomargin\" id=\"session-name-label\">Sprint &lt;1&gt;</h3>"));
    assert!(page.contains("<h3 class=\"left nomargin\" id=\"profile-name-label\">Ann</h3>"));
    assert!(page.ends_with("<script src=\"/static/client.js\" defer></script>"));
    assert!(page.contains(&modals()));
    assert!(page.contains(&socket("c", "l")));
    assert!(build(|a| detail("c", "l", "Ann", "t", a), &TestRouter::new(Some(("static", "client.js")))).is_err());
}

#[test]
fn the_dialogs_raise_their_events() {
    let m = modals();
    assert!(m.starts_with("<div id=\"add-member-modal\" uk-modal>"));
    assert!(m.contains("onclick=\"rustimate.on_event('set-poll-status', 'Active', '');return false;\">Start Voting</button>"));
    assert!(m.contains("onclick=\"rustimate.on_event('set-poll-status', 'Complete', '');return false;\">Finish Voting</button>"));
    assert!(m.contains("onclick=\"rustimate.on_event('submit-poll', '', document.getElementById('poll-modal-input').value);return false;\">Add Poll</button>"));
    assert!(m.contains("<div id=\"poll-vote-status\"></div>"));
    assert!(m.ends_with("Change Name</button></p></div></div>"));
}

#[test]
fn route_steps_ask_in_order_and_stop_at_a_refusal() {
    let none: Vec<Result<String, RouteError>> = Vec::new();
    assert!(matches!(index("c", "l", &none), RouteStep::Ask { path, args } if path == "session.create" && args.is_empty()));
    let one = vec![Ok("/a".to_string())];
    assert!(matches!(index("c", "l", &one), RouteStep::Ask { path, args } if path == "session.join_link" && args.is_empty()));
    let two = vec![Ok("/a".to_string()), Ok("/b".to_string())];
    assert!(matches!(index("c", "l", &two), RouteStep::Ask { path, args } if path == "testbed.detail" && args == vec!["dump".to_string()]));
    assert!(matches!(testbed_list("c", "l", &two), RouteStep::Ask { path, args } if path == "testbed.detail" && args == vec!["prototype".to_string()]));
    let refused = vec![Ok("/a".to_string()), Err(RouteError { reason: "gone".to_string() }), Ok("/c".to_string())];
    assert!(matches!(index("c", "l", &refused), RouteStep::Refused { reason } if reason == "gone"));
    assert!(matches!(detail("c", "l", "n", "t", &none), RouteStep::Ask { path, args } if path == "static" && args == vec!["client.js".to_string()]));
}
