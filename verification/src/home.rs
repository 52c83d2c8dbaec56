//! The pages whose links come from the web server's router: the home page
//! with its session forms and test pages, the card of test pages alone, and
//! the session page with its client script.
//!
//! Building such a page is a conversation with the router: the page names the
//! next route it needs, the server answers with its URL or a refusal, and once
//! every route is answered the page is built. Routes are asked for in the
//! order they appear on the page, and the first refusal ends the conversation.
use crate::pages::{index_content, session_detail, spec_index_content, spec_session_detail, spec_testbed_table, testbed_table};
use crate::web::{spec_testbeds, testbeds};
use vstd::prelude::*;

verus! {

/// Why the router gives no URL for a route.
#[derive(Debug)]
pub struct RouteError {
    pub reason: String,
}

/// A route's URL, or the reason it has none, as the contracts see it.
pub open spec fn route_view(r: Result<String, RouteError>) -> Result<Seq<char>, Seq<char>> {
    match r {
        Ok(u) => Ok(u@),
        Err(e) => Err(e.reason@),
    }
}

/// The router's answers so far, as the contracts see them.
pub open spec fn answers_view(answers: Seq<Result<String, RouteError>>) -> Seq<Result<Seq<char>, Seq<char>>> {
    answers.map_values(|a: Result<String, RouteError>| route_view(a))
}

/// The URLs answered, in order, or the first refusal among the answers.
pub open spec fn answered(answers: Seq<Result<Seq<char>, Seq<char>>>) -> Result<Seq<Seq<char>>, Seq<char>>
    decreases answers.len(),
{
    if answers.len() == 0 {
        Ok(seq![])
    } else {
        match answered(answers.drop_last()) {
            Err(e) => Err(e),
            Ok(us) => match answers.last() {
                Ok(u) => Ok(us.push(u)),
                Err(e) => Err(e),
            },
        }
    }
}

/// What a page asks of the router next.
#[derive(Debug)]
pub enum RouteStep {
    /// The URL of route `path` with arguments `args` is needed.
    Ask { path: String, args: Vec<String> },
    /// A route was refused, for `reason`; the page cannot be built.
    Refused { reason: String },
    /// Every route is known; this is the page.
    Page { html: String },
}

/// A step, as the contracts see it.
pub enum RouteStepView {
    Ask { path: Seq<char>, args: Seq<Seq<char>> },
    Refused { reason: Seq<char> },
    Page { html: Seq<char> },
}

impl View for RouteStep {
    type V = RouteStepView;

    open spec fn view(&self) -> RouteStepView {
        match self {
            RouteStep::Ask { path, args } => RouteStepView::Ask { path: path@, args: args.deep_view() },
            RouteStep::Refused { reason } => RouteStepView::Refused { reason: reason@ },
            RouteStep::Page { html } => RouteStepView::Page { html: html@ },
        }
    }
}

/// The next step of a page that needs `routes`, in order, and is built by
/// `page` from their URLs: the first refusal ends it; else the first route not
/// yet answered is asked for; else the page is built.
pub open spec fn spec_route_step(
    routes: Seq<(Seq<char>, Seq<Seq<char>>)>,
    answers: Seq<Result<Seq<char>, Seq<char>>>,
    page: spec_fn(Seq<Seq<char>>) -> Seq<char>,
) -> RouteStepView {
    match answered(answers) {
        Err(e) => RouteStepView::Refused { reason: e },
        Ok(us) => if us.len() < routes.len() {
            RouteStepView::Ask { path: routes[us.len() as int].0, args: routes[us.len() as int].1 }
        } else {
            RouteStepView::Page { html: page(us.take(routes.len() as int)) }
        },
    }
}

/// The routes of the test pages: `testbed.detail` with each key, in order.
pub open spec fn spec_testbed_routes() -> Seq<(Seq<char>, Seq<Seq<char>>)> {
    Seq::new(5, |i: int| ("testbed.detail"@, seq![spec_testbeds()[i].0]))
}

/// The routes of the home page: the targets of the session forms, then the
/// test pages.
pub open spec fn spec_index_routes() -> Seq<(Seq<char>, Seq<Seq<char>>)> {
    seq![("session.create"@, Seq::<Seq<char>>::empty()), ("session.join_link"@, Seq::<Seq<char>>::empty())]
        + spec_testbed_routes()
}

/// The route of the session page: the client script among the static files.
pub open spec fn spec_detail_routes() -> Seq<(Seq<char>, Seq<Seq<char>>)> {
    seq![("static"@, seq!["client.js"@])]
}

/// Once the answers hold a refusal, longer answers hold the same one first.
proof fn lemma_refusal_stays(s: Seq<Result<Seq<char>, Seq<char>>>, k: int, e: Seq<char>)
    requires
        0 <= k <= s.len(),
        answered(s.take(k)) == Err::<Seq<Seq<char>>, Seq<char>>(e),
    ensures
        answered(s) == Err::<Seq<Seq<char>>, Seq<char>>(e),
    decreases s.len() - k,
{
    if k < s.len() {
        assert(s.take(k + 1).drop_last() =~= s.take(k));
        lemma_refusal_stays(s, k + 1, e);
    } else {
        assert(s.take(k) =~= s);
    }
}

/// The URLs answered, or the first refusal.
fn answered_urls(answers: &Vec<Result<String, RouteError>>) -> (r: Result<Vec<String>, String>)
    ensures
        match r {
            Ok(us) => answered(answers_view(answers@)) == Ok::<Seq<Seq<char>>, Seq<char>>(us.deep_view()),
            Err(e) => answered(answers_view(answers@)) == Err::<Seq<Seq<char>>, Seq<char>>(e@),
        },
{
    let ghost all = answers_view(answers@);
    let mut us: Vec<String> = Vec::new();
    let mut i: usize = 0;
    proof {
        assert(us.deep_view() =~= seq![]);
        assert(all.take(0) =~= seq![]);
    }
    while i < answers.len()
        invariant
            i <= answers.len(),
            all == answers_view(answers@),
            answered(all.take(i as int)) == Ok::<Seq<Seq<char>>, Seq<char>>(us.deep_view()),
        decreases answers.len() - i,
    {
        proof {
            assert(all.take(i + 1).drop_last() =~= all.take(i as int));
            assert(all.take(i + 1).last() == route_view(answers@[i as int]));
        }
        match &answers[i] {
            Ok(u) => {
                let ghost before = us.deep_view();
                us.push(u.clone());
                proof {
                    assert(us.deep_view() =~= before.push(u@));
                }
            },
            Err(e) => {
                proof {
                    lemma_refusal_stays(all, i + 1, e.reason@);
                }
                return Err(e.reason.clone());
            },
        }
        i = i + 1;
    }
    proof {
        assert(all.take(answers.len() as int) =~= all);
    }
    Ok(us)
}

/// The URLs from position `from` up to `to`.
fn urls_between(us: &Vec<String>, from: usize, to: usize) -> (r: Vec<String>)
    requires
        from <= to <= us.len(),
    ensures
        r.deep_view() == us.deep_view().subrange(from as int, to as int),
{
    let mut r: Vec<String> = Vec::new();
    let mut i: usize = from;
    proof {
        assert(r.deep_view() =~= us.deep_view().subrange(from as int, from as int));
    }
    while i < to
        invariant
            from <= i <= to <= us.len(),
            r.deep_view() == us.deep_view().subrange(from as int, i as int),
        decreases to - i,
    {
        let ghost before = r.deep_view();
        r.push(us[i].clone());
        proof {
            assert(r.deep_view() =~= before.push(us.deep_view()[i as int]));
            assert(r.deep_view() =~= us.deep_view().subrange(from as int, i + 1));
        }
        i = i + 1;
    }
    r
}

/// The route at position `i` of the test pages' routes.
fn testbed_route(i: usize) -> (r: RouteStep)
    requires
        i < 5,
    ensures
        r@ == (RouteStepView::Ask { path: spec_testbed_routes()[i as int].0, args: spec_testbed_routes()[i as int].1 }),
{
    let pages = testbeds();
    proof {
        assert(pages@.len() == spec_testbeds().len());
        assert(pages@[i as int].0@ == spec_testbeds()[i as int].0);
    }
    let args: Vec<String> = vec![pages[i].0.to_owned()];
    proof {
        assert(args.deep_view() =~= seq![spec_testbeds()[i as int].0]);
    }
    RouteStep::Ask { path: "testbed.detail".to_owned(), args }
}

/// The next step of the card of test pages, each linking to the URL of
/// `testbed.detail` with its key, given the router's answers so far.
pub fn testbed_list(card_class: &str, link_class: &str, answers: &Vec<Result<String, RouteError>>) -> (r: RouteStep)
    ensures
        r@ == spec_route_step(
            spec_testbed_routes(),
            answers_view(answers@),
            |us: Seq<Seq<char>>| spec_testbed_table(card_class@, link_class@, us),
        ),
{
    match answered_urls(answers) {
        Err(reason) => RouteStep::Refused { reason },
        Ok(us) => {
            if us.len() < 5 {
                testbed_route(us.len())
            } else {
                let routes = urls_between(&us, 0, 5);
                proof {
                    assert(routes.deep_view() =~= us.deep_view().take(5));
                }
                RouteStep::Page { html: testbed_table(card_class, link_class, &routes) }
            }
        },
    }
}

/// The next step of the home page's content: the forms posting to
/// `session.create` and `session.join_link`, then the test pages, given the
/// router's answers so far.
pub fn index(card_class: &str, link_class: &str, answers: &Vec<Result<String, RouteError>>) -> (r: RouteStep)
    ensures
        r@ == spec_route_step(
            spec_index_routes(),
            answers_view(answers@),
            |us: Seq<Seq<char>>| spec_index_content(card_class@, link_class@, us[0], us[1], us.subrange(2, 7)),
        ),
{
    match answered_urls(answers) {
        Err(reason) => RouteStep::Refused { reason },
        Ok(us) => {
            proof {
                assert(spec_index_routes().len() == 7);
            }
            if us.len() == 0 {
                proof {
                    assert(spec_index_routes()[0] == ("session.create"@, Seq::<Seq<char>>::empty()));
                }
                let args: Vec<String> = Vec::new();
                proof {
                    assert(args.deep_view() =~= Seq::<Seq<char>>::empty());
                }
                RouteStep::Ask { path: "session.create".to_owned(), args }
            } else if us.len() == 1 {
                proof {
                    assert(spec_index_routes()[1] == ("session.join_link"@, Seq::<Seq<char>>::empty()));
                }
                let args: Vec<String> = Vec::new();
                proof {
                    assert(args.deep_view() =~= Seq::<Seq<char>>::empty());
                }
                RouteStep::Ask { path: "session.join_link".to_owned(), args }
            } else if us.len() < 7 {
                proof {
                    assert(spec_index_routes()[us.len() as int] == spec_testbed_routes()[us.len() - 2]);
                }
                testbed_route(us.len() - 2)
            } else {
                let routes = urls_between(&us, 2, 7);
                proof {
                    let t = us.deep_view().take(7);
                    assert(routes.deep_view() =~= t.subrange(2, 7));
                    assert(t[0] == us.deep_view()[0] && t[1] == us.deep_view()[1]);
                }
                RouteStep::Page {
                    html: index_content(card_class, link_class, us[0].as_str(), us[1].as_str(), &routes),
                }
            }
        },
    }
}

/// The next step of the session page, which loads the client script from the
/// static route of `client.js`, given the router's answers so far.
pub fn detail(
    card_class: &str,
    link_class: &str,
    profile_name: &str,
    title: &str,
    answers: &Vec<Result<String, RouteError>>,
) -> (r: RouteStep)
    ensures
        r@ == spec_route_step(
            spec_detail_routes(),
            answers_view(answers@),
            |us: Seq<Seq<char>>| spec_session_detail(card_class@, link_class@, profile_name@, title@, us[0]),
        ),
{
    match answered_urls(answers) {
        Err(reason) => RouteStep::Refused { reason },
        Ok(us) => {
            if us.len() == 0 {
                let args: Vec<String> = vec!["client.js".to_owned()];
                proof {
                    assert(args.deep_view() =~= seq!["client.js"@]);
                }
                RouteStep::Ask { path: "static".to_owned(), args }
            } else {
                proof {
                    assert(us.deep_view().take(1)[0] == us.deep_view()[0]);
                }
                RouteStep::Page { html: session_detail(card_class, link_class, profile_name, title, us[0].as_str()) }
            }
        },
    }
}

} // verus!
