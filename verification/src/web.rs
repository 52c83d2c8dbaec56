//! Decisions of the server's pages: which alert style a flash message takes,
//! and which test page a key names.
use crate::text::text_eq;
use vstd::prelude::*;

verus! {

/// The alert style of a flash message of kind `k`.
pub open spec fn spec_flash_class(k: Seq<char>) -> Seq<char> {
    if k == "status"@ {
        "uk-alert-primary"@
    } else if k == "success"@ {
        "uk-alert-success"@
    } else if k == "warning"@ {
        "uk-alert-warning"@
    } else if k == "error"@ {
        "uk-alert-danger"@
    } else {
        ""@
    }
}

/// The alert style of a flash message of kind `k`: `status`, `success`,
/// `warning` and `error` have their own; any other kind has none.
pub fn flash_class(k: &str) -> (r: &'static str)
    ensures
        r@ == spec_flash_class(k@),
{
    if text_eq(k, "status") {
        "uk-alert-primary"
    } else if text_eq(k, "success") {
        "uk-alert-success"
    } else if text_eq(k, "warning") {
        "uk-alert-warning"
    } else if text_eq(k, "error") {
        "uk-alert-danger"
    } else {
        ""
    }
}

/// A page for trying out the application.
#[derive(Debug, PartialEq, Eq, Structural, Clone, Copy)]
pub enum Testbed {
    Dump,
    Gallery,
    Prototype,
    Scroll,
}

/// No test page has this key.
#[derive(Debug)]
pub struct UnknownTestbed {
    pub key: String,
}

/// The test page a key names.
pub open spec fn spec_testbed(key: Seq<char>) -> Option<Testbed> {
    if key == "dump"@ {
        Some(Testbed::Dump)
    } else if key == "gallery"@ {
        Some(Testbed::Gallery)
    } else if key == "prototype"@ {
        Some(Testbed::Prototype)
    } else if key == "scroll"@ {
        Some(Testbed::Scroll)
    } else {
        None
    }
}

/// The test page at `/testbed/{key}`, or the key refused.
pub fn testbed_key(key: &str) -> (r: Result<Testbed, UnknownTestbed>)
    ensures
        match r {
            Ok(t) => spec_testbed(key@) == Some(t),
            Err(e) => spec_testbed(key@) is None && e.key@ == key@,
        },
{
    if text_eq(key, "dump") {
        Ok(Testbed::Dump)
    } else if text_eq(key, "gallery") {
        Ok(Testbed::Gallery)
    } else if text_eq(key, "prototype") {
        Ok(Testbed::Prototype)
    } else if text_eq(key, "scroll") {
        Ok(Testbed::Scroll)
    } else {
        Err(UnknownTestbed { key: key.to_owned() })
    }
}

/// The test pages listed on the home page: key, name and description.
pub open spec fn spec_testbeds() -> Seq<(Seq<char>, Seq<char>, Seq<char>)> {
    seq![
        ("dump"@, "Dump"@, "Displays a bunch of info about the app"@),
        ("gallery"@, "Gallery"@, "Tests front-end components"@),
        ("prototype"@, "Prototype"@, "A sandbox to play around in"@),
        ("scroll"@, "Scroll"@, "Scrolling test"@),
        ("crash"@, "Crash"@, "Simulates a server error"@),
    ]
}

/// The test pages listed on the home page: key, name and description.
pub fn testbeds() -> (r: Vec<(&'static str, &'static str, &'static str)>)
    ensures
        r@.map_values(|t: (&'static str, &'static str, &'static str)| (t.0@, t.1@, t.2@))
            == spec_testbeds(),
{
    let mut r: Vec<(&'static str, &'static str, &'static str)> = Vec::new();
    r.push(("dump", "Dump", "Displays a bunch of info about the app"));
    r.push(("gallery", "Gallery", "Tests front-end components"));
    r.push(("prototype", "Prototype", "A sandbox to play around in"));
    r.push(("scroll", "Scroll", "Scrolling test"));
    r.push(("crash", "Crash", "Simulates a server error"));
    proof {
        assert(r@.map_values(|t: (&'static str, &'static str, &'static str)| (t.0@, t.1@, t.2@))
            =~= spec_testbeds());
    }
    r
}

} // verus!
