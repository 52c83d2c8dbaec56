use rustimate::web::{flash_class, testbed_key, testbeds, Testbed};

#[test]
fn flash_classes() {
    assert_eq!(flash_class("status"), "uk-alert-primary");
    assert_eq!(flash_class("success"), "uk-alert-success");
    assert_eq!(flash_class("warning"), "uk-alert-warning");
    assert_eq!(flash_class("error"), "uk-alert-danger");
    assert_eq!(flash_class("other"), "");
}

#[test]
fn testbed_keys() {
    assert_eq!(testbed_key("dump").unwrap(), Testbed::Dump);
    assert_eq!(testbed_key("gallery").unwrap(), Testbed::Gallery);
    assert_eq!(testbed_key("prototype").unwrap(), Testbed::Prototype);
    assert_eq!(testbed_key("scroll").unwrap(), Testbed::Scroll);
    assert_eq!(testbed_key("crash").unwrap_err().key, "crash");
}

#[test]
fn testbeds_listed() {
    let l = testbeds();
    assert_eq!(l.len(), 5);
    assert_eq!(l[0], ("dump", "Dump", "Displays a bunch of info about the app"));
    assert_eq!(l[4], ("crash", "Crash", "Simulates a server error"));
}
