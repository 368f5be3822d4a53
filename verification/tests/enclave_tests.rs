use nitrogen::enclave::{console_plan, verify_running, ConsoleDecision, EnclaveSummary};
use nitrogen::errors::Error;

fn summary(state: Option<&str>) -> EnclaveSummary {
    EnclaveSummary {
        name: Some("app".to_string()),
        state: state.map(|s| s.to_string()),
        flags: None,
    }
}

#[test]
fn empty_enclave_list_is_not_running() {
    let r = verify_running(&Vec::new());
    assert!(matches!(r, Err(Error::NotRunningError)));
}

#[test]
fn running_state_verifies() {
    let r = verify_running(&vec![summary(Some("RUNNING"))]);
    assert!(r.is_ok());
}

#[test]
fn terminating_state_is_not_success() {
    let r = verify_running(&vec![summary(Some("TERMINATING"))]);
    match r {
        Err(Error::UnknownStateError { state }) => assert_eq!(state.unwrap(), "TERMINATING"),
        _ => panic!("expected the unknown-state error"),
    }
}

#[test]
fn lowercase_running_is_not_success() {
    // The state comparison is exact; a differently cased value is surfaced.
    let r = verify_running(&vec![summary(Some("running"))]);
    assert!(matches!(r, Err(Error::UnknownStateError { .. })));
}

#[test]
fn missing_state_field_is_unknown() {
    let r = verify_running(&vec![summary(None)]);
    match r {
        Err(Error::UnknownStateError { state }) => assert!(state.is_none()),
        _ => panic!("expected the unknown-state error"),
    }
}

#[test]
fn console_needs_a_name() {
    let e = EnclaveSummary { name: None, state: None, flags: Some("DEBUG_MODE".to_string()) };
    assert!(matches!(console_plan(&e), ConsoleDecision::NoName));
}

#[test]
fn console_needs_debug_mode() {
    let e = EnclaveSummary { name: Some("app".to_string()), state: None, flags: None };
    assert!(matches!(console_plan(&e), ConsoleDecision::NotDebugMode));
    let e = EnclaveSummary {
        name: Some("app".to_string()),
        state: None,
        flags: Some("NONE".to_string()),
    };
    assert!(matches!(console_plan(&e), ConsoleDecision::NotDebugMode));
}

#[test]
fn console_opens_under_the_enclave_name() {
    let e = EnclaveSummary {
        name: Some("app".to_string()),
        state: Some("RUNNING".to_string()),
        flags: Some("DEBUG_MODE".to_string()),
    };
    match console_plan(&e) {
        ConsoleDecision::Console { name } => assert_eq!(name, "app"),
        _ => panic!("expected the console to open"),
    }
}
