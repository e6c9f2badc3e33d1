//! Tests of the front end's sign-in logic and of the command line tool's URLs.

use capeos::cli::{command_url, CliCommand};
use capeos::json::push_json_string;
use capeos::web::{login_network_error, login_outcome, login_request_body, LoginOutcome};

#[test]
fn sign_in_body_is_json() {
    let body = login_request_body("ann", "p\"w\n");
    assert_eq!(body, "{\"password\":\"p\\\"w\\n\",\"username\":\"ann\"}");
    let v: serde_json::Value = serde_json::from_str(&body).unwrap();
    assert_eq!(v["password"], "p\"w\n");
}

#[test]
fn json_strings_escape_like_serde_json() {
    for s in ["plain", "q\"uote", "back\\slash", "\u{1}\u{8}\t\n\u{c}\r\u{1f}", "ünï ✓", "\u{7f}"] {
        let mut out = String::new();
        push_json_string(&mut out, s);
        assert_eq!(out, serde_json::to_string(s).unwrap(), "input {:?}", s);
    }
}

#[test]
fn sign_in_outcomes() {
    match login_outcome(true, Some("{\"success\":200,\"message\":\"ok\",\"data\":{\"token\":\"abc\"}}".to_string())) {
        LoginOutcome::SignedIn(t) => assert_eq!(t, "abc"),
        other => panic!("unexpected {:?}", other),
    }
    assert!(matches!(login_outcome(true, Some("{}".to_string())), LoginOutcome::Stay));
    assert!(matches!(login_outcome(true, None), LoginOutcome::Stay));
    match login_outcome(false, None) {
        LoginOutcome::Failed(m) => assert_eq!(m, "Login failed"),
        other => panic!("unexpected {:?}", other),
    }
    match login_network_error("offline".to_string()) {
        LoginOutcome::Failed(m) => assert_eq!(m, "offline"),
        other => panic!("unexpected {:?}", other),
    }
}

#[test]
fn cli_urls() {
    assert_eq!(command_url("http://localhost:80", CliCommand::Health), "http://localhost:80/v1/capeos/health/services");
    assert_eq!(command_url("http://h", CliCommand::Version), "http://h/v1/sys/version/current");
    assert_eq!(command_url("http://h", CliCommand::Status), "http://h/v1/sys/utilization");
}
