//! Tests of service discovery and of the wait-for-service decisions.

use capeos::discovery::{
    gateway_url, jwks_endpoint, loopback_url, not_available, ping_url, routes_endpoint, routes_to, service_address,
    service_file_path, wait_step, WaitAction, WaitEvent, WaitState,
};

#[test]
fn service_files_join_like_path() {
    for (base, name) in [("/var/run/capeos", "gateway.url"), ("/var/run/capeos/", "x.url"), ("", "a"), ("/base", "/abs")] {
        let expected = std::path::Path::new(base).join(name).to_string_lossy().to_string();
        assert_eq!(service_file_path(base, name), expected);
    }
}

#[test]
fn addresses_are_trimmed() {
    assert_eq!(service_address("http://127.0.0.1:4000\n"), "http://127.0.0.1:4000");
}

#[test]
fn endpoints_drop_trailing_slashes() {
    assert_eq!(ping_url("http://127.0.0.1:4000/"), "http://127.0.0.1:4000/ping");
    assert_eq!(routes_endpoint("http://127.0.0.1:4000"), "http://127.0.0.1:4000/v1/gateway/routes");
}

#[test]
fn listen_urls() {
    assert_eq!(loopback_url(3000), "http://127.0.0.1:3000");
    assert_eq!(gateway_url(80), "http://0.0.0.0:80");
}

#[test]
fn routes_for_a_service() {
    let routes = routes_to(&vec!["/v1/sys", "/v1/file"], "http://127.0.0.1:5");
    assert_eq!(routes.len(), 2);
    assert_eq!(routes[1].path, "/v1/file");
    assert_eq!(routes[1].target, "http://127.0.0.1:5");
}

#[test]
fn wait_gives_up_after_retries() {
    let s = WaitState { attempt: 0, retries: 2 };
    let (s, a) = wait_step(s, "capeos.url", WaitEvent::Started);
    assert!(matches!(a, WaitAction::ReadAddress));
    let (s, a) = wait_step(s, "capeos.url", WaitEvent::AddressRead(None));
    assert!(matches!(a, WaitAction::Sleep));
    let (s, a) = wait_step(s, "capeos.url", WaitEvent::Slept);
    assert!(matches!(a, WaitAction::ReadAddress));
    assert_eq!(s.attempt, 1);
    let (s, a) = wait_step(s, "capeos.url", WaitEvent::AddressRead(Some("http://h/".to_string())));
    match a {
        WaitAction::Ping { addr, url } => {
            assert_eq!(addr, "http://h/");
            assert_eq!(url, "http://h/ping");
        }
        _ => panic!("expected a ping"),
    }
    let (s, a) = wait_step(s, "capeos.url", WaitEvent::Pinged { addr: "http://h/".to_string(), ok: false });
    assert!(matches!(a, WaitAction::Sleep));
    let (_, a) = wait_step(s, "capeos.url", WaitEvent::Slept);
    match a {
        WaitAction::Fail(m) => assert_eq!(m, "capeos.url not available after 2 retries"),
        _ => panic!("expected failure"),
    }
}

#[test]
fn wait_succeeds_when_ping_answers() {
    let s = WaitState { attempt: 0, retries: 3 };
    let (_, a) = wait_step(s, "f", WaitEvent::Pinged { addr: "http://x".to_string(), ok: true });
    match a {
        WaitAction::Ready(addr) => assert_eq!(addr, "http://x"),
        _ => panic!("expected ready"),
    }
}

#[test]
fn zero_retries_fail_at_once() {
    let (_, a) = wait_step(WaitState { attempt: 5, retries: 0 }, "m.url", WaitEvent::Started);
    match a {
        WaitAction::Fail(m) => assert_eq!(m, not_available("m.url", 0)),
        _ => panic!("expected failure"),
    }
}

#[test]
fn jwks_endpoint_follows_the_user_service_url() {
    assert_eq!(jwks_endpoint("http://127.0.0.1:5000"), "http://127.0.0.1:5000/.well-known/jwks.json");
    assert_eq!(jwks_endpoint("http://127.0.0.1:5000//"), "http://127.0.0.1:5000/.well-known/jwks.json");
}
