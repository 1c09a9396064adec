use game_ws::handshake::{verify_upgrade, HandshakeError};
use game_ws::router::{handle_request, index_body, route, Dispatch, RouteDecision};
use game_ws::session::{Frame, Session, SessionState};

#[test]
fn index_body_is_the_greeting() {
    assert_eq!(index_body(), "Hello World Learn Workspace");
}

#[test]
fn route_table() {
    assert_eq!(route("GET", "/"), RouteDecision::StaticIndex);
    assert_eq!(route("GET", "/game_engine"), RouteDecision::GameEngineUpgrade);
    assert_eq!(route("GET", "/other"), RouteDecision::NotFound);
    assert_eq!(route("GET", "/game_engine/"), RouteDecision::NotFound);
    assert_eq!(route("GET", ""), RouteDecision::NotFound);
    assert_eq!(route("POST", "/"), RouteDecision::NotFound);
    assert_eq!(route("PUT", "/game_engine"), RouteDecision::NotFound);
}

fn good_upgrade() -> Dispatch {
    handle_request(
        "GET",
        "/game_engine",
        Some("websocket"),
        Some("Upgrade"),
        Some("13"),
        true,
    )
}

#[test]
fn valid_upgrade_spawns_an_open_session() {
    match good_upgrade() {
        Dispatch::UpgradeAccepted(s) => {
            assert_eq!(s.state, SessionState::Open);
            assert!(!s.close_sent);
            assert!(!s.pong_seen);
        }
        _ => panic!("expected the upgrade to be accepted"),
    }
}

#[test]
fn upgrade_headers_fold_ascii_case() {
    // Header values match case-insensitively, also in a list.
    let r = handle_request(
        "GET",
        "/game_engine",
        Some("WebSocket"),
        Some("keep-alive, UPGRADE"),
        Some("13"),
        true,
    );
    assert!(matches!(r, Dispatch::UpgradeAccepted(_)));
}

#[test]
fn upgrade_without_headers_is_rejected_without_a_session() {
    let r = handle_request("GET", "/game_engine", None, None, None, false);
    match r {
        Dispatch::UpgradeRejected(e) => assert_eq!(e, HandshakeError::NoWebsocketUpgrade),
        _ => panic!("expected the upgrade to be rejected"),
    }
}

#[test]
fn index_is_served_while_sessions_are_active() {
    let mut a = Session::new();
    let mut b = Session::new();
    a.handle_frame(Frame::Ping(vec![1u8]));
    b.handle_frame(Frame::Close);
    assert!(matches!(
        handle_request("GET", "/", None, None, None, false),
        Dispatch::StaticOk
    ));
    assert_eq!(index_body(), "Hello World Learn Workspace");
}

#[test]
fn index_is_served_after_a_malformed_frame_killed_a_session() {
    let mut s = Session::new();
    s.handle_frame(Frame::ProtocolError);
    assert_eq!(s.state, SessionState::Closed);
    assert!(matches!(
        handle_request("GET", "/", None, None, None, false),
        Dispatch::StaticOk
    ));
}

#[test]
fn unknown_routes_are_not_found() {
    assert!(matches!(
        handle_request("GET", "/nowhere", None, None, None, false),
        Dispatch::NotFound
    ));
    assert!(matches!(
        handle_request("DELETE", "/", None, None, None, false),
        Dispatch::NotFound
    ));
}

#[test]
fn handshake_checks_run_in_order() {
    assert_eq!(
        verify_upgrade("POST", Some("websocket"), Some("upgrade"), Some("13"), true),
        Err(HandshakeError::GetMethodRequired)
    );
    assert_eq!(
        verify_upgrade("GET", None, Some("upgrade"), Some("13"), true),
        Err(HandshakeError::NoWebsocketUpgrade)
    );
    assert_eq!(
        verify_upgrade("GET", Some("h2c"), Some("upgrade"), Some("13"), true),
        Err(HandshakeError::NoWebsocketUpgrade)
    );
    assert_eq!(
        verify_upgrade("GET", Some("websocket"), None, Some("13"), true),
        Err(HandshakeError::NoConnectionUpgrade)
    );
    assert_eq!(
        verify_upgrade("GET", Some("websocket"), Some("keep-alive"), Some("13"), true),
        Err(HandshakeError::NoConnectionUpgrade)
    );
    assert_eq!(
        verify_upgrade("GET", Some("websocket"), Some("upgrade"), None, true),
        Err(HandshakeError::NoVersionHeader)
    );
    assert_eq!(
        verify_upgrade("GET", Some("websocket"), Some("upgrade"), Some("12"), true),
        Err(HandshakeError::UnsupportedVersion)
    );
    assert_eq!(
        verify_upgrade("GET", Some("websocket"), Some("upgrade"), Some("13"), false),
        Err(HandshakeError::BadWebsocketKey)
    );
    assert_eq!(
        verify_upgrade("GET", Some("websocket"), Some("upgrade"), Some("13"), true),
        Ok(())
    );
    // The two older protocol versions are accepted too.
    assert_eq!(
        verify_upgrade("GET", Some("websocket"), Some("upgrade"), Some("8"), true),
        Ok(())
    );
    assert_eq!(
        verify_upgrade("GET", Some("websocket"), Some("upgrade"), Some("7"), true),
        Ok(())
    );
    // The version is matched exactly, not case-folded or trimmed.
    assert_eq!(
        verify_upgrade("GET", Some("websocket"), Some("upgrade"), Some(" 13"), true),
        Err(HandshakeError::UnsupportedVersion)
    );
}
