use game_ws::text::{str_contains_lowered, str_eq};

#[test]
fn str_eq_exact() {
    assert!(str_eq("", ""));
    assert!(str_eq("GET", "GET"));
    assert!(!str_eq("GET", "GETX"));
    assert!(!str_eq("GET", "get"));
    assert!(!str_eq("/", "/game_engine"));
}

#[test]
fn contains_lowered_folds_the_haystack_only() {
    assert!(str_contains_lowered("websocket", "websocket"));
    assert!(str_contains_lowered("WebSocket", "websocket"));
    assert!(str_contains_lowered("UPGRADE, websocket", "websocket"));
    assert!(str_contains_lowered("keep-alive, Upgrade", "upgrade"));
    assert!(!str_contains_lowered("websocke", "websocket"));
    assert!(!str_contains_lowered("", "upgrade"));
    // The needle is taken verbatim: an upper-case needle can never match.
    assert!(!str_contains_lowered("UPGRADE", "Upgrade"));
}

#[test]
fn contains_lowered_edges() {
    // Empty needle occurs everywhere, also in an empty haystack.
    assert!(str_contains_lowered("", ""));
    assert!(str_contains_lowered("x", ""));
    // Matches at the very start and the very end.
    assert!(str_contains_lowered("Upgrade, keep-alive", "upgrade"));
    assert!(str_contains_lowered("keep-alive,Upgrade", "upgrade"));
    // Non-ASCII characters are left unfolded and compared as they are.
    assert!(str_contains_lowered("näme websocket", "websocket"));
    assert!(str_contains_lowered("ä", "ä"));
    assert!(!str_contains_lowered("Ä", "ä"));
}
