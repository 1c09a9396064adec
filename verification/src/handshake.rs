//! WebSocket upgrade validation.
//!
//! An upgrade request is accepted exactly when it is a GET whose `Upgrade`
//! header contains `websocket` (ASCII case folded), whose `Connection`
//! header contains `upgrade` (ASCII case folded), whose
//! `Sec-WebSocket-Version` is one of 13, 8 or 7, and which carries a
//! `Sec-WebSocket-Key`. Anything else is refused with the first failing
//! check's error, the request is answered with HTTP 400, and no session
//! comes to exist. A header whose value is not a valid string counts as
//! absent.

use vstd::prelude::*;

use crate::session::Session;
use crate::session::SessionState;
use crate::text::contains_lowered;
use crate::text::str_contains_lowered;
use crate::text::str_eq;

verus! {

/// Why an upgrade request was refused; each refusal is answered with
/// HTTP 400.
#[derive(Clone, Copy, PartialEq, Eq, Structural, Debug)]
pub enum HandshakeError {
    /// Only GET can start a WebSocket handshake.
    GetMethodRequired,
    /// No `Upgrade` header naming `websocket`.
    NoWebsocketUpgrade,
    /// No `Connection` header asking for an upgrade.
    NoConnectionUpgrade,
    /// No `Sec-WebSocket-Version` header.
    NoVersionHeader,
    /// A `Sec-WebSocket-Version` other than 13, 8 or 7.
    UnsupportedVersion,
    /// No `Sec-WebSocket-Key` header.
    BadWebsocketKey,
}

/// Whether an `Upgrade` header value asks for WebSocket.
pub open spec fn spec_upgrade_names_websocket(upgrade: Option<Seq<char>>) -> bool {
    match upgrade {
        Some(v) => contains_lowered(v, "websocket"@),
        None => false,
    }
}

/// Whether a `Connection` header value asks for an upgrade.
pub open spec fn spec_connection_asks_upgrade(connection: Option<Seq<char>>) -> bool {
    match connection {
        Some(v) => contains_lowered(v, "upgrade"@),
        None => false,
    }
}

/// Whether a `Sec-WebSocket-Version` header value names a supported
/// protocol version.
pub open spec fn spec_version_supported(version: Seq<char>) -> bool {
    version == "13"@ || version == "8"@ || version == "7"@
}

/// The outcome of validating an upgrade request: the checks run in order
/// and the first failing one decides the error.
pub open spec fn spec_verify_upgrade(
    method: Seq<char>,
    upgrade: Option<Seq<char>>,
    connection: Option<Seq<char>>,
    version: Option<Seq<char>>,
    has_key: bool,
) -> Result<(), HandshakeError> {
    if method != "GET"@ {
        Err(HandshakeError::GetMethodRequired)
    } else if !spec_upgrade_names_websocket(upgrade) {
        Err(HandshakeError::NoWebsocketUpgrade)
    } else if !spec_connection_asks_upgrade(connection) {
        Err(HandshakeError::NoConnectionUpgrade)
    } else if version is None {
        Err(HandshakeError::NoVersionHeader)
    } else if !spec_version_supported(version->0) {
        Err(HandshakeError::UnsupportedVersion)
    } else if !has_key {
        Err(HandshakeError::BadWebsocketKey)
    } else {
        Ok(())
    }
}

/// The view of an optional header value.
pub open spec fn opt_view(v: Option<&str>) -> Option<Seq<char>> {
    match v {
        Some(s) => Some(s@),
        None => None,
    }
}

/// Validate a WebSocket upgrade request, given the request method and the
/// relevant header values as the transport read them (`None` for a header
/// that is absent or whose value is not a valid string).
pub fn verify_upgrade(
    method: &str,
    upgrade: Option<&str>,
    connection: Option<&str>,
    version: Option<&str>,
    has_key: bool,
) -> (r: Result<(), HandshakeError>)
    ensures
        r == spec_verify_upgrade(
            method@,
            opt_view(upgrade),
            opt_view(connection),
            opt_view(version),
            has_key,
        ),
{
    if !str_eq(method, "GET") {
        return Err(HandshakeError::GetMethodRequired);
    }
    let upgrade_ok = match upgrade {
        Some(v) => str_contains_lowered(v, "websocket"),
        None => false,
    };
    if !upgrade_ok {
        return Err(HandshakeError::NoWebsocketUpgrade);
    }
    let connection_ok = match connection {
        Some(v) => str_contains_lowered(v, "upgrade"),
        None => false,
    };
    if !connection_ok {
        return Err(HandshakeError::NoConnectionUpgrade);
    }
    match version {
        None => Err(HandshakeError::NoVersionHeader),
        Some(v) => {
            if !(str_eq(v, "13") || str_eq(v, "8") || str_eq(v, "7")) {
                Err(HandshakeError::UnsupportedVersion)
            } else if !has_key {
                Err(HandshakeError::BadWebsocketKey)
            } else {
                Ok(())
            }
        },
    }
}

/// Handle an upgrade request: on a valid one a fresh open session — and
/// only then — comes to exist; on an invalid one the error says which
/// check failed and no session is created.
pub fn handle_upgrade(
    method: &str,
    upgrade: Option<&str>,
    connection: Option<&str>,
    version: Option<&str>,
    has_key: bool,
) -> (r: Result<Session, HandshakeError>)
    ensures
        ({
            let v = spec_verify_upgrade(
                method@,
                opt_view(upgrade),
                opt_view(connection),
                opt_view(version),
                has_key,
            );
            match r {
                Ok(s) => {
                    &&& v is Ok
                    &&& s.state == SessionState::Open
                    &&& !s.close_sent
                    &&& !s.pong_seen
                    &&& s.wf()
                },
                Err(e) => v == Err::<(), HandshakeError>(e),
            }
        }),
{
    match verify_upgrade(method, upgrade, connection, version, has_key) {
        Ok(()) => Ok(Session::new()),
        Err(e) => Err(e),
    }
}

} // verus!
