//! The front-door router.
//!
//! The route table is fixed: `GET /` is answered statically with the
//! greeting body, `GET /game_engine` starts the WebSocket upgrade
//! handshake, and everything else is not found. Routing is pure — it
//! reads no shared state — so its outcome is the same whatever sessions
//! are open at the time.

use vstd::prelude::*;

use crate::handshake::HandshakeError;
use crate::handshake::handle_upgrade;
use crate::handshake::opt_view;
use crate::handshake::spec_verify_upgrade;
use crate::session::Session;
use crate::session::SessionState;
use crate::text::str_eq;

verus! {

/// Which handler a request is dispatched to.
#[derive(Clone, Copy, PartialEq, Eq, Structural, Debug)]
pub enum RouteDecision {
    /// `GET /`: the static greeting.
    StaticIndex,
    /// `GET /game_engine`: the WebSocket upgrade handler.
    GameEngineUpgrade,
    /// Any other method or path.
    NotFound,
}

/// The fixed route table, as a function of method and path.
pub open spec fn spec_route(method: Seq<char>, path: Seq<char>) -> RouteDecision {
    if method == "GET"@ {
        if path == "/"@ {
            RouteDecision::StaticIndex
        } else if path == "/game_engine"@ {
            RouteDecision::GameEngineUpgrade
        } else {
            RouteDecision::NotFound
        }
    } else {
        RouteDecision::NotFound
    }
}

/// The body of the static index response.
pub open spec fn spec_index_body() -> Seq<char> {
    "Hello World Learn Workspace"@
}

/// Dispatch a request by method and path.
pub fn route(method: &str, path: &str) -> (r: RouteDecision)
    ensures
        r == spec_route(method@, path@),
{
    if str_eq(method, "GET") {
        if str_eq(path, "/") {
            RouteDecision::StaticIndex
        } else if str_eq(path, "/game_engine") {
            RouteDecision::GameEngineUpgrade
        } else {
            RouteDecision::NotFound
        }
    } else {
        RouteDecision::NotFound
    }
}

/// The body served for `GET /`, always the same greeting.
pub fn index_body() -> (r: &'static str)
    ensures
        r@ == spec_index_body(),
{
    "Hello World Learn Workspace"
}

/// What the server answers to one request.
pub enum Dispatch {
    /// HTTP 200 with the greeting body.
    StaticOk,
    /// HTTP 101: the upgrade succeeded and this fresh session now runs.
    UpgradeAccepted(Session),
    /// HTTP 400: the upgrade was refused for this reason; no session
    /// exists.
    UpgradeRejected(HandshakeError),
    /// HTTP 404.
    NotFound,
}

/// Answer one request: serve the index statically, validate and answer an
/// upgrade request — spawning an open session exactly when the upgrade is
/// accepted — and answer anything else as not found.
pub fn handle_request(
    method: &str,
    path: &str,
    upgrade: Option<&str>,
    connection: Option<&str>,
    version: Option<&str>,
    has_key: bool,
) -> (r: Dispatch)
    ensures
        spec_route(method@, path@) == RouteDecision::StaticIndex ==> r is StaticOk,
        spec_route(method@, path@) == RouteDecision::NotFound ==> r is NotFound,
        spec_route(method@, path@) == RouteDecision::GameEngineUpgrade ==> ({
            let v = spec_verify_upgrade(
                method@,
                opt_view(upgrade),
                opt_view(connection),
                opt_view(version),
                has_key,
            );
            match r {
                Dispatch::UpgradeAccepted(s) => {
                    &&& v is Ok
                    &&& s.state == SessionState::Open
                    &&& !s.close_sent
                    &&& !s.pong_seen
                    &&& s.wf()
                },
                Dispatch::UpgradeRejected(e) => v == Err::<(), HandshakeError>(e),
                _ => false,
            }
        }),
{
    match route(method, path) {
        RouteDecision::StaticIndex => Dispatch::StaticOk,
        RouteDecision::GameEngineUpgrade => {
            match handle_upgrade(method, upgrade, connection, version, has_key) {
                Ok(s) => Dispatch::UpgradeAccepted(s),
                Err(e) => Dispatch::UpgradeRejected(e),
            }
        },
        RouteDecision::NotFound => Dispatch::NotFound,
    }
}

} // verus!
