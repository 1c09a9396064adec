//! Connection-handling core for a WebSocket game-engine endpoint.
//!
//! The library verifies the logic that a server front end must get right:
//! routing requests to a static handler or an upgrade handler, validating
//! WebSocket upgrade requests, and driving each connection's session state
//! machine (liveness ping/pong, graceful shutdown, protocol-error teardown).
//! The surrounding process (socket I/O, the HTTP framework) lives outside
//! the library and only performs the actions this library decides on.

pub mod handshake;
pub mod router;
pub mod session;
pub mod text;
