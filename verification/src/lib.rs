//! A minimal liveness-probe HTTP service: a listener lifecycle and a single
//! route, `GET /health`, answered with status 200 and body `OK`; every other
//! request is answered with status 404.
//!
//! The networking itself (binding a TCP socket, reading requests, writing
//! responses) lives outside this crate. Here stand the decisions the service
//! makes, verified: which response a request gets, and how the listener's
//! state moves when a bind attempt succeeds or fails.

pub mod http;
pub mod listener;
pub mod routing;
