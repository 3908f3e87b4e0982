//! Real-time collaboration hub for a browser-based code editor.
//!
//! The library contains the verified core of the server: the wire codec for
//! the single-character-prefixed text protocol, the hub that tracks rooms of
//! editing sessions and routes file operations, the per-connection session
//! state machine with its heartbeat monitor, and the project/file service
//! logic. Transport, persistence and HTTP handling live outside the library
//! and talk to it through plain values.

pub mod codec;
pub mod hub;
pub mod models;
pub mod numbers;
pub mod protocol;
pub mod repositories;
pub mod services;
pub mod session;
pub mod tokens;

use vstd::prelude::*;

verus! {

/// A session identifier that the hub never hands out, used by sessions
/// whose registration has not completed yet.
pub const UNREGISTERED_SESSION_ID: i32 = 0;

} // verus!
