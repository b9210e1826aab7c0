//! A socket-activated webhook daemon's core, verified.
//!
//! The library carries the two subsystems where the engineering risk lives.
//! The socket-activation handshake decides, from a one-shot snapshot of the
//! supervisor's environment entries, whether this process was handed exactly
//! one descriptor, claims the descriptor range with close-on-exec set, and
//! checks query by query that the descriptor is a listening UNIX stream
//! socket. The request pipeline screens each HTTP exchange before the body
//! is read, authenticates the body against a keyed SHA-256 signature header
//! in constant-time comparison, and routes the event to every configured
//! command that names it. The accept loop's idle-timeout shutdown is a small
//! state machine.
//!
//! Everything that reads the environment, performs system calls, or speaks
//! HTTP hands this library plain values and takes plain decisions back.

use vstd::prelude::*;

pub mod config;
pub mod headers;
pub mod hex;
pub mod request;
pub mod server_loop;
pub mod signature;
pub mod sockcheck;
pub mod systemd_socket;

verus! {

} // verus!
