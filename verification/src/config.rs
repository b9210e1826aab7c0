//! Application configuration.
//!
//! The configuration is loaded once at startup and never mutated afterwards;
//! every connection shares the same read-only snapshot.

use vstd::prelude::*;

verus! {

/// An event-command pair. The command is run whenever a webhook with the
/// matching event name is received.
#[derive(Debug, Clone, PartialEq, Eq)]
pub struct Command {
    /// The name of a webhook event.
    pub event: String,
    /// Path to the program to execute when the event occurs.
    pub command: String,
    /// Additional arguments to pass to the program.
    pub args: Vec<String>,
}

/// All the application configuration.
#[derive(Debug, Clone, PartialEq, Eq)]
pub struct Config {
    /// Path to the file holding the shared secret.
    pub secret_path: String,
    /// The secret shared with the webhook sender, used to verify signatures.
    pub secret: String,
    /// Event-command pairs matched against each incoming webhook.
    pub commands: Vec<Command>,
    /// Maximum idle time in milliseconds the server waits for a connection
    /// before shutting itself down; unlimited when absent.
    pub max_idle_ms: Option<u64>,
}

} // verus!
