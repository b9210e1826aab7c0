//! The top-level accept loop as a state machine.
//!
//! The loop listens for connections; each accepted connection is served by
//! its own concurrent task, so the loop itself returns to listening at once.
//! When an idle timeout is configured, every accept attempt races against
//! it, and its expiry is a designed, successful termination: the process
//! exits cleanly so the supervisor can relaunch it on the next connection.

use vstd::prelude::*;

verus! {

/// The state of the accept loop.
#[derive(Debug, Clone, Copy, PartialEq, Eq, Structural)]
pub enum LoopState {
    /// Waiting for the next connection.
    Listening,
    /// Terminal: the loop has given up the socket and the process ends.
    ShuttingDown,
}

/// What one accept attempt came back with.
#[derive(Debug, Clone, Copy, PartialEq, Eq, Structural)]
pub enum LoopEvent {
    /// A connection arrived.
    Accepted,
    /// The configured idle timeout expired with no connection.
    IdleTimeout,
    /// The accept call itself failed.
    AcceptFailed,
}

/// What the caller must do next.
#[derive(Debug, Clone, Copy, PartialEq, Eq, Structural)]
pub enum LoopAction {
    /// Serve the accepted connection on its own task and keep listening.
    ServeConnection,
    /// Terminate the process with a success exit code.
    ExitSuccess,
    /// Abort: accepting failed and the loop cannot continue.
    AbortAccept,
}

/// The accept loop: whether an idle timeout is configured, and its state.
#[derive(Debug, Clone, Copy)]
pub struct ConnLoop {
    pub idle_limited: bool,
    pub state: LoopState,
}

impl ConnLoop {
    /// Starts the loop, listening, with or without an idle timeout.
    pub fn new(idle_limited: bool) -> (c: Self)
        ensures
            c.idle_limited == idle_limited,
            c.state is Listening,
    {
        ConnLoop { idle_limited, state: LoopState::Listening }
    }

    /// Decides what one accept attempt's outcome means.
    ///
    /// A connection is served and the loop keeps listening; an idle timeout
    /// is a clean, successful shutdown; a failed accept aborts. A timeout
    /// event can only arise when an idle timeout is configured.
    pub fn on_accept(&mut self, ev: LoopEvent) -> (a: LoopAction)
        requires
            old(self).state is Listening,
            ev is IdleTimeout ==> old(self).idle_limited,
        ensures
            final(self).idle_limited == old(self).idle_limited,
            ev is Accepted ==> a is ServeConnection && final(self).state is Listening,
            ev is IdleTimeout ==> a is ExitSuccess && final(self).state is ShuttingDown,
            ev is AcceptFailed ==> a is AbortAccept && final(self).state is ShuttingDown,
    {
        match ev {
            LoopEvent::Accepted => LoopAction::ServeConnection,
            LoopEvent::IdleTimeout => {
                self.state = LoopState::ShuttingDown;
                LoopAction::ExitSuccess
            },
            LoopEvent::AcceptFailed => {
                self.state = LoopState::ShuttingDown;
                LoopAction::AbortAccept
            },
        }
    }
}

/// The process exit code an action prescribes: an idle-timeout shutdown is
/// success.
pub fn action_exit_code(a: &LoopAction) -> (c: Option<i32>)
    ensures
        a is ExitSuccess ==> c == Some(0int as i32),
        a is ServeConnection ==> c is None,
        a is AbortAccept ==> c is None,
{
    match a {
        LoopAction::ExitSuccess => Some(0),
        _ => None,
    }
}

} // verus!
