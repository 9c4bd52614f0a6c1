//! What the daemon does on each Unix signal it listens for.

use vstd::prelude::*;

verus! {

/// The signals the daemon listens for.
#[derive(Clone, Copy, Debug, PartialEq, Eq, Structural)]
pub enum UnixSignal {
    /// `SIGTERM`.
    Terminate,
    /// `SIGINT`.
    Interrupt,
    /// `SIGUSR1`.
    User1,
    /// `SIGHUP`.
    Hangup,
}

/// What a signal asks of the daemon.
#[derive(Clone, Copy, Debug, PartialEq, Eq, Structural)]
pub enum SignalAction {
    /// Shut down gracefully.
    Shutdown,
    /// Reload the configuration.
    Reload,
}

/// The action a signal asks for: termination and interruption shut down, the user
/// signal and hang-up reload the configuration.
pub open spec fn action_of(s: UnixSignal) -> SignalAction {
    match s {
        UnixSignal::Terminate | UnixSignal::Interrupt => SignalAction::Shutdown,
        UnixSignal::User1 | UnixSignal::Hangup => SignalAction::Reload,
    }
}

/// The action a signal asks for.
pub fn signal_action(s: UnixSignal) -> (r: SignalAction)
    ensures
        r == action_of(s),
{
    match s {
        UnixSignal::Terminate | UnixSignal::Interrupt => SignalAction::Shutdown,
        UnixSignal::User1 | UnixSignal::Hangup => SignalAction::Reload,
    }
}

/// Whether the signal handler stops listening after the signal: it does after a
/// shutdown request.
pub fn stops_listening(s: UnixSignal) -> (r: bool)
    ensures
        r == (action_of(s) == SignalAction::Shutdown),
{
    match signal_action(s) {
        SignalAction::Shutdown => true,
        SignalAction::Reload => false,
    }
}

} // verus!
