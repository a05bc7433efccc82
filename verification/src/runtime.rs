//! The server runtime's state machine and the per-process application
//! state. The runtime's outside work — binding, accepting, awaiting — is
//! the caller's; the transitions it must follow are decided here.

use vstd::prelude::*;
use crate::config::Config;

verus! {

/// The per-process application state: the configuration, loaded once and
/// immutable afterwards.
pub struct AppData {
    pub config: Config,
}

/// The runtime's phases.
#[derive(Clone, Copy, PartialEq, Eq, Structural, Debug)]
pub enum ServerPhase {
    /// Resolving roots and binding the listener.
    Starting,
    /// Accepting connections up to the worker concurrency.
    Listening,
    /// A termination signal arrived: no new connections, in-flight
    /// requests run to completion.
    Draining,
    /// The process is done.
    Stopped,
}

/// What the outside loop reports back to the state machine.
#[derive(Clone, Copy, PartialEq, Eq, Structural, Debug)]
pub enum ServerEvent {
    /// The listener bound at the configured address and port.
    BindSucceeded,
    /// The bind failed: a startup-fatal condition.
    BindFailed,
    /// One connection was handled; its outcome never affects the runtime.
    ConnectionDone,
    /// A termination signal was received.
    TerminationSignal,
    /// The last in-flight request completed.
    InFlightDrained,
}

/// The transition table: bind outcomes leave Starting, connections keep
/// the runtime Listening, a termination signal starts the drain, and the
/// drain's end stops the process. Any other pairing leaves the phase
/// unchanged.
pub open spec fn spec_next_phase(phase: ServerPhase, event: ServerEvent) -> ServerPhase {
    match (phase, event) {
        (ServerPhase::Starting, ServerEvent::BindSucceeded) => ServerPhase::Listening,
        (ServerPhase::Starting, ServerEvent::BindFailed) => ServerPhase::Stopped,
        (ServerPhase::Listening, ServerEvent::ConnectionDone) => ServerPhase::Listening,
        (ServerPhase::Listening, ServerEvent::TerminationSignal) => ServerPhase::Draining,
        (ServerPhase::Draining, ServerEvent::InFlightDrained) => ServerPhase::Stopped,
        _ => phase,
    }
}

/// Steps the runtime's state machine by one observed event.
pub fn next_phase(phase: ServerPhase, event: ServerEvent) -> (next: ServerPhase)
    ensures
        next == spec_next_phase(phase, event),
{
    match (phase, event) {
        (ServerPhase::Starting, ServerEvent::BindSucceeded) => ServerPhase::Listening,
        (ServerPhase::Starting, ServerEvent::BindFailed) => ServerPhase::Stopped,
        (ServerPhase::Listening, ServerEvent::ConnectionDone) => ServerPhase::Listening,
        (ServerPhase::Listening, ServerEvent::TerminationSignal) => ServerPhase::Draining,
        (ServerPhase::Draining, ServerEvent::InFlightDrained) => ServerPhase::Stopped,
        (p, _) => p,
    }
}

/// Whether a failed bind ends the process: only a Starting-phase failure
/// is fatal; no per-request outcome ever is.
pub fn is_startup_fatal(phase: ServerPhase, event: ServerEvent) -> (r: bool)
    ensures
        r <==> (phase == ServerPhase::Starting && event == ServerEvent::BindFailed),
{
    match (phase, event) {
        (ServerPhase::Starting, ServerEvent::BindFailed) => true,
        _ => false,
    }
}

} // verus!
