//! The lifecycle wrapper's decision logic. A managed terminal session runs
//! init, the user callback, then shutdown; the one decision it makes is how
//! to wind down once the callback has finished or faulted. The runner that
//! owns the real terminal performs the chosen wind-down: it shuts the
//! library down on every exit path, and logs a diagnostic instead of letting
//! a callback fault propagate past the session.

use vstd::prelude::*;

verus! {

/// How the user callback of a managed session ended: it either ran to
/// completion or raised an internal fault.
#[derive(Clone, Copy, Debug, PartialEq, Eq, Structural)]
pub enum session_outcome {
    completed,
    faulted,
}

/// What the session does after the callback: both variants shut the
/// terminal library down, and neither re-raises the callback's fault — a
/// fault is reported as a logged error and swallowed.
#[derive(Clone, Copy, Debug, PartialEq, Eq, Structural)]
pub enum wind_down {
    shutdown_quietly,
    shutdown_and_log_error,
}

/// The wind-down owed to each callback outcome.
pub open spec fn wind_down_of(outcome: session_outcome) -> wind_down {
    match outcome {
        session_outcome::completed => wind_down::shutdown_quietly,
        session_outcome::faulted => wind_down::shutdown_and_log_error,
    }
}

/// Decide the wind-down of a managed session from the callback's outcome:
/// shutdown runs either way, and an error is logged exactly when the
/// callback faulted.
pub fn with_term_wind_down(outcome: session_outcome) -> (r: wind_down)
    ensures
        r == wind_down_of(outcome),
        r == wind_down::shutdown_and_log_error <==> outcome == session_outcome::faulted,
{
    match outcome {
        session_outcome::completed => wind_down::shutdown_quietly,
        session_outcome::faulted => wind_down::shutdown_and_log_error,
    }
}

/// Every callback outcome — completion or fault alike — is mapped to one of
/// the two wind-downs, each of which shuts the library down exactly once
/// and returns to the caller rather than propagating a fault.
pub proof fn lemma_wind_down_total(outcome: session_outcome)
    ensures
        wind_down_of(outcome) == wind_down::shutdown_quietly || wind_down_of(outcome)
            == wind_down::shutdown_and_log_error,
        outcome == session_outcome::faulted ==> wind_down_of(outcome)
            == wind_down::shutdown_and_log_error,
{
}

} // verus!
