//! The wait-for-condition protocol: query a condition, pause a fixed interval
//! after every `false`, stop at the first `true` or at the first error.
//!
//! There is no retry limit and no timeout: as long as the condition answers
//! `false`, the wait goes on.

use vstd::prelude::*;

verus! {

/// Where one wait stands.
#[derive(Clone, Copy, Debug, PartialEq, Eq, Structural)]
pub enum WaitPhase {
    /// The condition has been queried and its answer is outstanding.
    Polling,
    /// The condition answered `false`; the pause before the next query is outstanding.
    Pausing,
    /// The condition answered `true`.
    Satisfied,
    /// A query failed.
    Failed,
}

/// What the driver hands back to a wait.
#[derive(Debug, PartialEq, Eq)]
pub enum WaitEvent<E> {
    /// The answer to the query that was requested last.
    Polled(Result<bool, E>),
    /// The pause that was requested last has elapsed.
    Slept,
}

/// What a wait asks of its driver.
#[derive(Debug, PartialEq, Eq)]
pub enum WaitAction<E> {
    /// Query the condition and hand back `WaitEvent::Polled`.
    Poll,
    /// Pause for this many milliseconds and hand back `WaitEvent::Slept`.
    Sleep(u32),
    /// The wait is over, with this result.
    Finish(Result<(), E>),
    /// The event answered no outstanding request; there is nothing to do.
    Nothing,
}

/// The outcome of one step of a wait.
#[derive(Debug, PartialEq, Eq)]
pub struct WaitStep<E> {
    /// The phase to hand in with the next event.
    pub next: WaitPhase,
    /// What to do now.
    pub action: WaitAction<E>,
}

/// The transition function of the protocol.
///
/// An event that does not answer the outstanding request, and any event once the
/// wait is over, leaves the phase as it is and asks for nothing.
pub open spec fn wait_next<E>(phase: WaitPhase, event: WaitEvent<E>, interval_ms: u32) -> WaitStep<E> {
    match (phase, event) {
        (WaitPhase::Polling, WaitEvent::Polled(Ok(true))) => WaitStep {
            next: WaitPhase::Satisfied,
            action: WaitAction::Finish(Ok(())),
        },
        (WaitPhase::Polling, WaitEvent::Polled(Ok(false))) => WaitStep {
            next: WaitPhase::Pausing,
            action: WaitAction::Sleep(interval_ms),
        },
        (WaitPhase::Polling, WaitEvent::Polled(Err(e))) => WaitStep {
            next: WaitPhase::Failed,
            action: WaitAction::Finish(Err(e)),
        },
        (WaitPhase::Pausing, WaitEvent::Slept) => WaitStep {
            next: WaitPhase::Polling,
            action: WaitAction::Poll,
        },
        _ => WaitStep { next: phase, action: WaitAction::Nothing },
    }
}

/// Opens a wait: the condition is queried before anything else happens.
pub fn wait_begin<E>() -> (step: WaitStep<E>)
    ensures
        step.next == WaitPhase::Polling,
        step.action == WaitAction::<E>::Poll,
{
    WaitStep { next: WaitPhase::Polling, action: WaitAction::Poll }
}

/// Advances a wait by one event.
pub fn wait_step<E>(phase: WaitPhase, event: WaitEvent<E>, interval_ms: u32) -> (step: WaitStep<E>)
    ensures
        step == wait_next(phase, event, interval_ms),
{
    match phase {
        WaitPhase::Polling => match event {
            WaitEvent::Polled(answer) => match answer {
                Ok(ready) => {
                    if ready {
                        WaitStep { next: WaitPhase::Satisfied, action: WaitAction::Finish(Ok(())) }
                    } else {
                        WaitStep { next: WaitPhase::Pausing, action: WaitAction::Sleep(interval_ms) }
                    }
                },
                Err(e) => WaitStep { next: WaitPhase::Failed, action: WaitAction::Finish(Err(e)) },
            },
            WaitEvent::Slept => WaitStep { next: phase, action: WaitAction::Nothing },
        },
        WaitPhase::Pausing => match event {
            WaitEvent::Slept => WaitStep { next: WaitPhase::Polling, action: WaitAction::Poll },
            WaitEvent::Polled(_) => WaitStep { next: phase, action: WaitAction::Nothing },
        },
        _ => WaitStep { next: phase, action: WaitAction::Nothing },
    }
}

} // verus!
