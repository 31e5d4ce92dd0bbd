//! What holds of every run of the wait-for-condition protocol.
//!
//! A run is the sequence of events fed to a wait, one after the other; its
//! trace is the phase reached and the sequence of actions asked for.

use crate::wait::{wait_next, WaitAction, WaitEvent, WaitPhase};
use vstd::prelude::*;

verus! {

/// The phase reached and the actions requested, oldest first.
pub struct WaitTrace<E> {
    pub phase: WaitPhase,
    pub actions: Seq<WaitAction<E>>,
}

/// What happens when `events` are fed, in order, to a wait that stands at `phase`.
pub open spec fn wait_run<E>(phase: WaitPhase, events: Seq<WaitEvent<E>>, interval_ms: u32) -> WaitTrace<E>
    decreases events.len(),
{
    if events.len() == 0 {
        WaitTrace { phase, actions: Seq::empty() }
    } else {
        let before = wait_run(phase, events.drop_last(), interval_ms);
        let step = wait_next(before.phase, events.last(), interval_ms);
        WaitTrace { phase: step.next, actions: before.actions.push(step.action) }
    }
}

/// Whether `event` answers the request that is outstanding in `phase`.
pub open spec fn wait_answers<E>(phase: WaitPhase, event: WaitEvent<E>) -> bool {
    match phase {
        WaitPhase::Polling => event is Polled,
        WaitPhase::Pausing => event is Slept,
        _ => false,
    }
}

/// Whether each of `events` answers the request that is outstanding when it arrives.
pub open spec fn wait_in_step<E>(phase: WaitPhase, events: Seq<WaitEvent<E>>, interval_ms: u32) -> bool
    decreases events.len(),
{
    events.len() == 0 || {
        &&& wait_in_step(phase, events.drop_last(), interval_ms)
        &&& wait_answers(wait_run(phase, events.drop_last(), interval_ms).phase, events.last())
    }
}

/// How many pauses `actions` ask for.
pub open spec fn pauses_in<E>(actions: Seq<WaitAction<E>>) -> nat
    decreases actions.len(),
{
    if actions.len() == 0 {
        0
    } else {
        pauses_in(actions.drop_last()) + if actions.last() is Sleep { 1nat } else { 0nat }
    }
}

/// How many queries `actions` ask for.
pub open spec fn polls_in<E>(actions: Seq<WaitAction<E>>) -> nat
    decreases actions.len(),
{
    if actions.len() == 0 {
        0
    } else {
        polls_in(actions.drop_last()) + if actions.last() is Poll { 1nat } else { 0nat }
    }
}

/// How many of `events` are the answer `false`.
pub open spec fn false_answers<E>(events: Seq<WaitEvent<E>>) -> nat
    decreases events.len(),
{
    if events.len() == 0 {
        0
    } else {
        false_answers(events.drop_last()) + if events.last() == WaitEvent::<E>::Polled(Ok(false)) {
            1nat
        } else {
            0nat
        }
    }
}

/// `rounds` times the answer `false`, each followed by the end of its pause.
pub open spec fn stalls<E>(rounds: nat) -> Seq<WaitEvent<E>>
    decreases rounds,
{
    if rounds == 0 {
        Seq::empty()
    } else {
        stalls::<E>((rounds - 1) as nat).push(WaitEvent::Polled(Ok(false))).push(WaitEvent::Slept)
    }
}

/// `rounds` times a pause of `interval_ms`, each followed by a new query.
pub open spec fn stall_actions<E>(rounds: nat, interval_ms: u32) -> Seq<WaitAction<E>>
    decreases rounds,
{
    if rounds == 0 {
        Seq::empty()
    } else {
        stall_actions::<E>((rounds - 1) as nat, interval_ms).push(WaitAction::Sleep(interval_ms)).push(
            WaitAction::Poll,
        )
    }
}

/// `rounds` rounds ask for `rounds` pauses and `rounds` queries.
proof fn lemma_stall_counts<E>(rounds: nat, interval_ms: u32)
    ensures
        pauses_in(stall_actions::<E>(rounds, interval_ms)) == rounds,
        polls_in(stall_actions::<E>(rounds, interval_ms)) == rounds,
    decreases rounds,
{
    if rounds > 0 {
        let shorter = stall_actions::<E>((rounds - 1) as nat, interval_ms);
        let paused = shorter.push(WaitAction::Sleep(interval_ms));
        lemma_stall_counts::<E>((rounds - 1) as nat, interval_ms);
        assert(paused.drop_last() == shorter);
        assert(pauses_in(paused) == rounds);
        assert(polls_in(paused) == rounds - 1);
        assert(stall_actions::<E>(rounds, interval_ms).drop_last() == paused);
    }
}

/// The opening query is the first request of a wait, and from then on queries
/// and pauses alternate: counting the opening query, there has been one query
/// more than there were pauses, except while a pause is outstanding, when there
/// have been as many. So no pause is ever requested before a query.
pub proof fn law_poll_before_pause<E>(events: Seq<WaitEvent<E>>, interval_ms: u32)
    ensures
        ({
            let trace = wait_run(WaitPhase::Polling, events, interval_ms);
            1 + polls_in(trace.actions) == pauses_in(trace.actions) + if trace.phase
                == WaitPhase::Pausing {
                0nat
            } else {
                1nat
            }
        }),
    decreases events.len(),
{
    if events.len() > 0 {
        law_poll_before_pause(events.drop_last(), interval_ms);
        let before = wait_run(WaitPhase::Polling, events.drop_last(), interval_ms);
        let step = wait_next(before.phase, events.last(), interval_ms);
        assert(before.actions.push(step.action).drop_last() == before.actions);
    }
}

/// A wait pauses once for every answer `false` that it takes, for the given
/// interval, and at no other time: the pauses requested never outnumber the
/// `false` answers fed in, and equal them when every event answers the request
/// that was outstanding.
pub proof fn law_one_pause_per_false_answer<E>(
    phase: WaitPhase,
    events: Seq<WaitEvent<E>>,
    interval_ms: u32,
)
    ensures
        pauses_in(wait_run(phase, events, interval_ms).actions) <= false_answers(events),
        wait_in_step(phase, events, interval_ms) ==> pauses_in(
            wait_run(phase, events, interval_ms).actions,
        ) == false_answers(events),
        forall|i: int|
            0 <= i < events.len() && #[trigger] wait_run(phase, events, interval_ms).actions[i] is Sleep
                ==> events[i] == WaitEvent::<E>::Polled(Ok(false)) && wait_run(
                phase,
                events,
                interval_ms,
            ).actions[i] == WaitAction::<E>::Sleep(interval_ms),
        wait_run(phase, events, interval_ms).actions.len() == events.len(),
    decreases events.len(),
{
    if events.len() > 0 {
        law_one_pause_per_false_answer(phase, events.drop_last(), interval_ms);
        let before = wait_run(phase, events.drop_last(), interval_ms);
        let step = wait_next(before.phase, events.last(), interval_ms);
        assert(before.actions.push(step.action).drop_last() == before.actions);
    }
}

/// While the condition keeps answering `false`, the wait keeps going round:
/// after any number of rounds a query is outstanding again, and each round has
/// asked for one pause of the interval and one new query.
pub proof fn law_wait_keeps_polling<E>(rounds: nat, interval_ms: u32)
    ensures
        wait_run(WaitPhase::Polling, stalls::<E>(rounds), interval_ms).phase == WaitPhase::Polling,
        wait_run(WaitPhase::Polling, stalls::<E>(rounds), interval_ms).actions == stall_actions::<E>(
            rounds,
            interval_ms,
        ),
    decreases rounds,
{
    if rounds > 0 {
        let shorter = stalls::<E>((rounds - 1) as nat);
        let refused = shorter.push(WaitEvent::Polled(Ok(false)));
        law_wait_keeps_polling::<E>((rounds - 1) as nat, interval_ms);
        assert(refused.drop_last() == shorter);
        assert(wait_run(WaitPhase::Polling, refused, interval_ms).phase == WaitPhase::Pausing);
        assert(stalls::<E>(rounds).drop_last() == refused);
    }
}

/// A condition that answers `false` any number of times and then `true` ends
/// the wait with success, after exactly that many pauses and, the opening query
/// apart, that many queries.
pub proof fn law_wait_succeeds<E>(rounds: nat, interval_ms: u32)
    ensures
        ({
            let events = stalls::<E>(rounds).push(WaitEvent::Polled(Ok(true)));
            let trace = wait_run(WaitPhase::Polling, events, interval_ms);
            &&& trace.phase == WaitPhase::Satisfied
            &&& trace.actions == stall_actions::<E>(rounds, interval_ms).push(WaitAction::Finish(Ok(())))
            &&& pauses_in(trace.actions) == rounds
            &&& polls_in(trace.actions) == rounds
        }),
{
    let events = stalls::<E>(rounds).push(WaitEvent::Polled(Ok(true)));
    law_wait_keeps_polling::<E>(rounds, interval_ms);
    assert(events.drop_last() == stalls::<E>(rounds));
    lemma_stall_counts::<E>(rounds, interval_ms);
    let trace = wait_run(WaitPhase::Polling, events, interval_ms);
    assert(trace.actions.drop_last() == stall_actions::<E>(rounds, interval_ms));
}

/// A query that fails ends the wait at once with that error, whatever came before.
pub proof fn law_wait_fails_fast<E>(rounds: nat, error: E, interval_ms: u32)
    ensures
        ({
            let events = stalls::<E>(rounds).push(WaitEvent::Polled(Err(error)));
            let trace = wait_run(WaitPhase::Polling, events, interval_ms);
            &&& trace.phase == WaitPhase::Failed
            &&& trace.actions == stall_actions::<E>(rounds, interval_ms).push(
                WaitAction::Finish(Err(error)),
            )
        }),
{
    let events = stalls::<E>(rounds).push(WaitEvent::Polled(Err(error)));
    law_wait_keeps_polling::<E>(rounds, interval_ms);
    assert(events.drop_last() == stalls::<E>(rounds));
}

/// Once a wait is over, nothing moves it and it asks for nothing.
pub proof fn law_wait_stays_finished<E>(phase: WaitPhase, events: Seq<WaitEvent<E>>, interval_ms: u32)
    requires
        phase == WaitPhase::Satisfied || phase == WaitPhase::Failed,
    ensures
        wait_run(phase, events, interval_ms).phase == phase,
        forall|i: int|
            0 <= i < events.len() ==> #[trigger] wait_run(phase, events, interval_ms).actions[i]
                == WaitAction::<E>::Nothing,
        wait_run(phase, events, interval_ms).actions.len() == events.len(),
    decreases events.len(),
{
    if events.len() > 0 {
        law_wait_stays_finished(phase, events.drop_last(), interval_ms);
    }
}

} // verus!
