//! What holds of every run of the acquisition loop.
//!
//! A run is the sequence of events fed to the loop, one after the other; its
//! trace is the phase reached, the lines reported and the sequence of actions
//! asked for.

use crate::acquisition::{
    acquire_next, AcquireAction, AcquireEvent, AcquirePhase, Fatal, Measurement, SAMPLE_PERIOD_MS,
};
use vstd::prelude::*;

verus! {

/// The phase reached, the lines reported and the actions requested, oldest first.
pub struct AcquireTrace<E> {
    pub phase: AcquirePhase,
    pub reports: Seq<Seq<char>>,
    pub actions: Seq<AcquireAction<E>>,
}

/// What happens when `events` are fed, in order, to a loop that stands at `phase`.
pub open spec fn acquire_run<E>(phase: AcquirePhase, events: Seq<AcquireEvent<E>>) -> AcquireTrace<E>
    decreases events.len(),
{
    if events.len() == 0 {
        AcquireTrace { phase, reports: Seq::empty(), actions: Seq::empty() }
    } else {
        let before = acquire_run(phase, events.drop_last());
        let step = acquire_next(before.phase, events.last());
        AcquireTrace {
            phase: step.next,
            reports: before.reports + reported(step.report),
            actions: before.actions.push(step.action),
        }
    }
}

/// The lines that one step adds to a trace.
pub open spec fn reported(report: Option<Seq<char>>) -> Seq<Seq<char>> {
    match report {
        Some(line) => seq![line],
        None => Seq::empty(),
    }
}

/// The report lines of `measurements`, in order.
pub open spec fn lines_of(measurements: Seq<Measurement>) -> Seq<Seq<char>> {
    measurements.map_values(|measurement: Measurement| measurement.line())
}

/// How many measurements `actions` ask for.
pub open spec fn measurements_in<E>(actions: Seq<AcquireAction<E>>) -> nat
    decreases actions.len(),
{
    if actions.len() == 0 {
        0
    } else {
        measurements_in(actions.drop_last()) + if actions.last() is Measure { 1nat } else { 0nat }
    }
}

/// How many pauses `actions` ask for.
pub open spec fn pauses_in<E>(actions: Seq<AcquireAction<E>>) -> nat
    decreases actions.len(),
{
    if actions.len() == 0 {
        0
    } else {
        pauses_in(actions.drop_last()) + if actions.last() is Sleep { 1nat } else { 0nat }
    }
}

/// The events of a loop that starts and samples without a fault: the sensor is
/// initialised, then each of `measurements` is read in turn and followed by the
/// end of its pause.
pub open spec fn samples<E>(measurements: Seq<Measurement>) -> Seq<AcquireEvent<E>>
    decreases measurements.len(),
{
    if measurements.len() == 0 {
        seq![AcquireEvent::Initialized(Ok(()))]
    } else {
        samples::<E>(measurements.drop_last()).push(
            AcquireEvent::Measured(Ok(measurements.last())),
        ).push(AcquireEvent::Slept)
    }
}

/// The requests that answer [`samples`], after the opening `Initialize`: the
/// first measurement, then `rounds` times a pause of the sample period followed
/// by a new measurement.
pub open spec fn sample_actions<E>(rounds: nat) -> Seq<AcquireAction<E>>
    decreases rounds,
{
    if rounds == 0 {
        seq![AcquireAction::Measure]
    } else {
        sample_actions::<E>((rounds - 1) as nat).push(AcquireAction::Sleep(SAMPLE_PERIOD_MS)).push(
            AcquireAction::Measure,
        )
    }
}

/// Feeding `head + tail` is feeding `head`, then feeding `tail` from where `head` led.
pub proof fn lemma_acquire_run_concat<E>(
    phase: AcquirePhase,
    head: Seq<AcquireEvent<E>>,
    tail: Seq<AcquireEvent<E>>,
)
    ensures
        acquire_run(phase, head + tail).phase == acquire_run(acquire_run(phase, head).phase, tail).phase,
        acquire_run(phase, head + tail).reports == acquire_run(phase, head).reports + acquire_run(
            acquire_run(phase, head).phase,
            tail,
        ).reports,
        acquire_run(phase, head + tail).actions == acquire_run(phase, head).actions + acquire_run(
            acquire_run(phase, head).phase,
            tail,
        ).actions,
    decreases tail.len(),
{
    if tail.len() == 0 {
        assert(head + tail == head);
    } else {
        assert((head + tail).drop_last() == head + tail.drop_last());
        lemma_acquire_run_concat(phase, head, tail.drop_last());
    }
}

/// Feeding one more event takes one more step.
pub proof fn lemma_acquire_run_push<E>(
    phase: AcquirePhase,
    events: Seq<AcquireEvent<E>>,
    event: AcquireEvent<E>,
)
    ensures
        ({
            let before = acquire_run(phase, events);
            let step = acquire_next(before.phase, event);
            let trace = acquire_run(phase, events.push(event));
            &&& trace.phase == step.next
            &&& trace.reports == before.reports + reported(step.report)
            &&& trace.actions == before.actions.push(step.action)
            &&& trace.actions.len() == events.len() + 1
            &&& measurements_in(trace.actions) == measurements_in(before.actions)
                + if step.action is Measure {
                1nat
            } else {
                0nat
            }
            &&& pauses_in(trace.actions) == pauses_in(before.actions) + if step.action is Sleep {
                1nat
            } else {
                0nat
            }
        }),
{
    assert(events.push(event).drop_last() == events);
    lemma_acquire_run_length(phase, events);
    let before = acquire_run(phase, events);
    let step = acquire_next(before.phase, event);
    assert(before.actions.push(step.action).drop_last() == before.actions);
}

/// A trace holds one action for every event.
pub proof fn lemma_acquire_run_length<E>(phase: AcquirePhase, events: Seq<AcquireEvent<E>>)
    ensures
        acquire_run(phase, events).actions.len() == events.len(),
    decreases events.len(),
{
    if events.len() > 0 {
        lemma_acquire_run_length(phase, events.drop_last());
    }
}

/// Counting distributes over concatenation.
proof fn lemma_measurements_concat<E>(head: Seq<AcquireAction<E>>, tail: Seq<AcquireAction<E>>)
    ensures
        measurements_in(head + tail) == measurements_in(head) + measurements_in(tail),
    decreases tail.len(),
{
    if tail.len() == 0 {
        assert(head + tail == head);
    } else {
        assert((head + tail).drop_last() == head + tail.drop_last());
        lemma_measurements_concat(head, tail.drop_last());
    }
}

/// Equal readings are reported alike: the report line depends on nothing but
/// the text of the three quantities, and the step that takes a reading depends
/// on nothing but its line.
pub proof fn law_equal_readings_report_alike<E>(first: Measurement, second: Measurement)
    requires
        first.temperature@ == second.temperature@,
        first.pressure@ == second.pressure@,
        first.humidity@ == second.humidity@,
    ensures
        first.line() == second.line(),
        acquire_next(AcquirePhase::Measuring, AcquireEvent::<E>::Measured(Ok(first))).report == Some(
            first.line(),
        ),
        acquire_next(AcquirePhase::Measuring, AcquireEvent::<E>::Measured(Ok(first)))
            == acquire_next(AcquirePhase::Measuring, AcquireEvent::<E>::Measured(Ok(second))),
{
}

/// As long as every measurement succeeds, the loop goes on. Whatever the
/// readings and however many: each is reported as its own line, in order; each
/// is followed by one pause of the sample period and then by the next
/// measurement; and the loop does not halt.
pub proof fn law_sampling_goes_on<E>(measurements: Seq<Measurement>)
    ensures
        ({
            let trace = acquire_run(AcquirePhase::Initializing, samples::<E>(measurements));
            &&& trace.phase == AcquirePhase::Measuring
            &&& trace.reports == lines_of(measurements)
            &&& trace.actions == sample_actions::<E>(measurements.len())
            &&& measurements_in(trace.actions) == measurements.len() + 1
            &&& pauses_in(trace.actions) == measurements.len()
        }),
    decreases measurements.len(),
{
    let start = AcquirePhase::Initializing;
    if measurements.len() > 0 {
        let earlier = samples::<E>(measurements.drop_last());
        let reading = AcquireEvent::<E>::Measured(Ok(measurements.last()));
        law_sampling_goes_on::<E>(measurements.drop_last());
        lemma_acquire_run_push(start, earlier, reading);
        lemma_acquire_run_push(start, earlier.push(reading), AcquireEvent::Slept);
        assert(lines_of(measurements) == lines_of(measurements.drop_last()).push(
            measurements.last().line(),
        ));
    } else {
        let nothing = Seq::<AcquireEvent<E>>::empty();
        assert(acquire_run(start, nothing).phase == start);
        assert(measurements_in(acquire_run(start, nothing).actions) == 0);
        assert(pauses_in(acquire_run(start, nothing).actions) == 0);
        assert(samples::<E>(measurements) == nothing.push(AcquireEvent::Initialized(Ok(()))));
        lemma_acquire_run_push(start, nothing, AcquireEvent::Initialized(Ok(())));
        assert(acquire_run(start, samples::<E>(measurements)).reports == lines_of(measurements));
    }
}

/// Once the loop has halted it stays halted: it reports nothing and asks for
/// nothing, whatever is fed to it.
pub proof fn law_halt_is_final<E>(events: Seq<AcquireEvent<E>>)
    ensures
        acquire_run(AcquirePhase::Halted, events).phase == AcquirePhase::Halted,
        acquire_run(AcquirePhase::Halted, events).reports == Seq::<Seq<char>>::empty(),
        acquire_run(AcquirePhase::Halted, events).actions.len() == events.len(),
        forall|i: int|
            0 <= i < events.len() ==> #[trigger] acquire_run(AcquirePhase::Halted, events).actions[i]
                == AcquireAction::<E>::Nothing,
        measurements_in(acquire_run(AcquirePhase::Halted, events).actions) == 0,
        pauses_in(acquire_run(AcquirePhase::Halted, events).actions) == 0,
    decreases events.len(),
{
    if events.len() > 0 {
        law_halt_is_final(events.drop_last());
        assert(events == events.drop_last().push(events.last()));
        lemma_acquire_run_push(AcquirePhase::Halted, events.drop_last(), events.last());
    }
}

/// A measurement that fails is fatal. Whatever the loop has done before, the
/// failure halts it at once: the lines reported so far are all there will ever
/// be, and no further measurement is asked for, whatever is fed in afterwards.
pub proof fn law_failed_measurement_halts<E>(
    before: Seq<AcquireEvent<E>>,
    error: E,
    after: Seq<AcquireEvent<E>>,
)
    requires
        acquire_run(AcquirePhase::Initializing, before).phase == AcquirePhase::Measuring,
    ensures
        ({
            let reached = acquire_run(AcquirePhase::Initializing, before);
            let events = before.push(AcquireEvent::Measured(Err(error))) + after;
            let trace = acquire_run(AcquirePhase::Initializing, events);
            &&& trace.phase == AcquirePhase::Halted
            &&& trace.reports == reached.reports
            &&& trace.actions.len() == events.len()
            &&& trace.actions.subrange(0, before.len() as int) == reached.actions
            &&& trace.actions[before.len() as int] == AcquireAction::Halt(Fatal::Measurement(error))
            &&& forall|i: int|
                before.len() < i < events.len() ==> #[trigger] trace.actions[i]
                    == AcquireAction::<E>::Nothing
            &&& measurements_in(trace.actions) == measurements_in(reached.actions)
        }),
{
    let start = AcquirePhase::Initializing;
    let reached = acquire_run(start, before);
    let failure = AcquireEvent::Measured(Err(error));
    let failed = before.push(failure);
    lemma_acquire_run_push(start, before, failure);
    let at_failure = acquire_run(start, failed);
    law_halt_is_final(after);
    lemma_acquire_run_concat(start, failed, after);
    let rest = acquire_run(AcquirePhase::Halted, after);
    lemma_measurements_concat(at_failure.actions, rest.actions);
    let trace = acquire_run(start, failed + after);
    assert(trace.reports == reached.reports);
    assert(trace.actions.subrange(0, before.len() as int) == reached.actions);
    assert forall|i: int| before.len() < i < (failed + after).len() implies #[trigger] trace.actions[i]
        == AcquireAction::<E>::Nothing by {
        assert(trace.actions[i] == rest.actions[i - failed.len()]);
    }
}

/// A loop that has read any number of measurements and then meets a failed one
/// has reported one line for each measurement that succeeded, and those remain
/// all its lines: it halts on the failure and never measures again.
pub proof fn law_fault_ends_reporting<E>(
    measurements: Seq<Measurement>,
    error: E,
    after: Seq<AcquireEvent<E>>,
)
    ensures
        ({
            let events = samples::<E>(measurements).push(AcquireEvent::Measured(Err(error))) + after;
            let trace = acquire_run(AcquirePhase::Initializing, events);
            &&& trace.phase == AcquirePhase::Halted
            &&& trace.reports == lines_of(measurements)
            &&& trace.reports.len() == measurements.len()
            &&& measurements_in(trace.actions) == measurements.len() + 1
        }),
{
    law_sampling_goes_on::<E>(measurements);
    law_failed_measurement_halts(samples::<E>(measurements), error, after);
}

/// If the sensor cannot be initialised, the loop is never entered: it halts at
/// once, and whatever is fed in afterwards, no measurement is ever asked for
/// and no line is ever reported.
pub proof fn law_failed_init_prevents_sampling<E>(error: E, after: Seq<AcquireEvent<E>>)
    ensures
        ({
            let events = seq![AcquireEvent::Initialized(Err(error))] + after;
            let trace = acquire_run(AcquirePhase::Initializing, events);
            &&& trace.phase == AcquirePhase::Halted
            &&& trace.reports == Seq::<Seq<char>>::empty()
            &&& trace.actions.len() == events.len()
            &&& trace.actions[0] == AcquireAction::Halt(Fatal::SensorInit(error))
            &&& forall|i: int|
                0 < i < events.len() ==> #[trigger] trace.actions[i] == AcquireAction::<E>::Nothing
            &&& measurements_in(trace.actions) == 0
            &&& pauses_in(trace.actions) == 0
        }),
{
    let start = AcquirePhase::Initializing;
    let failure = AcquireEvent::Initialized(Err(error));
    let nothing = Seq::<AcquireEvent<E>>::empty();
    assert(acquire_run(start, nothing).phase == start);
    assert(acquire_run(start, nothing).reports == Seq::<Seq<char>>::empty());
    assert(measurements_in(acquire_run(start, nothing).actions) == 0);
    assert(pauses_in(acquire_run(start, nothing).actions) == 0);
    assert(seq![failure] == nothing.push(failure));
    lemma_acquire_run_push(start, nothing, failure);
    let at_failure = acquire_run(start, seq![failure]);
    law_halt_is_final(after);
    lemma_acquire_run_concat(start, seq![failure], after);
    let rest = acquire_run(AcquirePhase::Halted, after);
    lemma_measurements_concat(at_failure.actions, rest.actions);
    lemma_pauses_concat(at_failure.actions, rest.actions);
    let trace = acquire_run(start, seq![failure] + after);
    assert forall|i: int| 0 < i < (seq![failure] + after).len() implies #[trigger] trace.actions[i]
        == AcquireAction::<E>::Nothing by {
        assert(trace.actions[i] == rest.actions[i - 1]);
    }
}

/// The sensor is initialised once: the loop asks for it at its opening and
/// never again, whatever is fed to it.
pub proof fn law_sensor_is_initialised_once<E>(phase: AcquirePhase, events: Seq<AcquireEvent<E>>)
    ensures
        acquire_run(phase, events).actions.len() == events.len(),
        forall|i: int|
            0 <= i < events.len() ==> #[trigger] acquire_run(phase, events).actions[i] !is Initialize,
    decreases events.len(),
{
    if events.len() > 0 {
        law_sensor_is_initialised_once(phase, events.drop_last());
    }
}

/// The loop pauses only between measurements: every pause it asks for lasts the
/// sample period, whatever happened before, and answers a measurement that
/// succeeded; there are as many reports as pauses, one with each.
pub proof fn law_pause_follows_report<E>(phase: AcquirePhase, events: Seq<AcquireEvent<E>>)
    ensures
        acquire_run(phase, events).actions.len() == events.len(),
        forall|i: int|
            0 <= i < events.len() && #[trigger] acquire_run(phase, events).actions[i] is Sleep ==> {
                &&& events[i] is Measured
                &&& events[i]->Measured_0 is Ok
                &&& acquire_run(phase, events).actions[i] == AcquireAction::<E>::Sleep(
                    SAMPLE_PERIOD_MS,
                )
            },
        acquire_run(phase, events).reports.len() == pauses_in(acquire_run(phase, events).actions),
    decreases events.len(),
{
    if events.len() > 0 {
        law_pause_follows_report(phase, events.drop_last());
        assert(events == events.drop_last().push(events.last()));
        lemma_acquire_run_push(phase, events.drop_last(), events.last());
    }
}

/// Counting distributes over concatenation.
proof fn lemma_pauses_concat<E>(head: Seq<AcquireAction<E>>, tail: Seq<AcquireAction<E>>)
    ensures
        pauses_in(head + tail) == pauses_in(head) + pauses_in(tail),
    decreases tail.len(),
{
    if tail.len() == 0 {
        assert(head + tail == head);
    } else {
        assert((head + tail).drop_last() == head + tail.drop_last());
        lemma_pauses_concat(head, tail.drop_last());
    }
}

} // verus!
