//! What holds of every run of a join.
//!
//! A run is the sequence of events fed to a join, one after the other; its
//! trace is the phase reached, the milestones passed and the sequence of
//! actions asked for.

use crate::join::{
    join_next, milestone_lines, Credentials, JoinAction, JoinError, JoinEvent, JoinPhase, JoinStep,
    Milestone, POLL_INTERVAL_MS,
};
use crate::wait::{wait_next, WaitAction, WaitEvent, WaitPhase};
use vstd::prelude::*;

verus! {

/// The phase reached, the milestones passed and the actions requested, oldest first.
pub struct JoinTrace<E> {
    pub phase: JoinPhase,
    pub milestones: Seq<Milestone>,
    pub actions: Seq<JoinAction<E>>,
}

/// What happens when `events` are fed, in order, to a join that stands at `phase`.
pub open spec fn join_run<E>(phase: JoinPhase, events: Seq<JoinEvent<E>>) -> JoinTrace<E>
    decreases events.len(),
{
    if events.len() == 0 {
        JoinTrace { phase, milestones: Seq::empty(), actions: Seq::empty() }
    } else {
        let before = join_run(phase, events.drop_last());
        let step = join_next(before.phase, events.last());
        JoinTrace {
            phase: step.next,
            milestones: before.milestones + passed(step.milestone),
            actions: before.actions.push(step.action),
        }
    }
}

/// The milestones that one step adds to a trace.
pub open spec fn passed(milestone: Option<Milestone>) -> Seq<Milestone> {
    match milestone {
        Some(milestone) => seq![milestone],
        None => Seq::empty(),
    }
}

/// How often `actions` ask for `wanted`.
pub open spec fn count_of<E>(actions: Seq<JoinAction<E>>, wanted: JoinAction<E>) -> nat
    decreases actions.len(),
{
    if actions.len() == 0 {
        0
    } else {
        count_of(actions.drop_last(), wanted) + if actions.last() == wanted {
            1nat
        } else {
            0nat
        }
    }
}

/// A pause of the poll interval.
pub open spec fn pause<E>() -> JoinAction<E> {
    JoinAction::Sleep(POLL_INTERVAL_MS)
}

/// Whether a join in `phase` is over.
pub open spec fn join_is_over(phase: JoinPhase) -> bool {
    phase == JoinPhase::Connected || phase == JoinPhase::Failed
}

/// Whether `phase` belongs to one of the two waits of the join.
pub open spec fn is_waiting(phase: JoinPhase) -> bool {
    waits_for_start(phase) || waits_for_connection(phase)
}

/// Whether `phase` belongs to the wait for the radio to start.
pub open spec fn waits_for_start(phase: JoinPhase) -> bool {
    phase == JoinPhase::PollingStarted || phase == JoinPhase::PausingStarted
}

/// Whether `phase` belongs to the wait for the connection.
pub open spec fn waits_for_connection(phase: JoinPhase) -> bool {
    phase == JoinPhase::PollingConnected || phase == JoinPhase::PausingConnected
}

/// The phase of the wait protocol that a waiting phase of the join stands for.
pub open spec fn wait_phase_of(phase: JoinPhase) -> WaitPhase {
    match phase {
        JoinPhase::PollingStarted | JoinPhase::PollingConnected => WaitPhase::Polling,
        _ => WaitPhase::Pausing,
    }
}

/// Whether a request to the radio that can fail is outstanding in `phase`.
pub open spec fn can_fail(phase: JoinPhase) -> bool {
    !join_is_over(phase) && phase != JoinPhase::PausingStarted && phase != JoinPhase::PausingConnected
}

/// The event by which the request outstanding in `phase` fails with `error`.
pub open spec fn failure_event<E>(phase: JoinPhase, error: E) -> JoinEvent<E> {
    match phase {
        JoinPhase::PollingStarted | JoinPhase::PollingConnected => JoinEvent::Polled(Err(error)),
        _ => JoinEvent::Completed(Err(error)),
    }
}

/// The error of a join whose request outstanding in `phase` failed with `error`.
pub open spec fn failure_in<E>(phase: JoinPhase, error: E) -> JoinError<E> {
    match phase {
        JoinPhase::Configuring => JoinError::Config(error),
        JoinPhase::Starting => JoinError::Start(error),
        JoinPhase::Connecting => JoinError::Connect(error),
        _ => JoinError::Poll(error),
    }
}

/// The milestones that lie behind a join in `phase`, for every phase but `Failed`.
pub open spec fn milestones_behind(phase: JoinPhase) -> Seq<Milestone> {
    match phase {
        JoinPhase::Configuring | JoinPhase::Failed => Seq::empty(),
        JoinPhase::Starting | JoinPhase::PollingStarted | JoinPhase::PausingStarted => seq![
            Milestone::ConfigSet,
        ],
        JoinPhase::Connecting | JoinPhase::PollingConnected | JoinPhase::PausingConnected => seq![
            Milestone::ConfigSet,
            Milestone::Started,
        ],
        JoinPhase::Connected => seq![Milestone::ConfigSet, Milestone::Started, Milestone::Connected],
    }
}

/// `rounds` times the answer `false`, each followed by the end of its pause.
pub open spec fn refusals<E>(rounds: nat) -> Seq<JoinEvent<E>>
    decreases rounds,
{
    if rounds == 0 {
        Seq::empty()
    } else {
        refusals::<E>((rounds - 1) as nat).push(JoinEvent::Polled(Ok(false))).push(JoinEvent::Slept)
    }
}

/// `rounds` times a pause of the poll interval, each followed by the query `poll`.
pub open spec fn retries<E>(poll: JoinAction<E>, rounds: nat) -> Seq<JoinAction<E>>
    decreases rounds,
{
    if rounds == 0 {
        Seq::empty()
    } else {
        retries(poll, (rounds - 1) as nat).push(pause()).push(poll)
    }
}

/// The events of a join in which every request succeeds, the radio denies
/// `start_rounds` times that it has started before it confirms, and denies
/// `connect_rounds` times that it is connected before it confirms.
pub open spec fn smooth_join<E>(start_rounds: nat, connect_rounds: nat) -> Seq<JoinEvent<E>> {
    seq![JoinEvent::<E>::Completed(Ok(())), JoinEvent::<E>::Completed(Ok(()))] + refusals::<E>(
        start_rounds,
    ) + seq![JoinEvent::<E>::Polled(Ok(true)), JoinEvent::<E>::Completed(Ok(()))] + refusals::<E>(
        connect_rounds,
    ) + seq![JoinEvent::<E>::Polled(Ok(true))]
}

/// The requests that answer [`smooth_join`], after the opening `Configure`.
pub open spec fn smooth_join_actions<E>(start_rounds: nat, connect_rounds: nat) -> Seq<JoinAction<E>> {
    seq![JoinAction::<E>::Start, JoinAction::<E>::PollStarted] + retries(
        JoinAction::<E>::PollStarted,
        start_rounds,
    ) + seq![JoinAction::<E>::Connect, JoinAction::<E>::PollConnected] + retries(
        JoinAction::<E>::PollConnected,
        connect_rounds,
    ) + seq![JoinAction::<E>::Finish(Ok(()))]
}

/// Feeding `head + tail` is feeding `head`, then feeding `tail` from where `head` led.
pub proof fn lemma_join_run_concat<E>(phase: JoinPhase, head: Seq<JoinEvent<E>>, tail: Seq<JoinEvent<E>>)
    ensures
        join_run(phase, head + tail).phase == join_run(join_run(phase, head).phase, tail).phase,
        join_run(phase, head + tail).milestones == join_run(phase, head).milestones + join_run(
            join_run(phase, head).phase,
            tail,
        ).milestones,
        join_run(phase, head + tail).actions == join_run(phase, head).actions + join_run(
            join_run(phase, head).phase,
            tail,
        ).actions,
    decreases tail.len(),
{
    if tail.len() == 0 {
        assert(head + tail == head);
    } else {
        assert((head + tail).drop_last() == head + tail.drop_last());
        lemma_join_run_concat(phase, head, tail.drop_last());
    }
}

/// Feeding one more event takes one more step.
pub proof fn lemma_join_run_push<E>(phase: JoinPhase, events: Seq<JoinEvent<E>>, event: JoinEvent<E>)
    ensures
        ({
            let before = join_run(phase, events);
            let step = join_next(before.phase, event);
            let trace = join_run(phase, events.push(event));
            &&& trace.phase == step.next
            &&& trace.milestones == before.milestones + passed(step.milestone)
            &&& trace.actions == before.actions.push(step.action)
            &&& trace.actions.len() == events.len() + 1
        }),
{
    assert(events.push(event).drop_last() == events);
    lemma_join_run_length(phase, events);
}

/// A trace holds one action for every event.
pub proof fn lemma_join_run_length<E>(phase: JoinPhase, events: Seq<JoinEvent<E>>)
    ensures
        join_run(phase, events).actions.len() == events.len(),
    decreases events.len(),
{
    if events.len() > 0 {
        lemma_join_run_length(phase, events.drop_last());
    }
}

/// Counting one more action.
pub proof fn lemma_count_push<E>(actions: Seq<JoinAction<E>>, action: JoinAction<E>, wanted: JoinAction<E>)
    ensures
        count_of(actions.push(action), wanted) == count_of(actions, wanted) + if action == wanted {
            1nat
        } else {
            0nat
        },
{
    assert(actions.push(action).drop_last() == actions);
}

/// Counting distributes over concatenation.
pub proof fn lemma_count_concat<E>(
    head: Seq<JoinAction<E>>,
    tail: Seq<JoinAction<E>>,
    wanted: JoinAction<E>,
)
    ensures
        count_of(head + tail, wanted) == count_of(head, wanted) + count_of(tail, wanted),
    decreases tail.len(),
{
    if tail.len() == 0 {
        assert(head + tail == head);
    } else {
        assert((head + tail).drop_last() == head + tail.drop_last());
        lemma_count_concat(head, tail.drop_last(), wanted);
    }
}

/// Feeding a single event takes a single step.
proof fn lemma_join_run_one<E>(phase: JoinPhase, event: JoinEvent<E>)
    ensures
        join_run(phase, seq![event]).phase == join_next(phase, event).next,
        join_run(phase, seq![event]).actions == seq![join_next(phase, event).action],
        join_run(phase, seq![event]).milestones == passed(join_next(phase, event).milestone),
{
    let nothing = Seq::<JoinEvent<E>>::empty();
    assert(join_run(phase, nothing).phase == phase);
    assert(seq![event] == nothing.push(event));
    lemma_join_run_push(phase, nothing, event);
}

/// Feeding two events takes two steps.
proof fn lemma_join_run_two<E>(phase: JoinPhase, first: JoinEvent<E>, second: JoinEvent<E>)
    ensures
        join_run(phase, seq![first, second]).phase == join_next(
            join_next(phase, first).next,
            second,
        ).next,
        join_run(phase, seq![first, second]).actions == seq![
            join_next(phase, first).action,
            join_next(join_next(phase, first).next, second).action,
        ],
        join_run(phase, seq![first, second]).milestones == passed(join_next(phase, first).milestone)
            + passed(join_next(join_next(phase, first).next, second).milestone),
{
    lemma_join_run_one(phase, first);
    assert(seq![first, second] == seq![first].push(second));
    lemma_join_run_push(phase, seq![first], second);
}

/// `rounds` rounds ask for `rounds` pauses and `rounds` queries of one kind.
proof fn lemma_retry_counts<E>(poll: JoinAction<E>, rounds: nat, wanted: JoinAction<E>)
    requires
        poll != pause::<E>(),
    ensures
        count_of(retries(poll, rounds), wanted) == if wanted == poll || wanted == pause::<E>() {
            rounds
        } else {
            0
        },
    decreases rounds,
{
    if rounds > 0 {
        let shorter = retries(poll, (rounds - 1) as nat);
        lemma_retry_counts(poll, (rounds - 1) as nat, wanted);
        lemma_count_push(shorter, pause(), wanted);
        lemma_count_push(shorter.push(pause()), poll, wanted);
    }
}

/// The counts in a sequence of two actions.
proof fn lemma_count_two<E>(first: JoinAction<E>, second: JoinAction<E>, wanted: JoinAction<E>)
    ensures
        count_of(seq![first, second], wanted) == if first == wanted {
            1nat
        } else {
            0nat
        } + if second == wanted {
            1nat
        } else {
            0nat
        },
{
    let nothing = Seq::<JoinAction<E>>::empty();
    assert(count_of(nothing, wanted) == 0);
    assert(seq![first, second] == nothing.push(first).push(second));
    lemma_count_push(nothing, first, wanted);
    lemma_count_push(nothing.push(first), second, wanted);
}

/// The counts in a smooth join.
proof fn lemma_smooth_counts<E>(start_rounds: nat, connect_rounds: nat, wanted: JoinAction<E>)
    ensures
        count_of(smooth_join_actions::<E>(start_rounds, connect_rounds), wanted) == if wanted
            == JoinAction::<E>::PollStarted {
            start_rounds + 1
        } else if wanted == JoinAction::<E>::PollConnected {
            connect_rounds + 1
        } else if wanted == pause::<E>() {
            start_rounds + connect_rounds
        } else if wanted == JoinAction::<E>::Start || wanted == JoinAction::<E>::Connect || wanted
            == JoinAction::<E>::Finish(Ok(())) {
            1
        } else {
            0
        },
{
    let opening = seq![JoinAction::<E>::Start, JoinAction::<E>::PollStarted];
    let starting = retries(JoinAction::<E>::PollStarted, start_rounds);
    let joining = seq![JoinAction::<E>::Connect, JoinAction::<E>::PollConnected];
    let connecting = retries(JoinAction::<E>::PollConnected, connect_rounds);
    let nothing = Seq::<JoinAction<E>>::empty();
    let closing = seq![JoinAction::<E>::Finish(Ok(()))];
    lemma_count_two(JoinAction::<E>::Start, JoinAction::<E>::PollStarted, wanted);
    lemma_retry_counts(JoinAction::<E>::PollStarted, start_rounds, wanted);
    lemma_count_two(JoinAction::<E>::Connect, JoinAction::<E>::PollConnected, wanted);
    lemma_retry_counts(JoinAction::<E>::PollConnected, connect_rounds, wanted);
    assert(count_of(nothing, wanted) == 0);
    assert(closing == nothing.push(JoinAction::<E>::Finish(Ok(()))));
    lemma_count_push(nothing, JoinAction::<E>::Finish(Ok(())), wanted);
    lemma_count_concat(opening, starting, wanted);
    lemma_count_concat(opening + starting, joining, wanted);
    lemma_count_concat(opening + starting + joining, connecting, wanted);
    lemma_count_concat(opening + starting + joining + connecting, closing, wanted);
}

/// While the radio keeps answering `false`, a wait of the join keeps going
/// round: it passes no milestone, and each round asks for one pause of the poll
/// interval and one new query of the same condition.
pub proof fn law_join_keeps_polling<E>(for_start: bool, rounds: nat)
    ensures
        ({
            let polling = if for_start {
                JoinPhase::PollingStarted
            } else {
                JoinPhase::PollingConnected
            };
            let poll = if for_start {
                JoinAction::<E>::PollStarted
            } else {
                JoinAction::<E>::PollConnected
            };
            let trace = join_run(polling, refusals::<E>(rounds));
            &&& trace.phase == polling
            &&& trace.milestones == Seq::<Milestone>::empty()
            &&& trace.actions == retries(poll, rounds)
        }),
    decreases rounds,
{
    if rounds > 0 {
        let polling = if for_start {
            JoinPhase::PollingStarted
        } else {
            JoinPhase::PollingConnected
        };
        let shorter = refusals::<E>((rounds - 1) as nat);
        law_join_keeps_polling::<E>(for_start, (rounds - 1) as nat);
        lemma_join_run_push(polling, shorter, JoinEvent::Polled(Ok(false)));
        lemma_join_run_push(polling, shorter.push(JoinEvent::Polled(Ok(false))), JoinEvent::Slept);
    }
}

/// Whatever the credentials, a join whose requests all succeed connects as soon
/// as the radio has confirmed both conditions, however often it denied them
/// first. It passes the three milestones in order, the last of them logged with
/// the identifier of the network, and ends with success. Each request has been
/// made once, each condition has been queried once for every answer it gave,
/// and one pause has been taken for every denial.
pub proof fn law_join_connects<E>(credentials: Credentials, start_rounds: nat, connect_rounds: nat)
    ensures
        ({
            let trace = join_run(
                JoinPhase::Configuring,
                smooth_join::<E>(start_rounds, connect_rounds),
            );
            &&& trace.phase == JoinPhase::Connected
            &&& trace.milestones == seq![
                Milestone::ConfigSet,
                Milestone::Started,
                Milestone::Connected,
            ]
            &&& milestone_lines(trace.milestones, credentials@.ssid) == seq![
                "wifi config is set"@,
                "WiFi is started"@,
                "WiFi is connected to "@ + credentials@.ssid,
            ]
            &&& trace.actions == smooth_join_actions::<E>(start_rounds, connect_rounds)
            &&& trace.actions.last() == JoinAction::<E>::Finish(Ok(()))
            &&& count_of(trace.actions, JoinAction::<E>::Start) == 1
            &&& count_of(trace.actions, JoinAction::<E>::PollStarted) == start_rounds + 1
            &&& count_of(trace.actions, JoinAction::<E>::Connect) == 1
            &&& count_of(trace.actions, JoinAction::<E>::PollConnected) == connect_rounds + 1
            &&& count_of(trace.actions, pause::<E>()) == start_rounds + connect_rounds
        }),
{
    let accepted = JoinEvent::<E>::Completed(Ok(()));
    let confirmed = JoinEvent::<E>::Polled(Ok(true));
    let opening = seq![accepted, accepted];
    let started = opening + refusals::<E>(start_rounds);
    let joining = started + seq![confirmed, accepted];
    let connecting = joining + refusals::<E>(connect_rounds);

    lemma_join_run_two(JoinPhase::Configuring, accepted, accepted);
    law_join_keeps_polling::<E>(true, start_rounds);
    lemma_join_run_concat(JoinPhase::Configuring, opening, refusals::<E>(start_rounds));
    lemma_join_run_two(JoinPhase::PollingStarted, confirmed, accepted);
    lemma_join_run_concat(JoinPhase::Configuring, started, seq![confirmed, accepted]);
    law_join_keeps_polling::<E>(false, connect_rounds);
    lemma_join_run_concat(JoinPhase::Configuring, joining, refusals::<E>(connect_rounds));
    lemma_join_run_one(JoinPhase::PollingConnected, confirmed);
    lemma_join_run_concat(JoinPhase::Configuring, connecting, seq![confirmed]);

    let trace = join_run(JoinPhase::Configuring, smooth_join::<E>(start_rounds, connect_rounds));
    assert(trace.milestones == seq![Milestone::ConfigSet, Milestone::Started, Milestone::Connected]);
    assert(milestone_lines(trace.milestones, credentials@.ssid) == seq![
        "wifi config is set"@,
        "WiFi is started"@,
        "WiFi is connected to "@ + credentials@.ssid,
    ]);
    lemma_smooth_counts::<E>(start_rounds, connect_rounds, JoinAction::Start);
    lemma_smooth_counts::<E>(start_rounds, connect_rounds, JoinAction::PollStarted);
    lemma_smooth_counts::<E>(start_rounds, connect_rounds, JoinAction::Connect);
    lemma_smooth_counts::<E>(start_rounds, connect_rounds, JoinAction::PollConnected);
    lemma_smooth_counts::<E>(start_rounds, connect_rounds, pause());
}

/// Once a join is over, nothing moves it: it passes no milestone and asks for nothing.
pub proof fn law_join_stays_over<E>(phase: JoinPhase, events: Seq<JoinEvent<E>>)
    requires
        join_is_over(phase),
    ensures
        join_run(phase, events).phase == phase,
        join_run(phase, events).milestones == Seq::<Milestone>::empty(),
        join_run(phase, events).actions.len() == events.len(),
        forall|i: int|
            0 <= i < events.len() ==> #[trigger] join_run(phase, events).actions[i]
                == JoinAction::<E>::Nothing,
        forall|wanted: JoinAction<E>|
            wanted != JoinAction::<E>::Nothing ==> #[trigger] count_of(
                join_run(phase, events).actions,
                wanted,
            ) == 0,
    decreases events.len(),
{
    if events.len() > 0 {
        law_join_stays_over(phase, events.drop_last());
        let before = join_run(phase, events.drop_last());
        assert(events == events.drop_last().push(events.last()));
        lemma_join_run_push(phase, events.drop_last(), events.last());
        assert forall|wanted: JoinAction<E>| wanted != JoinAction::<E>::Nothing implies #[trigger] count_of(
            join_run(phase, events).actions,
            wanted,
        ) == 0 by {
            lemma_count_push(before.actions, JoinAction::<E>::Nothing, wanted);
        }
    }
}

/// A request that fails ends the join at once, with the radio's error filed
/// under the phase in which it arose: the configuration, the start, the
/// connection, or a status query. The step that reports the failure asks for
/// nothing else, and whatever is fed in afterwards, no later phase is entered:
/// no milestone is passed, and no request, query or pause is added to those
/// made before the failure.
pub proof fn law_failure_ends_join<E>(
    before: Seq<JoinEvent<E>>,
    error: E,
    after: Seq<JoinEvent<E>>,
)
    requires
        can_fail(join_run(JoinPhase::Configuring, before).phase),
    ensures
        ({
            let reached = join_run(JoinPhase::Configuring, before);
            let events = before.push(failure_event(reached.phase, error)) + after;
            let trace = join_run(JoinPhase::Configuring, events);
            &&& trace.phase == JoinPhase::Failed
            &&& trace.milestones == reached.milestones
            &&& trace.actions.len() == events.len()
            &&& trace.actions.subrange(0, before.len() as int) == reached.actions
            &&& trace.actions[before.len() as int] == JoinAction::Finish(
                Err(failure_in(reached.phase, error)),
            )
            &&& forall|i: int|
                before.len() < i < events.len() ==> #[trigger] trace.actions[i]
                    == JoinAction::<E>::Nothing
            &&& forall|wanted: JoinAction<E>|
                wanted !is Finish && wanted !is Nothing ==> #[trigger] count_of(trace.actions, wanted)
                    == count_of(reached.actions, wanted)
        }),
{
    let reached = join_run(JoinPhase::Configuring, before);
    let failing = failure_event(reached.phase, error);
    let verdict = JoinAction::Finish(Err(failure_in(reached.phase, error)));
    let failed = before.push(failing);
    lemma_join_run_push(JoinPhase::Configuring, before, failing);
    let at_failure = join_run(JoinPhase::Configuring, failed);
    assert(at_failure.actions == reached.actions.push(verdict));
    law_join_stays_over(JoinPhase::Failed, after);
    lemma_join_run_concat(JoinPhase::Configuring, failed, after);
    let rest = join_run(JoinPhase::Failed, after);
    let trace = join_run(JoinPhase::Configuring, failed + after);
    assert(trace.milestones == reached.milestones);
    assert(trace.actions.subrange(0, before.len() as int) == reached.actions);
    assert forall|i: int| before.len() < i < (failed + after).len() implies #[trigger] trace.actions[i]
        == JoinAction::<E>::Nothing by {
        assert(trace.actions[i] == rest.actions[i - failed.len()]);
    }
    assert forall|wanted: JoinAction<E>| wanted !is Finish && wanted !is Nothing implies #[trigger] count_of(
        trace.actions,
        wanted,
    ) == count_of(reached.actions, wanted) by {
        lemma_count_push(reached.actions, verdict, wanted);
        lemma_count_concat(at_failure.actions, rest.actions, wanted);
        assert(count_of(rest.actions, wanted) == 0);
    }
}

/// A join moves forward only, and makes each request once at most. Whatever is
/// fed to a new join:
/// - the milestones it has passed are an initial piece of configuration set,
///   started, connected, and until it fails they are exactly those that lie
///   behind its phase;
/// - the configuration is applied at the opening and never again;
/// - the radio is asked to start once the configuration was accepted, and to
///   connect once it has reported that it started, never twice;
/// - no status is queried, and no pause taken, before the radio was asked to
///   start; the connection is not queried before the radio was asked to connect.
pub proof fn law_join_moves_forward<E>(events: Seq<JoinEvent<E>>)
    ensures
        ({
            let trace = join_run(JoinPhase::Configuring, events);
            let all = milestones_behind(JoinPhase::Connected);
            let starts = count_of(trace.actions, JoinAction::<E>::Start);
            let connects = count_of(trace.actions, JoinAction::<E>::Connect);
            &&& trace.milestones == all.subrange(0, trace.milestones.len() as int)
            &&& trace.milestones.len() <= 3
            &&& trace.phase != JoinPhase::Failed ==> trace.milestones == milestones_behind(trace.phase)
            &&& trace.phase == JoinPhase::Failed ==> trace.milestones.len() < 3
            &&& count_of(trace.actions, JoinAction::<E>::Configure) == 0
            &&& starts <= 1
            &&& connects <= 1
            &&& connects <= starts
            &&& trace.phase != JoinPhase::Failed ==> (starts == 1 <==> trace.milestones.len() >= 1)
            &&& trace.phase != JoinPhase::Failed ==> (connects == 1 <==> trace.milestones.len() >= 2)
            &&& trace.phase == JoinPhase::Failed ==> trace.milestones.len() >= starts + connects
            &&& starts == 0 ==> count_of(trace.actions, JoinAction::<E>::PollStarted) == 0 && count_of(
                trace.actions,
                pause::<E>(),
            ) == 0
            &&& connects == 0 ==> count_of(trace.actions, JoinAction::<E>::PollConnected) == 0
        }),
    decreases events.len(),
{
    let all = milestones_behind(JoinPhase::Connected);
    if events.len() > 0 {
        law_join_moves_forward(events.drop_last());
        let before = join_run(JoinPhase::Configuring, events.drop_last());
        let step = join_next(before.phase, events.last());
        let trace = join_run(JoinPhase::Configuring, events);
        assert(events == events.drop_last().push(events.last()));
        lemma_join_run_push(JoinPhase::Configuring, events.drop_last(), events.last());
        lemma_count_push(before.actions, step.action, JoinAction::<E>::Configure);
        lemma_count_push(before.actions, step.action, JoinAction::<E>::Start);
        lemma_count_push(before.actions, step.action, JoinAction::<E>::Connect);
        lemma_count_push(before.actions, step.action, JoinAction::<E>::PollStarted);
        lemma_count_push(before.actions, step.action, JoinAction::<E>::PollConnected);
        lemma_count_push(before.actions, step.action, pause::<E>());
        assert(trace.milestones == all.subrange(0, trace.milestones.len() as int));
    } else {
        let trace = join_run(JoinPhase::Configuring, events);
        assert(trace.milestones == all.subrange(0, 0));
    }
}

/// A join pauses only to wait: every pause it asks for lasts the poll interval
/// and answers a status query that came back `false`.
pub proof fn law_join_pauses_after_false<E>(phase: JoinPhase, events: Seq<JoinEvent<E>>)
    ensures
        join_run(phase, events).actions.len() == events.len(),
        forall|i: int|
            0 <= i < events.len() && #[trigger] join_run(phase, events).actions[i] is Sleep ==> {
                &&& events[i] == JoinEvent::<E>::Polled(Ok(false))
                &&& join_run(phase, events).actions[i] == pause::<E>()
            },
    decreases events.len(),
{
    if events.len() > 0 {
        law_join_pauses_after_false(phase, events.drop_last());
    }
}

/// Both waits of the join follow the wait protocol with the poll interval.
/// Where the protocol queries again, the join queries the condition it is
/// waiting for; where the protocol pauses, the join pauses as long; where the
/// protocol ends with an error, the join fails with that error as a poll error;
/// where the protocol ends with success, the join passes the milestone of the
/// wait and goes on: to the request to connect after the first wait, to its
/// end after the second.
pub proof fn law_join_waits_by_protocol<E>(phase: JoinPhase, answer: WaitEvent<E>)
    requires
        is_waiting(phase),
    ensures
        ({
            let event = match answer {
                WaitEvent::Polled(status) => JoinEvent::Polled(status),
                WaitEvent::Slept => JoinEvent::Slept,
            };
            let step = join_next(phase, event);
            let inner = wait_next(wait_phase_of(phase), answer, POLL_INTERVAL_MS);
            match inner.action {
                WaitAction::Poll => step == if waits_for_start(phase) {
                    JoinStep {
                        next: JoinPhase::PollingStarted,
                        milestone: None,
                        action: JoinAction::<E>::PollStarted,
                    }
                } else {
                    JoinStep {
                        next: JoinPhase::PollingConnected,
                        milestone: None,
                        action: JoinAction::<E>::PollConnected,
                    }
                },
                WaitAction::Sleep(ms) => step == (JoinStep {
                    next: if waits_for_start(phase) {
                        JoinPhase::PausingStarted
                    } else {
                        JoinPhase::PausingConnected
                    },
                    milestone: None,
                    action: JoinAction::<E>::Sleep(ms),
                }),
                WaitAction::Finish(Ok(_)) => step == if waits_for_start(phase) {
                    JoinStep {
                        next: JoinPhase::Connecting,
                        milestone: Some(Milestone::Started),
                        action: JoinAction::<E>::Connect,
                    }
                } else {
                    JoinStep {
                        next: JoinPhase::Connected,
                        milestone: Some(Milestone::Connected),
                        action: JoinAction::<E>::Finish(Ok(())),
                    }
                },
                WaitAction::Finish(Err(e)) => step == (JoinStep {
                    next: JoinPhase::Failed,
                    milestone: None,
                    action: JoinAction::Finish(Err(JoinError::Poll(e))),
                }),
                WaitAction::Nothing => step == (JoinStep {
                    next: phase,
                    milestone: None,
                    action: JoinAction::<E>::Nothing,
                }),
            }
        }),
{
}

} // verus!
