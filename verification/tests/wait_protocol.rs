use weather_sensor::wait::{wait_begin, wait_step, WaitAction, WaitEvent, WaitPhase, WaitStep};

/// What a scripted run of the protocol did.
struct Run {
    result: Option<Result<(), &'static str>>,
    polls: usize,
    sleeps: Vec<u32>,
    actions: Vec<&'static str>,
}

/// Drives one wait against a condition that gives `answers` in order.
fn drive(answers: Vec<Result<bool, &'static str>>, interval_ms: u32) -> Run {
    let mut answers = answers.into_iter();
    let mut run = Run { result: None, polls: 0, sleeps: Vec::new(), actions: Vec::new() };
    let mut step: WaitStep<&'static str> = wait_begin();
    loop {
        let event = match step.action {
            WaitAction::Poll => {
                run.actions.push("poll");
                run.polls += 1;
                match answers.next() {
                    Some(answer) => WaitEvent::Polled(answer),
                    None => return run,
                }
            }
            WaitAction::Sleep(ms) => {
                run.actions.push("sleep");
                run.sleeps.push(ms);
                WaitEvent::Slept
            }
            WaitAction::Finish(result) => {
                run.result = Some(result);
                return run;
            }
            WaitAction::Nothing => unreachable!(),
        };
        step = wait_step(step.next, event, interval_ms);
    }
}

#[test]
fn wait_begins_with_a_poll() {
    let step: WaitStep<u8> = wait_begin();
    assert_eq!(step.next, WaitPhase::Polling);
    assert_eq!(step.action, WaitAction::Poll);
}

#[test]
fn wait_polls_before_it_ever_sleeps() {
    let run = drive(vec![Ok(false), Ok(false), Ok(true)], 500);
    assert_eq!(run.actions, vec!["poll", "sleep", "poll", "sleep", "poll"]);
}

#[test]
fn wait_sleeps_once_per_false_answer() {
    for denials in 0..6usize {
        let mut answers = vec![Ok(false); denials];
        answers.push(Ok(true));
        let run = drive(answers, 500);
        assert_eq!(run.result, Some(Ok(())));
        assert_eq!(run.polls, denials + 1);
        assert_eq!(run.sleeps, vec![500u32; denials]);
    }
}

#[test]
fn wait_true_at_once_never_sleeps() {
    let run = drive(vec![Ok(true)], 500);
    assert_eq!(run.result, Some(Ok(())));
    assert_eq!(run.polls, 1);
    assert!(run.sleeps.is_empty());
}

#[test]
fn wait_sleeps_for_the_interval_it_is_given() {
    let run = drive(vec![Ok(false), Ok(true)], 250);
    assert_eq!(run.sleeps, vec![250]);
    let step: WaitStep<u8> = wait_step(WaitPhase::Polling, WaitEvent::Polled(Ok(false)), 0);
    assert_eq!(step.action, WaitAction::Sleep(0));
    let step: WaitStep<u8> = wait_step(WaitPhase::Polling, WaitEvent::Polled(Ok(false)), u32::MAX);
    assert_eq!(step.action, WaitAction::Sleep(u32::MAX));
}

#[test]
fn wait_propagates_a_poll_error_at_once() {
    let run = drive(vec![Ok(false), Ok(false), Err("disconnected"), Ok(true)], 500);
    assert_eq!(run.result, Some(Err("disconnected")));
    assert_eq!(run.polls, 3);
    assert_eq!(run.sleeps, vec![500, 500]);
}

#[test]
fn wait_error_on_first_poll_never_sleeps() {
    let run = drive(vec![Err("not initialized")], 500);
    assert_eq!(run.result, Some(Err("not initialized")));
    assert_eq!(run.polls, 1);
    assert!(run.sleeps.is_empty());
}

#[test]
fn wait_goes_on_while_the_answer_is_false() {
    let run = drive(vec![Ok(false); 1000], 500);
    assert_eq!(run.result, None);
    assert_eq!(run.polls, 1001);
    assert_eq!(run.sleeps.len(), 1000);
}

#[test]
fn wait_step_table() {
    let step: WaitStep<u8> = wait_step(WaitPhase::Polling, WaitEvent::Polled(Ok(true)), 500);
    assert_eq!(step, WaitStep { next: WaitPhase::Satisfied, action: WaitAction::Finish(Ok(())) });
    let step: WaitStep<u8> = wait_step(WaitPhase::Polling, WaitEvent::Polled(Ok(false)), 500);
    assert_eq!(step, WaitStep { next: WaitPhase::Pausing, action: WaitAction::Sleep(500) });
    let step: WaitStep<u8> = wait_step(WaitPhase::Polling, WaitEvent::Polled(Err(7)), 500);
    assert_eq!(step, WaitStep { next: WaitPhase::Failed, action: WaitAction::Finish(Err(7)) });
    let step: WaitStep<u8> = wait_step(WaitPhase::Pausing, WaitEvent::Slept, 500);
    assert_eq!(step, WaitStep { next: WaitPhase::Polling, action: WaitAction::Poll });
}

#[test]
fn wait_ignores_an_event_that_answers_nothing() {
    let step: WaitStep<u8> = wait_step(WaitPhase::Polling, WaitEvent::Slept, 500);
    assert_eq!(step, WaitStep { next: WaitPhase::Polling, action: WaitAction::Nothing });
    let step: WaitStep<u8> = wait_step(WaitPhase::Pausing, WaitEvent::Polled(Ok(true)), 500);
    assert_eq!(step, WaitStep { next: WaitPhase::Pausing, action: WaitAction::Nothing });
    let step: WaitStep<u8> = wait_step(WaitPhase::Pausing, WaitEvent::Polled(Ok(false)), 500);
    assert_eq!(step, WaitStep { next: WaitPhase::Pausing, action: WaitAction::Nothing });
    let step: WaitStep<u8> = wait_step(WaitPhase::Pausing, WaitEvent::Polled(Err(1)), 500);
    assert_eq!(step, WaitStep { next: WaitPhase::Pausing, action: WaitAction::Nothing });
}

#[test]
fn wait_stays_finished() {
    for phase in [WaitPhase::Satisfied, WaitPhase::Failed] {
        for event in [
            WaitEvent::Slept,
            WaitEvent::Polled(Ok(true)),
            WaitEvent::Polled(Ok(false)),
            WaitEvent::Polled(Err(3u8)),
        ] {
            let step = wait_step(phase, event, 500);
            assert_eq!(step, WaitStep { next: phase, action: WaitAction::Nothing });
        }
    }
}
