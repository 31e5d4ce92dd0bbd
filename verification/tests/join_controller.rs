use weather_sensor::join::{
    join_begin, join_step, milestone_line, Credentials, JoinAction, JoinError, JoinEvent, JoinPhase,
    JoinStep, Milestone, POLL_INTERVAL_MS,
};

/// A radio that answers from a script and keeps a record of what it was asked.
struct FakeRadio {
    config: Result<(), &'static str>,
    start: Result<(), &'static str>,
    started: Vec<Result<bool, &'static str>>,
    connect: Result<(), &'static str>,
    connected: Vec<Result<bool, &'static str>>,
    calls: Vec<&'static str>,
    sleeps: Vec<u32>,
    log: Vec<String>,
}

impl FakeRadio {
    /// A radio that accepts every request, denies `start_denials` times that it
    /// has started and `connect_denials` times that it is connected.
    fn smooth(start_denials: usize, connect_denials: usize) -> FakeRadio {
        let mut started = vec![Ok(false); start_denials];
        started.push(Ok(true));
        let mut connected = vec![Ok(false); connect_denials];
        connected.push(Ok(true));
        FakeRadio {
            config: Ok(()),
            start: Ok(()),
            started,
            connect: Ok(()),
            connected,
            calls: Vec::new(),
            sleeps: Vec::new(),
            log: Vec::new(),
        }
    }

    fn count(&self, call: &str) -> usize {
        self.calls.iter().filter(|c| **c == call).count()
    }
}

/// Runs a whole join against `radio`, as a driver on the device would.
fn join(radio: &mut FakeRadio, credentials: &Credentials) -> Result<(), JoinError<&'static str>> {
    let mut step: JoinStep<&'static str> = join_begin();
    for _ in 0..10_000 {
        if let Some(milestone) = step.milestone {
            radio.log.push(milestone_line(milestone, credentials));
        }
        let event = match step.action {
            JoinAction::Configure => {
                radio.calls.push("set_config");
                JoinEvent::Completed(radio.config)
            }
            JoinAction::Start => {
                radio.calls.push("start");
                JoinEvent::Completed(radio.start)
            }
            JoinAction::PollStarted => {
                radio.calls.push("is_started");
                JoinEvent::Polled(radio.started.remove(0))
            }
            JoinAction::Connect => {
                radio.calls.push("connect");
                JoinEvent::Completed(radio.connect)
            }
            JoinAction::PollConnected => {
                radio.calls.push("is_connected");
                JoinEvent::Polled(radio.connected.remove(0))
            }
            JoinAction::Sleep(ms) => {
                radio.sleeps.push(ms);
                JoinEvent::Slept
            }
            JoinAction::Finish(result) => return result,
            JoinAction::Nothing => unreachable!(),
        };
        step = join_step(step.next, event);
    }
    panic!("the join did not end");
}

#[test]
fn join_begins_with_the_configuration() {
    let step: JoinStep<u8> = join_begin();
    assert_eq!(step.next, JoinPhase::Configuring);
    assert_eq!(step.milestone, None);
    assert_eq!(step.action, JoinAction::Configure);
}

#[test]
fn join_connects_after_scripted_denials() {
    let credentials = Credentials::new("home", "secret");
    let mut radio = FakeRadio::smooth(3, 2);
    assert_eq!(join(&mut radio, &credentials), Ok(()));
    assert_eq!(
        radio.calls,
        vec![
            "set_config",
            "start",
            "is_started",
            "is_started",
            "is_started",
            "is_started",
            "connect",
            "is_connected",
            "is_connected",
            "is_connected",
        ]
    );
    assert_eq!(radio.sleeps, vec![500; 5]);
    assert_eq!(
        radio.log,
        vec!["wifi config is set", "WiFi is started", "WiFi is connected to home"]
    );
}

#[test]
fn join_connects_whatever_the_number_of_denials() {
    let credentials = Credentials::new("lab", "0123456789");
    for start_denials in 0..5usize {
        for connect_denials in 0..5usize {
            let mut radio = FakeRadio::smooth(start_denials, connect_denials);
            assert_eq!(join(&mut radio, &credentials), Ok(()));
            assert_eq!(radio.count("is_started"), start_denials + 1);
            assert_eq!(radio.count("is_connected"), connect_denials + 1);
            assert_eq!(radio.sleeps.len(), start_denials + connect_denials);
            assert_eq!(radio.log.len(), 3);
        }
    }
}

#[test]
fn join_without_denials_never_sleeps() {
    let credentials = Credentials::new("home", "secret");
    let mut radio = FakeRadio::smooth(0, 0);
    assert_eq!(join(&mut radio, &credentials), Ok(()));
    assert_eq!(radio.calls, vec!["set_config", "start", "is_started", "connect", "is_connected"]);
    assert!(radio.sleeps.is_empty());
}

#[test]
fn join_config_error_is_immediate() {
    let credentials = Credentials::new("", "");
    let mut radio = FakeRadio::smooth(3, 3);
    radio.config = Err("invalid arguments");
    assert_eq!(join(&mut radio, &credentials), Err(JoinError::Config("invalid arguments")));
    assert_eq!(radio.calls, vec!["set_config"]);
    assert!(radio.sleeps.is_empty());
    assert!(radio.log.is_empty());
}

#[test]
fn join_start_error_is_immediate() {
    let credentials = Credentials::new("home", "secret");
    let mut radio = FakeRadio::smooth(3, 3);
    radio.start = Err("not initialized");
    assert_eq!(join(&mut radio, &credentials), Err(JoinError::Start("not initialized")));
    assert_eq!(radio.calls, vec!["set_config", "start"]);
    assert!(radio.sleeps.is_empty());
    assert_eq!(radio.log, vec!["wifi config is set"]);
}

#[test]
fn join_connect_error_is_immediate() {
    let credentials = Credentials::new("home", "secret");
    let mut radio = FakeRadio::smooth(1, 3);
    radio.connect = Err("internal error");
    assert_eq!(join(&mut radio, &credentials), Err(JoinError::Connect("internal error")));
    assert_eq!(radio.calls, vec!["set_config", "start", "is_started", "is_started", "connect"]);
    assert_eq!(radio.count("is_connected"), 0);
    assert_eq!(radio.sleeps, vec![500]);
    assert_eq!(radio.log, vec!["wifi config is set", "WiFi is started"]);
}

#[test]
fn join_poll_error_while_starting_ends_the_join() {
    let credentials = Credentials::new("home", "secret");
    let mut radio = FakeRadio::smooth(0, 0);
    radio.started = vec![Ok(false), Err("unsupported"), Ok(true)];
    assert_eq!(join(&mut radio, &credentials), Err(JoinError::Poll("unsupported")));
    assert_eq!(radio.calls, vec!["set_config", "start", "is_started", "is_started"]);
    assert_eq!(radio.sleeps, vec![500]);
    assert_eq!(radio.log, vec!["wifi config is set"]);
}

#[test]
fn join_poll_error_while_connecting_ends_the_join() {
    let credentials = Credentials::new("home", "secret");
    let mut radio = FakeRadio::smooth(0, 0);
    radio.connected = vec![Ok(false), Ok(false), Err("disconnected")];
    assert_eq!(join(&mut radio, &credentials), Err(JoinError::Poll("disconnected")));
    assert_eq!(radio.count("is_connected"), 3);
    assert_eq!(radio.sleeps, vec![500, 500]);
    assert_eq!(radio.log, vec!["wifi config is set", "WiFi is started"]);
}

#[test]
fn join_pauses_for_the_poll_interval() {
    assert_eq!(POLL_INTERVAL_MS, 500);
    let step: JoinStep<u8> = join_step(JoinPhase::PollingStarted, JoinEvent::Polled(Ok(false)));
    assert_eq!(
        step,
        JoinStep { next: JoinPhase::PausingStarted, milestone: None, action: JoinAction::Sleep(500) }
    );
    let step: JoinStep<u8> = join_step(JoinPhase::PollingConnected, JoinEvent::Polled(Ok(false)));
    assert_eq!(
        step,
        JoinStep {
            next: JoinPhase::PausingConnected,
            milestone: None,
            action: JoinAction::Sleep(500)
        }
    );
}

#[test]
fn join_step_table() {
    let ok: JoinEvent<u8> = JoinEvent::Completed(Ok(()));
    assert_eq!(
        join_step(JoinPhase::Configuring, ok),
        JoinStep {
            next: JoinPhase::Starting,
            milestone: Some(Milestone::ConfigSet),
            action: JoinAction::Start
        }
    );
    let ok: JoinEvent<u8> = JoinEvent::Completed(Ok(()));
    assert_eq!(
        join_step(JoinPhase::Starting, ok),
        JoinStep { next: JoinPhase::PollingStarted, milestone: None, action: JoinAction::PollStarted }
    );
    let yes: JoinEvent<u8> = JoinEvent::Polled(Ok(true));
    assert_eq!(
        join_step(JoinPhase::PollingStarted, yes),
        JoinStep {
            next: JoinPhase::Connecting,
            milestone: Some(Milestone::Started),
            action: JoinAction::Connect
        }
    );
    let slept: JoinEvent<u8> = JoinEvent::Slept;
    assert_eq!(
        join_step(JoinPhase::PausingStarted, slept),
        JoinStep { next: JoinPhase::PollingStarted, milestone: None, action: JoinAction::PollStarted }
    );
    let ok: JoinEvent<u8> = JoinEvent::Completed(Ok(()));
    assert_eq!(
        join_step(JoinPhase::Connecting, ok),
        JoinStep {
            next: JoinPhase::PollingConnected,
            milestone: None,
            action: JoinAction::PollConnected
        }
    );
    let yes: JoinEvent<u8> = JoinEvent::Polled(Ok(true));
    assert_eq!(
        join_step(JoinPhase::PollingConnected, yes),
        JoinStep {
            next: JoinPhase::Connected,
            milestone: Some(Milestone::Connected),
            action: JoinAction::Finish(Ok(()))
        }
    );
    let slept: JoinEvent<u8> = JoinEvent::Slept;
    assert_eq!(
        join_step(JoinPhase::PausingConnected, slept),
        JoinStep {
            next: JoinPhase::PollingConnected,
            milestone: None,
            action: JoinAction::PollConnected
        }
    );
}

#[test]
fn join_files_each_error_under_its_phase() {
    let failed = |error: JoinError<u8>| JoinStep {
        next: JoinPhase::Failed,
        milestone: None,
        action: JoinAction::Finish(Err(error)),
    };
    assert_eq!(
        join_step(JoinPhase::Configuring, JoinEvent::Completed(Err(1u8))),
        failed(JoinError::Config(1))
    );
    assert_eq!(
        join_step(JoinPhase::Starting, JoinEvent::Completed(Err(2u8))),
        failed(JoinError::Start(2))
    );
    assert_eq!(
        join_step(JoinPhase::PollingStarted, JoinEvent::Polled(Err(3u8))),
        failed(JoinError::Poll(3))
    );
    assert_eq!(
        join_step(JoinPhase::Connecting, JoinEvent::Completed(Err(4u8))),
        failed(JoinError::Connect(4))
    );
    assert_eq!(
        join_step(JoinPhase::PollingConnected, JoinEvent::Polled(Err(5u8))),
        failed(JoinError::Poll(5))
    );
}

#[test]
fn join_ignores_an_event_that_answers_nothing() {
    let unmoved =
        |phase: JoinPhase| JoinStep::<u8> { next: phase, milestone: None, action: JoinAction::Nothing };
    for phase in [JoinPhase::Configuring, JoinPhase::Starting, JoinPhase::Connecting] {
        assert_eq!(join_step(phase, JoinEvent::Slept), unmoved(phase));
        assert_eq!(join_step(phase, JoinEvent::Polled(Ok(true))), unmoved(phase));
        assert_eq!(join_step(phase, JoinEvent::Polled(Err(1))), unmoved(phase));
    }
    for phase in [JoinPhase::PollingStarted, JoinPhase::PollingConnected] {
        assert_eq!(join_step(phase, JoinEvent::Slept), unmoved(phase));
        assert_eq!(join_step(phase, JoinEvent::Completed(Ok(()))), unmoved(phase));
        assert_eq!(join_step(phase, JoinEvent::Completed(Err(1))), unmoved(phase));
    }
    for phase in [JoinPhase::PausingStarted, JoinPhase::PausingConnected] {
        assert_eq!(join_step(phase, JoinEvent::Polled(Ok(true))), unmoved(phase));
        assert_eq!(join_step(phase, JoinEvent::Polled(Ok(false))), unmoved(phase));
        assert_eq!(join_step(phase, JoinEvent::Completed(Ok(()))), unmoved(phase));
    }
}

#[test]
fn join_stays_over() {
    for phase in [JoinPhase::Connected, JoinPhase::Failed] {
        for event in [
            JoinEvent::Slept,
            JoinEvent::Completed(Ok(())),
            JoinEvent::Completed(Err(1u8)),
            JoinEvent::Polled(Ok(true)),
            JoinEvent::Polled(Ok(false)),
            JoinEvent::Polled(Err(2u8)),
        ] {
            assert_eq!(
                join_step(phase, event),
                JoinStep { next: phase, milestone: None, action: JoinAction::Nothing }
            );
        }
    }
}

#[test]
fn milestone_lines_are_exact() {
    let credentials = Credentials::new("Guest Network 5G", "pass");
    assert_eq!(milestone_line(Milestone::ConfigSet, &credentials), "wifi config is set");
    assert_eq!(milestone_line(Milestone::Started, &credentials), "WiFi is started");
    assert_eq!(
        milestone_line(Milestone::Connected, &credentials),
        "WiFi is connected to Guest Network 5G"
    );
    let unnamed = Credentials::new("", "");
    assert_eq!(milestone_line(Milestone::Connected, &unnamed), "WiFi is connected to ");
}

#[test]
fn credentials_keep_both_parts() {
    let credentials = Credentials::new("home", "correct horse");
    assert_eq!(credentials.ssid(), "home");
    assert_eq!(credentials.password(), "correct horse");
}

#[test]
fn join_error_gives_up_the_radio_error() {
    assert_eq!(JoinError::Config("a").into_cause(), "a");
    assert_eq!(JoinError::Start("b").into_cause(), "b");
    assert_eq!(JoinError::Poll("c").into_cause(), "c");
    assert_eq!(JoinError::Connect("d").into_cause(), "d");
}
