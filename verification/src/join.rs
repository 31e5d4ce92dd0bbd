//! Joining a wireless network as a client.
//!
//! The join runs through five requests in a fixed order: apply the credentials
//! as client-mode configuration, start the radio, wait until it reports that it
//! has started, connect, wait until it reports that it is connected. Each wait
//! follows the protocol of [`crate::wait`], with a pause of
//! [`POLL_INTERVAL_MS`] after every `false`. The first request or query that
//! fails ends the join with that error; nothing is retried around the sequence
//! as a whole.

use crate::wait::{wait_step, WaitAction, WaitEvent, WaitPhase};
use vstd::prelude::*;
use vstd::string::*;

verus! {

/// Pause between two status queries, in milliseconds.
pub const POLL_INTERVAL_MS: u32 = 500;

/// The network to join: its identifier and the secret shared with it. The pair
/// is fixed when it is made; whether the radio accepts it shows when the
/// configuration is applied.
pub struct Credentials {
    ssid: String,
    password: String,
}

/// A pair of credentials as plain text.
pub struct CredentialsView {
    pub ssid: Seq<char>,
    pub password: Seq<char>,
}

impl View for Credentials {
    type V = CredentialsView;

    closed spec fn view(&self) -> CredentialsView {
        CredentialsView { ssid: self.ssid@, password: self.password@ }
    }
}

impl Credentials {
    /// The credentials of the network called `ssid`.
    pub fn new(ssid: &str, password: &str) -> (credentials: Credentials)
        ensures
            credentials@.ssid == ssid@,
            credentials@.password == password@,
    {
        Credentials { ssid: String::from_str(ssid), password: String::from_str(password) }
    }

    /// The network identifier.
    pub fn ssid(&self) -> (ssid: &str)
        ensures
            ssid@ == self@.ssid,
    {
        self.ssid.as_str()
    }

    /// The shared secret.
    pub fn password(&self) -> (password: &str)
        ensures
            password@ == self@.password,
    {
        self.password.as_str()
    }
}

/// Why a join ended without a connection. Each variant carries the radio's own
/// error, untouched.
#[derive(Debug, PartialEq, Eq)]
pub enum JoinError<E> {
    /// The radio rejected the configuration.
    Config(E),
    /// The radio could not be started.
    Start(E),
    /// A status query failed while waiting.
    Poll(E),
    /// The radio rejected the request to connect.
    Connect(E),
}

impl<E> JoinError<E> {
    /// The radio's error, without the phase in which it arose.
    pub open spec fn cause(self) -> E {
        match self {
            JoinError::Config(e) => e,
            JoinError::Start(e) => e,
            JoinError::Poll(e) => e,
            JoinError::Connect(e) => e,
        }
    }

    /// Gives up the phase and hands out the radio's error.
    pub fn into_cause(self) -> (error: E)
        ensures
            error == self.cause(),
    {
        match self {
            JoinError::Config(e) => e,
            JoinError::Start(e) => e,
            JoinError::Poll(e) => e,
            JoinError::Connect(e) => e,
        }
    }
}

/// Where a join stands. Apart from the two final phases, each phase names the
/// request that is outstanding.
#[derive(Clone, Copy, Debug, PartialEq, Eq, Structural)]
pub enum JoinPhase {
    /// The configuration is being applied.
    Configuring,
    /// The radio is being started.
    Starting,
    /// The radio has been asked whether it has started.
    PollingStarted,
    /// It had not; the pause before asking again is running.
    PausingStarted,
    /// The connection is being requested.
    Connecting,
    /// The radio has been asked whether it is connected.
    PollingConnected,
    /// It was not; the pause before asking again is running.
    PausingConnected,
    /// The join has succeeded.
    Connected,
    /// The join has failed.
    Failed,
}

/// What the driver hands back to a join.
#[derive(Debug, PartialEq, Eq)]
pub enum JoinEvent<E> {
    /// The outcome of `Configure`, `Start` or `Connect`.
    Completed(Result<(), E>),
    /// The answer to `PollStarted` or `PollConnected`.
    Polled(Result<bool, E>),
    /// The pause that was requested last has elapsed.
    Slept,
}

/// What a join asks of its driver.
#[derive(Debug, PartialEq, Eq)]
pub enum JoinAction<E> {
    /// Apply the credentials to the radio as client-mode configuration.
    Configure,
    /// Start the radio.
    Start,
    /// Ask the radio whether it has started.
    PollStarted,
    /// Ask the radio to connect.
    Connect,
    /// Ask the radio whether it is connected.
    PollConnected,
    /// Pause for this many milliseconds.
    Sleep(u32),
    /// The join is over, with this result.
    Finish(Result<(), JoinError<E>>),
    /// The event answered no outstanding request; there is nothing to do.
    Nothing,
}

/// A point of progress that is worth a line in the log.
#[derive(Clone, Copy, Debug, PartialEq, Eq, Structural)]
pub enum Milestone {
    /// The radio has accepted the configuration.
    ConfigSet,
    /// The radio has reported that it started.
    Started,
    /// The radio has reported that it is connected.
    Connected,
}

/// The outcome of one step of a join: the milestone to log, if one was reached,
/// and then the request to perform.
#[derive(Debug, PartialEq, Eq)]
pub struct JoinStep<E> {
    /// The phase to hand in with the next event.
    pub next: JoinPhase,
    /// The milestone reached by this step.
    pub milestone: Option<Milestone>,
    /// What to do now.
    pub action: JoinAction<E>,
}

/// The transition function of the join.
///
/// An event that does not answer the outstanding request, and any event once the
/// join is over, leaves the phase as it is and asks for nothing.
pub open spec fn join_next<E>(phase: JoinPhase, event: JoinEvent<E>) -> JoinStep<E> {
    match (phase, event) {
        (JoinPhase::Configuring, JoinEvent::Completed(Ok(_))) => JoinStep {
            next: JoinPhase::Starting,
            milestone: Some(Milestone::ConfigSet),
            action: JoinAction::Start,
        },
        (JoinPhase::Configuring, JoinEvent::Completed(Err(e))) => JoinStep {
            next: JoinPhase::Failed,
            milestone: None,
            action: JoinAction::Finish(Err(JoinError::Config(e))),
        },
        (JoinPhase::Starting, JoinEvent::Completed(Ok(_))) => JoinStep {
            next: JoinPhase::PollingStarted,
            milestone: None,
            action: JoinAction::PollStarted,
        },
        (JoinPhase::Starting, JoinEvent::Completed(Err(e))) => JoinStep {
            next: JoinPhase::Failed,
            milestone: None,
            action: JoinAction::Finish(Err(JoinError::Start(e))),
        },
        (JoinPhase::PollingStarted, JoinEvent::Polled(Ok(true))) => JoinStep {
            next: JoinPhase::Connecting,
            milestone: Some(Milestone::Started),
            action: JoinAction::Connect,
        },
        (JoinPhase::PollingStarted, JoinEvent::Polled(Ok(false))) => JoinStep {
            next: JoinPhase::PausingStarted,
            milestone: None,
            action: JoinAction::Sleep(POLL_INTERVAL_MS),
        },
        (JoinPhase::PausingStarted, JoinEvent::Slept) => JoinStep {
            next: JoinPhase::PollingStarted,
            milestone: None,
            action: JoinAction::PollStarted,
        },
        (JoinPhase::Connecting, JoinEvent::Completed(Ok(_))) => JoinStep {
            next: JoinPhase::PollingConnected,
            milestone: None,
            action: JoinAction::PollConnected,
        },
        (JoinPhase::Connecting, JoinEvent::Completed(Err(e))) => JoinStep {
            next: JoinPhase::Failed,
            milestone: None,
            action: JoinAction::Finish(Err(JoinError::Connect(e))),
        },
        (JoinPhase::PollingConnected, JoinEvent::Polled(Ok(true))) => JoinStep {
            next: JoinPhase::Connected,
            milestone: Some(Milestone::Connected),
            action: JoinAction::Finish(Ok(())),
        },
        (JoinPhase::PollingConnected, JoinEvent::Polled(Ok(false))) => JoinStep {
            next: JoinPhase::PausingConnected,
            milestone: None,
            action: JoinAction::Sleep(POLL_INTERVAL_MS),
        },
        (JoinPhase::PausingConnected, JoinEvent::Slept) => JoinStep {
            next: JoinPhase::PollingConnected,
            milestone: None,
            action: JoinAction::PollConnected,
        },
        (JoinPhase::PollingStarted, JoinEvent::Polled(Err(e))) => JoinStep {
            next: JoinPhase::Failed,
            milestone: None,
            action: JoinAction::Finish(Err(JoinError::Poll(e))),
        },
        (JoinPhase::PollingConnected, JoinEvent::Polled(Err(e))) => JoinStep {
            next: JoinPhase::Failed,
            milestone: None,
            action: JoinAction::Finish(Err(JoinError::Poll(e))),
        },
        _ => JoinStep { next: phase, milestone: None, action: JoinAction::Nothing },
    }
}

/// Opens a join: the configuration is applied first.
pub fn join_begin<E>() -> (step: JoinStep<E>)
    ensures
        step.next == JoinPhase::Configuring,
        step.milestone == None::<Milestone>,
        step.action == JoinAction::<E>::Configure,
{
    JoinStep { next: JoinPhase::Configuring, milestone: None, action: JoinAction::Configure }
}

/// Advances a join by one event.
pub fn join_step<E>(phase: JoinPhase, event: JoinEvent<E>) -> (step: JoinStep<E>)
    ensures
        step == join_next(phase, event),
{
    match phase {
        JoinPhase::Configuring => match event {
            JoinEvent::Completed(outcome) => match outcome {
                Ok(_) => JoinStep {
                    next: JoinPhase::Starting,
                    milestone: Some(Milestone::ConfigSet),
                    action: JoinAction::Start,
                },
                Err(e) => failed(JoinError::Config(e)),
            },
            _ => ignored(phase),
        },
        JoinPhase::Starting => match event {
            JoinEvent::Completed(outcome) => match outcome {
                Ok(_) => JoinStep {
                    next: JoinPhase::PollingStarted,
                    milestone: None,
                    action: JoinAction::PollStarted,
                },
                Err(e) => failed(JoinError::Start(e)),
            },
            _ => ignored(phase),
        },
        JoinPhase::Connecting => match event {
            JoinEvent::Completed(outcome) => match outcome {
                Ok(_) => JoinStep {
                    next: JoinPhase::PollingConnected,
                    milestone: None,
                    action: JoinAction::PollConnected,
                },
                Err(e) => failed(JoinError::Connect(e)),
            },
            _ => ignored(phase),
        },
        JoinPhase::PollingStarted | JoinPhase::PausingStarted | JoinPhase::PollingConnected
        | JoinPhase::PausingConnected => {
            match event {
                JoinEvent::Completed(_) => ignored(phase),
                JoinEvent::Polled(answer) => waited(phase, WaitEvent::Polled(answer)),
                JoinEvent::Slept => waited(phase, WaitEvent::Slept),
            }
        },
        _ => ignored(phase),
    }
}

/// Whether `phase` belongs to the wait for the radio to start.
fn awaits_start(phase: JoinPhase) -> (yes: bool)
    ensures
        yes <==> phase == JoinPhase::PollingStarted || phase == JoinPhase::PausingStarted,
{
    match phase {
        JoinPhase::PollingStarted | JoinPhase::PausingStarted => true,
        _ => false,
    }
}

/// One step of the wait that `phase` belongs to.
fn waited<E>(phase: JoinPhase, event: WaitEvent<E>) -> (step: JoinStep<E>)
    requires
        phase == JoinPhase::PollingStarted || phase == JoinPhase::PausingStarted || phase
            == JoinPhase::PollingConnected || phase == JoinPhase::PausingConnected,
    ensures
        step == join_next(
            phase,
            match event {
                WaitEvent::Polled(answer) => JoinEvent::Polled(answer),
                WaitEvent::Slept => JoinEvent::Slept,
            },
        ),
{
    let for_start = awaits_start(phase);
    let polling = match phase {
        JoinPhase::PollingStarted | JoinPhase::PollingConnected => WaitPhase::Polling,
        _ => WaitPhase::Pausing,
    };
    let inner = wait_step(polling, event, POLL_INTERVAL_MS);
    match inner.action {
        WaitAction::Poll => if for_start {
            JoinStep { next: JoinPhase::PollingStarted, milestone: None, action: JoinAction::PollStarted }
        } else {
            JoinStep {
                next: JoinPhase::PollingConnected,
                milestone: None,
                action: JoinAction::PollConnected,
            }
        },
        WaitAction::Sleep(ms) => JoinStep {
            next: if for_start {
                JoinPhase::PausingStarted
            } else {
                JoinPhase::PausingConnected
            },
            milestone: None,
            action: JoinAction::Sleep(ms),
        },
        WaitAction::Finish(outcome) => match outcome {
            Ok(_) => if for_start {
                JoinStep {
                    next: JoinPhase::Connecting,
                    milestone: Some(Milestone::Started),
                    action: JoinAction::Connect,
                }
            } else {
                JoinStep {
                    next: JoinPhase::Connected,
                    milestone: Some(Milestone::Connected),
                    action: JoinAction::Finish(Ok(())),
                }
            },
            Err(e) => failed(JoinError::Poll(e)),
        },
        WaitAction::Nothing => ignored(phase),
    }
}

/// The step that ends a join with `error`.
fn failed<E>(error: JoinError<E>) -> (step: JoinStep<E>)
    ensures
        step.next == JoinPhase::Failed,
        step.milestone == None::<Milestone>,
        step.action == JoinAction::Finish(Err(error)),
{
    JoinStep { next: JoinPhase::Failed, milestone: None, action: JoinAction::Finish(Err(error)) }
}

/// The step that leaves `phase` as it is.
fn ignored<E>(phase: JoinPhase) -> (step: JoinStep<E>)
    ensures
        step.next == phase,
        step.milestone == None::<Milestone>,
        step.action == JoinAction::<E>::Nothing,
{
    JoinStep { next: phase, milestone: None, action: JoinAction::Nothing }
}

/// The log line of a milestone, for a network called `ssid`.
pub open spec fn milestone_text(milestone: Milestone, ssid: Seq<char>) -> Seq<char> {
    match milestone {
        Milestone::ConfigSet => "wifi config is set"@,
        Milestone::Started => "WiFi is started"@,
        Milestone::Connected => "WiFi is connected to "@ + ssid,
    }
}

/// The log lines of `milestones`, in order, for a network called `ssid`.
pub open spec fn milestone_lines(milestones: Seq<Milestone>, ssid: Seq<char>) -> Seq<Seq<char>> {
    milestones.map_values(|milestone: Milestone| milestone_text(milestone, ssid))
}

/// Writes the log line of a milestone.
pub fn milestone_line(milestone: Milestone, credentials: &Credentials) -> (line: String)
    ensures
        line@ == milestone_text(milestone, credentials@.ssid),
{
    match milestone {
        Milestone::ConfigSet => String::from_str("wifi config is set"),
        Milestone::Started => String::from_str("WiFi is started"),
        Milestone::Connected => {
            let mut line = String::from_str("WiFi is connected to ");
            line.append(credentials.ssid());
            line
        },
    }
}

} // verus!
