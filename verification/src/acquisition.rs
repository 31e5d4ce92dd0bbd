//! The acquisition loop: initialise the sensor once, then measure, report and
//! pause, forever.
//!
//! A measurement that succeeds is reported as one line and followed by a pause
//! of [`SAMPLE_PERIOD_MS`], counted from the end of the measurement. A failure,
//! of the initialisation or of any single measurement, is fatal: the loop halts
//! and stays halted. A device built on this loop should expect that one
//! transient bus fault stops the sampling until it is reset.

use vstd::prelude::*;
use vstd::string::*;

verus! {

/// Pause after each reported measurement, in milliseconds.
pub const SAMPLE_PERIOD_MS: u32 = 1000;

/// One sample of the sensor. Each quantity is held as the decimal text that the
/// report shows: the temperature in degrees Celsius, the pressure in pascals,
/// the relative humidity in percent.
#[derive(Debug, PartialEq, Eq)]
pub struct Measurement {
    pub temperature: String,
    pub pressure: String,
    pub humidity: String,
}

impl Measurement {
    /// The sample with these three readings.
    pub fn new(temperature: &str, pressure: &str, humidity: &str) -> (measurement: Measurement)
        ensures
            measurement.temperature@ == temperature@,
            measurement.pressure@ == pressure@,
            measurement.humidity@ == humidity@,
    {
        Measurement {
            temperature: String::from_str(temperature),
            pressure: String::from_str(pressure),
            humidity: String::from_str(humidity),
        }
    }

    /// The report line of this measurement.
    pub open spec fn line(self) -> Seq<char> {
        report_text(self.temperature@, self.pressure@, self.humidity@)
    }
}

/// The report line for the three quantities, given as text.
pub open spec fn report_text(temperature: Seq<char>, pressure: Seq<char>, humidity: Seq<char>) -> Seq<
    char,
> {
    "Temperature: "@ + temperature + " degC;  Pressure: "@ + pressure + " Pa;  Humidity: "@
        + humidity + "%"@
}

/// Writes the report line of a measurement.
pub fn report_line(measurement: &Measurement) -> (line: String)
    ensures
        line@ == measurement.line(),
{
    let mut line = String::from_str("Temperature: ");
    line.append(measurement.temperature.as_str());
    line.append(" degC;  Pressure: ");
    line.append(measurement.pressure.as_str());
    line.append(" Pa;  Humidity: ");
    line.append(measurement.humidity.as_str());
    line.append("%");
    line
}

/// Why the loop halted. Each variant carries the sensor driver's own error.
#[derive(Debug, PartialEq, Eq)]
pub enum Fatal<E> {
    /// The power-on handshake of the sensor did not complete.
    SensorInit(E),
    /// A measurement failed.
    Measurement(E),
}

/// Where the loop stands.
#[derive(Clone, Copy, Debug, PartialEq, Eq, Structural)]
pub enum AcquirePhase {
    /// The sensor is being initialised.
    Initializing,
    /// A measurement is being taken.
    Measuring,
    /// The pause after a reported measurement is running.
    Pausing,
    /// A fatal condition was raised.
    Halted,
}

/// What the driver hands back to the loop.
#[derive(Debug, PartialEq, Eq)]
pub enum AcquireEvent<E> {
    /// The outcome of `Initialize`.
    Initialized(Result<(), E>),
    /// The outcome of `Measure`.
    Measured(Result<Measurement, E>),
    /// The pause that was requested last has elapsed.
    Slept,
}

/// What the loop asks of its driver.
#[derive(Debug, PartialEq, Eq)]
pub enum AcquireAction<E> {
    /// Run the power-on handshake of the sensor at its primary bus address.
    Initialize,
    /// Trigger one measurement and read it back.
    Measure,
    /// Pause for this many milliseconds.
    Sleep(u32),
    /// Stop for good.
    Halt(Fatal<E>),
    /// The event answered no outstanding request; there is nothing to do.
    Nothing,
}

/// The outcome of one step of the loop: the line to report, if there is one, and
/// then the request to perform.
#[derive(Debug, PartialEq, Eq)]
pub struct AcquireStep<E> {
    /// The phase to hand in with the next event.
    pub next: AcquirePhase,
    /// The line to report.
    pub report: Option<String>,
    /// What to do now.
    pub action: AcquireAction<E>,
}

/// An [`AcquireStep`] with its report as plain text.
pub struct AcquireOutcome<E> {
    pub next: AcquirePhase,
    pub report: Option<Seq<char>>,
    pub action: AcquireAction<E>,
}

impl<E> View for AcquireStep<E> {
    type V = AcquireOutcome<E>;

    open spec fn view(&self) -> AcquireOutcome<E> {
        AcquireOutcome {
            next: self.next,
            report: match self.report {
                Some(line) => Some(line@),
                None => None,
            },
            action: self.action,
        }
    }
}

/// The step that halts the loop because of `cause`.
pub open spec fn halted_by<E>(cause: Fatal<E>) -> AcquireOutcome<E> {
    AcquireOutcome { next: AcquirePhase::Halted, report: None, action: AcquireAction::Halt(cause) }
}

/// The transition function of the loop.
///
/// An event that does not answer the outstanding request, and any event once the
/// loop has halted, leaves the phase as it is, reports nothing and asks for
/// nothing.
pub open spec fn acquire_next<E>(phase: AcquirePhase, event: AcquireEvent<E>) -> AcquireOutcome<E> {
    match (phase, event) {
        (AcquirePhase::Initializing, AcquireEvent::Initialized(Ok(_))) => AcquireOutcome {
            next: AcquirePhase::Measuring,
            report: None,
            action: AcquireAction::Measure,
        },
        (AcquirePhase::Initializing, AcquireEvent::Initialized(Err(e))) => halted_by(
            Fatal::SensorInit(e),
        ),
        (AcquirePhase::Measuring, AcquireEvent::Measured(Ok(measurement))) => AcquireOutcome {
            next: AcquirePhase::Pausing,
            report: Some(measurement.line()),
            action: AcquireAction::Sleep(SAMPLE_PERIOD_MS),
        },
        (AcquirePhase::Measuring, AcquireEvent::Measured(Err(e))) => halted_by(
            Fatal::Measurement(e),
        ),
        (AcquirePhase::Pausing, AcquireEvent::Slept) => AcquireOutcome {
            next: AcquirePhase::Measuring,
            report: None,
            action: AcquireAction::Measure,
        },
        _ => AcquireOutcome { next: phase, report: None, action: AcquireAction::Nothing },
    }
}

/// Opens the loop: the sensor is initialised first.
pub fn acquire_begin<E>() -> (step: AcquireStep<E>)
    ensures
        step@.next == AcquirePhase::Initializing,
        step@.report == None::<Seq<char>>,
        step@.action == AcquireAction::<E>::Initialize,
{
    AcquireStep { next: AcquirePhase::Initializing, report: None, action: AcquireAction::Initialize }
}

/// Advances the loop by one event.
pub fn acquire_step<E>(phase: AcquirePhase, event: AcquireEvent<E>) -> (step: AcquireStep<E>)
    ensures
        step@ == acquire_next(phase, event),
{
    match phase {
        AcquirePhase::Initializing => match event {
            AcquireEvent::Initialized(outcome) => match outcome {
                Ok(_) => AcquireStep {
                    next: AcquirePhase::Measuring,
                    report: None,
                    action: AcquireAction::Measure,
                },
                Err(e) => panic(Fatal::SensorInit(e)),
            },
            _ => unmoved(phase),
        },
        AcquirePhase::Measuring => match event {
            AcquireEvent::Measured(outcome) => match outcome {
                Ok(measurement) => AcquireStep {
                    next: AcquirePhase::Pausing,
                    report: Some(report_line(&measurement)),
                    action: AcquireAction::Sleep(SAMPLE_PERIOD_MS),
                },
                Err(e) => panic(Fatal::Measurement(e)),
            },
            _ => unmoved(phase),
        },
        AcquirePhase::Pausing => match event {
            AcquireEvent::Slept => AcquireStep {
                next: AcquirePhase::Measuring,
                report: None,
                action: AcquireAction::Measure,
            },
            _ => unmoved(phase),
        },
        AcquirePhase::Halted => unmoved(phase),
    }
}

/// Raises a fatal condition: the loop halts, with nothing reported and nothing
/// left to do but to stop.
pub fn panic<E>(cause: Fatal<E>) -> (step: AcquireStep<E>)
    ensures
        step@ == halted_by(cause),
{
    AcquireStep { next: AcquirePhase::Halted, report: None, action: AcquireAction::Halt(cause) }
}

/// The step that leaves `phase` as it is.
fn unmoved<E>(phase: AcquirePhase) -> (step: AcquireStep<E>)
    ensures
        step@ == (AcquireOutcome::<E> { next: phase, report: None, action: AcquireAction::Nothing }),
{
    AcquireStep { next: phase, report: None, action: AcquireAction::Nothing }
}

} // verus!
