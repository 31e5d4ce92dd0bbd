//! The status light: an output pin that changes level once a period, each
//! change followed by a line that tells the level now driven.
//!
//! The light is wired so that a high level switches it off; it starts off.

use vstd::prelude::*;
use vstd::string::*;

verus! {

/// Pause before each change of level, in milliseconds.
pub const BLINK_PERIOD_MS: u32 = 1000;

/// The level of the output pin.
#[derive(Clone, Copy, Debug, PartialEq, Eq, Structural)]
pub enum PinLevel {
    Low,
    High,
}

/// What the blinker asks of its driver, in this order: pause, drive the pin,
/// write the line.
#[derive(Debug, PartialEq, Eq)]
pub struct BlinkStep {
    /// How long to pause first, in milliseconds.
    pub sleep_ms: u32,
    /// The level to drive the pin to.
    pub level: PinLevel,
    /// The line to write.
    pub line: String,
}

/// The other level.
pub open spec fn opposite(level: PinLevel) -> PinLevel {
    match level {
        PinLevel::Low => PinLevel::High,
        PinLevel::High => PinLevel::Low,
    }
}

/// The line that tells `level`.
pub open spec fn level_text(level: PinLevel) -> Seq<char> {
    match level {
        PinLevel::Low => "pin level is Low"@,
        PinLevel::High => "pin level is High"@,
    }
}

/// The level after `changes` changes, starting from `level`.
pub open spec fn level_after(level: PinLevel, changes: nat) -> PinLevel
    decreases changes,
{
    if changes == 0 {
        level
    } else {
        opposite(level_after(level, (changes - 1) as nat))
    }
}

/// The level that the pin is given at start: the light is off.
pub fn initial_level() -> (level: PinLevel)
    ensures
        level == PinLevel::High,
{
    PinLevel::High
}

/// Changes the level.
pub fn toggled(level: PinLevel) -> (next: PinLevel)
    ensures
        next == opposite(level),
{
    match level {
        PinLevel::Low => PinLevel::High,
        PinLevel::High => PinLevel::Low,
    }
}

/// Writes the line that tells `level`.
pub fn level_line(level: PinLevel) -> (line: String)
    ensures
        line@ == level_text(level),
{
    match level {
        PinLevel::Low => String::from_str("pin level is Low"),
        PinLevel::High => String::from_str("pin level is High"),
    }
}

/// One round of the blinker, for a pin that is at `level`: after a pause of the
/// blink period the pin is driven to the other level, and that level is told.
pub fn blink_step(level: PinLevel) -> (step: BlinkStep)
    ensures
        step.sleep_ms == BLINK_PERIOD_MS,
        step.level == opposite(level),
        step.line@ == level_text(opposite(level)),
{
    let next = toggled(level);
    BlinkStep { sleep_ms: BLINK_PERIOD_MS, level: next, line: level_line(next) }
}

/// Two changes bring the level back: the light is off after every even number
/// of rounds and on after every odd number.
pub proof fn law_blink_alternates(level: PinLevel, changes: nat)
    ensures
        opposite(opposite(level)) == level,
        level_after(level, changes) == if changes % 2 == 0 {
            level
        } else {
            opposite(level)
        },
    decreases changes,
{
    if changes > 0 {
        law_blink_alternates(level, (changes - 1) as nat);
    }
}

} // verus!
