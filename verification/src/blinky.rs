//! The "blinky" loop that uses blocking delays instead of a timer.
//!
//! The LED sits on PA0, configured as a push-pull output. The loop drives it
//! high, waits `1_000` ms through the delay provider's millisecond interface,
//! drives it low and waits one second given as a microsecond duration, then
//! starts over.

use vstd::prelude::*;
use crate::clock::micros_in_secs;

verus! {

/// Output level of a push-pull pin.
#[derive(Clone, Copy, Debug, PartialEq, Eq, Structural)]
pub enum PinLevel {
    Low,
    High,
}

/// A blocking wait, in the unit in which the loop hands it to the delay
/// provider.
#[derive(Clone, Copy, Debug, PartialEq, Eq, Structural)]
pub enum Wait {
    /// `delay_ms` with a 16-bit millisecond count.
    Millis(u16),
    /// `delay` with a microsecond duration.
    Micros(u32),
}

impl Wait {
    /// Length of the wait in microseconds.
    pub open spec fn micros(self) -> int {
        match self {
            Wait::Millis(ms) => ms * 1000,
            Wait::Micros(us) => us as int,
        }
    }
}

/// One pass of the loop body: drive the LED to `level`, then block for `wait`.
#[derive(Clone, Copy, Debug, PartialEq, Eq, Structural)]
pub struct LedCommand {
    pub level: PinLevel,
    pub wait: Wait,
}

/// Which half of the blink period comes next.
#[derive(Clone, Copy, Debug, PartialEq, Eq, Structural)]
pub enum BlinkPhase {
    /// LED on, waited out in milliseconds.
    On,
    /// LED off, waited out as a one-second duration.
    Off,
}

/// The command for a phase and the phase that follows it.
pub open spec fn blinky_step_spec(phase: BlinkPhase) -> (LedCommand, BlinkPhase) {
    match phase {
        BlinkPhase::On => (
            LedCommand { level: PinLevel::High, wait: Wait::Millis(1000) },
            BlinkPhase::Off,
        ),
        BlinkPhase::Off => (
            LedCommand { level: PinLevel::Low, wait: Wait::Micros(1_000_000) },
            BlinkPhase::On,
        ),
    }
}

/// The loop starts with the LED-on half.
pub fn blinky_start() -> (phase: BlinkPhase)
    ensures
        phase == BlinkPhase::On,
{
    BlinkPhase::On
}

/// The command the loop performs in `phase`, and the phase after it.
pub fn blinky_step(phase: BlinkPhase) -> (step: (LedCommand, BlinkPhase))
    ensures
        step == blinky_step_spec(phase),
        (phase == BlinkPhase::On) == (step.0.level == PinLevel::High),
        phase == BlinkPhase::On ==> step.0.wait == Wait::Millis(1000),
        phase == BlinkPhase::Off ==> step.0.wait == Wait::Micros(1_000_000),
        step.1 != phase,
{
    match phase {
        BlinkPhase::On => (
            LedCommand { level: PinLevel::High, wait: Wait::Millis(1000) },
            BlinkPhase::Off,
        ),
        BlinkPhase::Off => (
            LedCommand { level: PinLevel::Low, wait: Wait::Micros(micros_in_secs(1)) },
            BlinkPhase::On,
        ),
    }
}

/// Blink law: from any phase, two steps come back to it; the two commands
/// drive the LED to opposite levels; and each half of the period waits one
/// second, although one wait is given in milliseconds and the other as a
/// microsecond duration.
pub proof fn lemma_blinky_period(phase: BlinkPhase)
    ensures
        blinky_step_spec(blinky_step_spec(phase).1).1 == phase,
        blinky_step_spec(phase).0.level != blinky_step_spec(blinky_step_spec(phase).1).0.level,
        blinky_step_spec(phase).0.wait.micros() == 1_000_000,
        blinky_step_spec(blinky_step_spec(phase).1).0.wait.micros() == 1_000_000,
{
}

/// Phase law: the `On` half drives the LED high and waits `1_000` ms through
/// `delay_ms`; the `Off` half drives it low and waits one second given in
/// microseconds; each half is followed by the other.
pub proof fn lemma_blinky_phases(phase: BlinkPhase)
    ensures
        (phase == BlinkPhase::On) == (blinky_step_spec(phase).0.level == PinLevel::High),
        (phase == BlinkPhase::Off) == (blinky_step_spec(phase).0.level == PinLevel::Low),
        phase == BlinkPhase::On ==> blinky_step_spec(phase).0.wait == Wait::Millis(1000),
        phase == BlinkPhase::Off ==> blinky_step_spec(phase).0.wait == Wait::Micros(1_000_000),
        blinky_step_spec(phase).1 != phase,
{
}

} // verus!
