//! The blinky that drives PA0 through the C standard peripheral library.
//!
//! The program enables the GPIOA clock on APB2, configures pin 0 of GPIOA as a
//! 50 MHz push-pull output, and then loops: it resets the pin, waits 500 ms,
//! sets it, waits 500 ms, and does the same again through `GPIO_WriteBit`
//! with `Bit_RESET` and `Bit_SET`. Before each of the two pairs it logs a
//! marker line.

use vstd::prelude::*;
use crate::blinky::PinLevel;

verus! {

/// `GPIO_Pin_0`: the pin mask that selects pin 0 of a port.
#[allow(non_upper_case_globals)]
pub const GPIO_Pin_0: u16 = 0x0001;

/// `RCC_APB2Periph_GPIOA`: the APB2 clock-enable bit of port A.
#[allow(non_upper_case_globals)]
pub const RCC_APB2Periph_GPIOA: u32 = 0x0000_0004;

/// Base address of the peripheral region.
pub const PERIPH_BASE: u32 = 0x4000_0000;

/// Base address of the APB2 peripherals: `PERIPH_BASE + 0x10000`.
pub const APB2PERIPH_BASE: u32 = PERIPH_BASE + 0x1_0000;

/// Base address of the GPIOA register block: `APB2PERIPH_BASE + 0x0800`,
/// a byte offset, as the peripheral library defines it.
pub const GPIOA_BASE: u32 = APB2PERIPH_BASE + 0x0800;

/// Wait after each pin write, in milliseconds.
pub const BLINK_DELAY_MS: u32 = 500;

/// `BitAction` of the peripheral library: the value `GPIO_WriteBit` writes.
#[derive(Clone, Copy, Debug, PartialEq, Eq, Structural)]
pub enum BitAction {
    /// `Bit_RESET`
    BitReset,
    /// `Bit_SET`
    BitSet,
}

/// The pin write a loop pass makes.
#[derive(Clone, Copy, Debug, PartialEq, Eq, Structural)]
pub enum GpioWrite {
    /// `GPIO_ResetBits(port, pins)`
    ResetBits,
    /// `GPIO_SetBits(port, pins)`
    SetBits,
    /// `GPIO_WriteBit(port, pins, action)`
    WriteBit(BitAction),
}

impl GpioWrite {
    /// The level the write drives the selected pins to.
    pub open spec fn level(self) -> PinLevel {
        match self {
            GpioWrite::ResetBits => PinLevel::Low,
            GpioWrite::SetBits => PinLevel::High,
            GpioWrite::WriteBit(BitAction::BitReset) => PinLevel::Low,
            GpioWrite::WriteBit(BitAction::BitSet) => PinLevel::High,
        }
    }
}

/// One pass of the loop: log `marker` if there is one, make `write` on the
/// pins selected by `pins` of GPIOA, then wait `delay_ms` milliseconds.
#[derive(Clone, Copy, Debug)]
pub struct GpioCommand {
    pub marker: Option<&'static str>,
    pub write: GpioWrite,
    pub pins: u16,
    pub delay_ms: u32,
}

/// Which of the four writes of the loop comes next.
#[derive(Clone, Copy, Debug, PartialEq, Eq, Structural)]
pub enum FfiBlinkPhase {
    ResetBits,
    SetBits,
    WriteReset,
    WriteSet,
}

/// The phase that follows `phase`.
pub open spec fn next_phase(phase: FfiBlinkPhase) -> FfiBlinkPhase {
    match phase {
        FfiBlinkPhase::ResetBits => FfiBlinkPhase::SetBits,
        FfiBlinkPhase::SetBits => FfiBlinkPhase::WriteReset,
        FfiBlinkPhase::WriteReset => FfiBlinkPhase::WriteSet,
        FfiBlinkPhase::WriteSet => FfiBlinkPhase::ResetBits,
    }
}

/// The write made in `phase`.
pub open spec fn phase_write(phase: FfiBlinkPhase) -> GpioWrite {
    match phase {
        FfiBlinkPhase::ResetBits => GpioWrite::ResetBits,
        FfiBlinkPhase::SetBits => GpioWrite::SetBits,
        FfiBlinkPhase::WriteReset => GpioWrite::WriteBit(BitAction::BitReset),
        FfiBlinkPhase::WriteSet => GpioWrite::WriteBit(BitAction::BitSet),
    }
}

/// The marker logged before the write of `phase`.
pub open spec fn phase_marker(phase: FfiBlinkPhase) -> Option<&'static str> {
    match phase {
        FfiBlinkPhase::ResetBits => Some("d..."),
        FfiBlinkPhase::WriteReset => Some("dd..."),
        _ => None,
    }
}

/// The loop starts with `GPIO_ResetBits`.
pub fn ffi_blinky_start() -> (phase: FfiBlinkPhase)
    ensures
        phase == FfiBlinkPhase::ResetBits,
{
    FfiBlinkPhase::ResetBits
}

/// The command the loop performs in `phase`, and the phase after it.
pub fn ffi_blinky_step(phase: FfiBlinkPhase) -> (step: (GpioCommand, FfiBlinkPhase))
    ensures
        step.0.marker == phase_marker(phase),
        step.0.write == phase_write(phase),
        step.0.pins == GPIO_Pin_0,
        step.0.delay_ms == BLINK_DELAY_MS,
        step.1 == next_phase(phase),
        (phase == FfiBlinkPhase::ResetBits) == (step.0.write == GpioWrite::ResetBits),
        (phase == FfiBlinkPhase::SetBits) == (step.0.write == GpioWrite::SetBits),
        (phase == FfiBlinkPhase::WriteReset) == (step.0.write == GpioWrite::WriteBit(
            BitAction::BitReset,
        )),
        (phase == FfiBlinkPhase::WriteSet) == (step.0.write == GpioWrite::WriteBit(
            BitAction::BitSet,
        )),
        (step.0.marker == Some("d...")) == (step.0.write == GpioWrite::ResetBits),
        (step.0.marker == Some("dd...")) == (step.0.write == GpioWrite::WriteBit(
            BitAction::BitReset,
        )),
{
    match phase {
        FfiBlinkPhase::ResetBits => (
            GpioCommand {
                marker: Some("d..."),
                write: GpioWrite::ResetBits,
                pins: GPIO_Pin_0,
                delay_ms: BLINK_DELAY_MS,
            },
            FfiBlinkPhase::SetBits,
        ),
        FfiBlinkPhase::SetBits => (
            GpioCommand {
                marker: None,
                write: GpioWrite::SetBits,
                pins: GPIO_Pin_0,
                delay_ms: BLINK_DELAY_MS,
            },
            FfiBlinkPhase::WriteReset,
        ),
        FfiBlinkPhase::WriteReset => (
            GpioCommand {
                marker: Some("dd..."),
                write: GpioWrite::WriteBit(BitAction::BitReset),
                pins: GPIO_Pin_0,
                delay_ms: BLINK_DELAY_MS,
            },
            FfiBlinkPhase::WriteSet,
        ),
        FfiBlinkPhase::WriteSet => (
            GpioCommand {
                marker: None,
                write: GpioWrite::WriteBit(BitAction::BitSet),
                pins: GPIO_Pin_0,
                delay_ms: BLINK_DELAY_MS,
            },
            FfiBlinkPhase::ResetBits,
        ),
    }
}

/// Blink law of the loop: four steps come back to any phase; each write
/// drives pin 0 to the level opposite to the previous write, so the pin
/// toggles every 500 ms; and the library's two ways of driving the pin low
/// (or high) drive it to the same level.
pub proof fn lemma_ffi_blinky_cycle(phase: FfiBlinkPhase)
    ensures
        next_phase(next_phase(next_phase(next_phase(phase)))) == phase,
        phase_write(next_phase(phase)).level() != phase_write(phase).level(),
        GpioWrite::WriteBit(BitAction::BitReset).level() == GpioWrite::ResetBits.level(),
        GpioWrite::WriteBit(BitAction::BitSet).level() == GpioWrite::SetBits.level(),
{
}

/// Phase law: each phase makes the write it is named after (`ResetBits`
/// calls `GPIO_ResetBits`, `SetBits` calls `GPIO_SetBits`, `WriteReset` and
/// `WriteSet` call `GPIO_WriteBit` with `Bit_RESET` and `Bit_SET`); the writes
/// follow one another in the loop's order `GPIO_ResetBits`, `GPIO_SetBits`,
/// `GPIO_WriteBit(Bit_RESET)`, `GPIO_WriteBit(Bit_SET)`, and again; the marker
/// `d...` is logged right before `GPIO_ResetBits`, `dd...` right before
/// `GPIO_WriteBit(Bit_RESET)`, and no marker before the other two writes.
pub proof fn lemma_ffi_blinky_phases(phase: FfiBlinkPhase)
    ensures
        (phase == FfiBlinkPhase::ResetBits) == (phase_write(phase) == GpioWrite::ResetBits),
        (phase == FfiBlinkPhase::SetBits) == (phase_write(phase) == GpioWrite::SetBits),
        (phase == FfiBlinkPhase::WriteReset) == (phase_write(phase) == GpioWrite::WriteBit(
            BitAction::BitReset,
        )),
        (phase == FfiBlinkPhase::WriteSet) == (phase_write(phase) == GpioWrite::WriteBit(
            BitAction::BitSet,
        )),
        phase == FfiBlinkPhase::ResetBits ==> next_phase(phase) == FfiBlinkPhase::SetBits,
        phase == FfiBlinkPhase::SetBits ==> next_phase(phase) == FfiBlinkPhase::WriteReset,
        phase == FfiBlinkPhase::WriteReset ==> next_phase(phase) == FfiBlinkPhase::WriteSet,
        phase == FfiBlinkPhase::WriteSet ==> next_phase(phase) == FfiBlinkPhase::ResetBits,
        phase_write(phase) == GpioWrite::ResetBits ==> phase_write(next_phase(phase))
            == GpioWrite::SetBits,
        phase_write(phase) == GpioWrite::SetBits ==> phase_write(next_phase(phase))
            == GpioWrite::WriteBit(BitAction::BitReset),
        phase_write(phase) == GpioWrite::WriteBit(BitAction::BitReset) ==> phase_write(
            next_phase(phase),
        ) == GpioWrite::WriteBit(BitAction::BitSet),
        phase_write(phase) == GpioWrite::WriteBit(BitAction::BitSet) ==> phase_write(
            next_phase(phase),
        ) == GpioWrite::ResetBits,
        (phase_marker(phase) == Some("d...")) == (phase_write(phase) == GpioWrite::ResetBits),
        (phase_marker(phase) == Some("dd...")) == (phase_write(phase) == GpioWrite::WriteBit(
            BitAction::BitReset,
        )),
        (phase_marker(phase) == None::<&'static str>) == (phase_write(phase).level()
            == PinLevel::High),
{
}

/// Address law: GPIOA's register block lies `0x0800` bytes above the APB2
/// peripheral base, which lies `0x1_0000` bytes above the peripheral base.
pub proof fn lemma_gpioa_base_address()
    ensures
        GPIOA_BASE == 0x4001_0800,
        GPIOA_BASE == PERIPH_BASE + 0x1_0000 + 0x0800,
{
}

} // verus!
