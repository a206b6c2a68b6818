//! Time and frequency values the demos hand to the HAL, in the HAL's units.
//!
//! The HAL counts durations for the SysTick delay in whole microseconds and
//! frequencies in hertz (both `u32`). The conversions are the HAL's own
//! (its `time` module); this module calls them and states what they return.

use vstd::prelude::*;

verus! {

/// The ADC clock frequency, in MHz, that the DMA demos request from the
/// clock tree before freezing it.
pub const ADC_CLOCK_REQUEST_MHZ: u32 = 72;

/// Microseconds in `secs` seconds: `MicroSeconds::secs` (fugit's
/// `Duration<u32, 1, 1_000_000>`, re-exported by the HAL) stores
/// `1_000_000 * secs` ticks. The product is a `u32` multiplication, so
/// `requires` leaves out the arguments on which it overflows.
#[verifier::external_body]
pub(crate) fn micros_in_secs(secs: u32) -> (us: u32)
    requires
        secs * 1_000_000 <= u32::MAX,
    ensures
        us == secs * 1_000_000,
{
    stm32f1xx_hal::time::MicroSeconds::secs(secs).ticks()
}

/// Hertz in `mhz` megahertz: `Hertz::MHz` (fugit's `Rate<u32, 1, 1>`) stores
/// `1_000_000 * mhz` as its raw value; `requires` leaves out the arguments on
/// which that `u32` product overflows.
#[verifier::external_body]
fn hertz_in_mhz(mhz: u32) -> (hz: u32)
    requires
        mhz * 1_000_000 <= u32::MAX,
    ensures
        hz == mhz * 1_000_000,
{
    stm32f1xx_hal::time::Hertz::MHz(mhz).raw()
}

/// Whole megahertz in a frequency of `hz` hertz: `Hertz::to_MHz` returns the
/// raw value divided by `1_000_000`, rounded down.
#[verifier::external_body]
fn whole_mhz(hz: u32) -> (mhz: u32)
    ensures
        mhz == hz / 1_000_000,
{
    stm32f1xx_hal::time::Hertz::from_raw(hz).to_MHz()
}

/// The ADC clock frequency, in hertz, that the DMA demos pass to
/// `CFGR::adcclk` (the HAL then picks the prescaler that comes closest).
pub fn adc_clock_request_hz() -> (hz: u32)
    ensures
        hz == ADC_CLOCK_REQUEST_MHZ * 1_000_000,
        hz == 72_000_000,
{
    hertz_in_mhz(ADC_CLOCK_REQUEST_MHZ)
}

/// The ADC clock frequency that the memory-address demo reports, in whole
/// megahertz, given the frozen ADC clock in hertz.
pub fn adc_clock_mhz(adcclk_hz: u32) -> (mhz: u32)
    ensures
        mhz == adcclk_hz / 1_000_000,
{
    whole_mhz(adcclk_hz)
}

} // verus!
