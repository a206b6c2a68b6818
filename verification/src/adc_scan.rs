//! The regular conversion sequence of the multichannel ADC scan demo.
//!
//! ADC1 converts the analog inputs PA0 to PA3 (channels 0 to 3) in scan
//! mode, continuously, each with a sample time of 55.5 ADC clock cycles, and
//! DMA channel 1 moves the results into memory.

use vstd::prelude::*;

verus! {

/// Whether the scan runs in continuous mode.
pub const SCAN_CONTINUOUS: bool = true;

/// The channels of the regular sequence, in conversion order.
pub fn scan_sequence() -> (channels: [u8; 4])
    ensures
        channels@ == seq![0u8, 1u8, 2u8, 3u8],
{
    [0, 1, 2, 3]
}

} // verus!
