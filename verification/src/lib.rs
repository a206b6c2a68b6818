//! Verified decision logic of a set of STM32F103 ("blue pill") demo programs.
//!
//! Each module holds what one firmware program decides between its hardware
//! accesses: which level an LED pin is driven to and for how long, how an
//! interrupt handler updates its counter, which fields the OLED screen shows,
//! and the clock and register constants the programs work with. The firmware
//! performs the accesses and hands the library plain values.

pub mod adc_scan;
pub mod blinky;
pub mod clock;
pub mod ffi_blinky;
pub mod screen;
pub mod sensor_count;
