use stm32f1_demo::adc_scan::{scan_sequence, SCAN_CONTINUOUS};
use stm32f1_demo::clock::{adc_clock_mhz, adc_clock_request_hz, ADC_CLOCK_REQUEST_MHZ};

#[test]
fn adc_clock_request_is_72_mhz_in_hertz() {
    assert_eq!(ADC_CLOCK_REQUEST_MHZ, 72);
    assert_eq!(adc_clock_request_hz(), 72_000_000);
}

#[test]
fn adc_clock_reported_in_whole_mhz() {
    assert_eq!(adc_clock_mhz(4_000_000), 4);
    assert_eq!(adc_clock_mhz(13_999_999), 13);
    assert_eq!(adc_clock_mhz(999_999), 0);
}

#[test]
fn adc_scan_sequence_channels() {
    assert_eq!(scan_sequence(), [0, 1, 2, 3]);
    assert!(SCAN_CONTINUOUS);
}
