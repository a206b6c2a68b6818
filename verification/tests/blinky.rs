use stm32f1_demo::blinky::{blinky_start, blinky_step, BlinkPhase, LedCommand, PinLevel, Wait};

#[test]
fn blinky_starts_with_led_on() {
    assert_eq!(blinky_start(), BlinkPhase::On);
}

#[test]
fn blinky_on_half_waits_in_millis() {
    let (command, next) = blinky_step(BlinkPhase::On);
    assert_eq!(command, LedCommand { level: PinLevel::High, wait: Wait::Millis(1000) });
    assert_eq!(next, BlinkPhase::Off);
}

#[test]
fn blinky_off_half_waits_one_second_in_micros() {
    let (command, next) = blinky_step(BlinkPhase::Off);
    assert_eq!(command, LedCommand { level: PinLevel::Low, wait: Wait::Micros(1_000_000) });
    assert_eq!(next, BlinkPhase::On);
}

#[test]
fn blinky_two_steps_return_and_toggle() {
    let start = blinky_start();
    let (first, middle) = blinky_step(start);
    let (second, end) = blinky_step(middle);
    assert_eq!(end, start);
    assert_ne!(first.level, second.level);
    let micros = |wait: Wait| match wait {
        Wait::Millis(ms) => ms as u32 * 1000,
        Wait::Micros(us) => us,
    };
    assert_eq!(micros(first.wait), 1_000_000);
    assert_eq!(micros(second.wait), 1_000_000);
}
