use stm32f1_demo::sensor_count::SensorCounter;

#[test]
fn new_counter_starts_at_zero() {
    let counter = SensorCounter::new();
    assert_eq!(counter.get_sensor_count(), 0);
}

#[test]
fn pending_interrupt_counts_and_clears() {
    let mut counter = SensorCounter::new();
    assert!(counter.exti15_10(true));
    assert_eq!(counter.get_sensor_count(), 1);
}

#[test]
fn spurious_interrupt_changes_nothing() {
    let mut counter = SensorCounter::new();
    assert!(!counter.exti15_10(false));
    assert_eq!(counter.get_sensor_count(), 0);
}

#[test]
fn count_equals_number_of_pending_interrupts() {
    let events = [true, false, true, true, false, false, true];
    let mut counter = SensorCounter::new();
    for pending in events {
        let clear = counter.exti15_10(pending);
        assert_eq!(clear, pending);
    }
    assert_eq!(counter.get_sensor_count(), 4);
}

#[test]
fn counter_counts_consecutive_objects() {
    let mut counter = SensorCounter::new();
    for _ in 0..3 {
        counter.exti15_10(true);
    }
    assert_eq!(counter.get_sensor_count(), 3);
}
