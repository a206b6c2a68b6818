use stm32f1_demo::screen::{
    adc_scan_screen, memory_address_screen, sensor_count_field, sensor_count_label, NumField,
    Radix,
};

#[test]
fn sensor_count_screen_fields() {
    let label = sensor_count_label();
    assert_eq!((label.line, label.column, label.text), (1, 1, "Count:"));
    assert_eq!(
        sensor_count_field(42),
        NumField { line: 1, column: 7, value: 42, digits: 5, radix: Radix::Decimal }
    );
}

#[test]
fn adc_scan_screen_shows_slots_one_to_four() {
    let buf: [u16; 8] = [100, 201, 302, 403, 504, 605, 706, 807];
    let screen = adc_scan_screen(&buf);
    let labels: Vec<(u8, u8, &str)> =
        screen.texts.iter().map(|t| (t.line, t.column, t.text)).collect();
    assert_eq!(labels, vec![(1, 1, "AD0:"), (2, 1, "AD1:"), (3, 1, "AD2:"), (4, 1, "AD3:")]);
    let values: Vec<(u8, u8, u32, u8)> =
        screen.numbers.iter().map(|n| (n.line, n.column, n.value, n.digits)).collect();
    assert_eq!(values, vec![(1, 5, 201, 4), (2, 5, 302, 4), (3, 5, 403, 4), (4, 5, 504, 4)]);
    assert!(screen.numbers.iter().all(|n| n.radix == Radix::Decimal));
}

#[test]
fn memory_address_screen_shows_hex_addresses() {
    let screen = memory_address_screen(0x2000_4B44, 0x0800_7D60, 0x0800_7D0C, 0x4001_244C);
    let labels: Vec<&str> = screen.texts.iter().map(|t| t.text).collect();
    assert_eq!(labels, vec!["v:", "c:", "s:", "a:"]);
    assert!(screen.texts.iter().enumerate().all(|(k, t)| t.line as usize == k + 1 && t.column == 1));
    assert_eq!(
        screen.numbers,
        vec![
            NumField { line: 1, column: 3, value: 0x2000_4B44, digits: 8, radix: Radix::Hex },
            NumField { line: 2, column: 3, value: 0x0800_7D60, digits: 8, radix: Radix::Hex },
            NumField { line: 3, column: 3, value: 0x0800_7D0C, digits: 8, radix: Radix::Hex },
            NumField { line: 4, column: 3, value: 0x4001_244C, digits: 8, radix: Radix::Hex },
        ]
    );
}
