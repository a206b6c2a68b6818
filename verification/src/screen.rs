//! What the demos show on their 128x64 OLED screen (four text lines).
//!
//! The screen driver writes strings and numbers at a line (from 1) and a
//! column (from 1). Each layout below says which field goes where; the
//! firmware reads the values from the hardware and hands the fields to the
//! driver in order: first all strings, then all numbers.

use vstd::prelude::*;

verus! {

/// How a number is written on the screen.
#[derive(Clone, Copy, Debug, PartialEq, Eq, Structural)]
pub enum Radix {
    /// Decimal digits (`show_num`).
    Decimal,
    /// Hexadecimal digits (`show_hex_num`).
    Hex,
}

/// A string at a line and column.
#[derive(Clone, Copy, Debug)]
pub struct TextField {
    pub line: u8,
    pub column: u8,
    pub text: &'static str,
}

/// A number written with a fixed count of digits at a line and column.
#[derive(Clone, Copy, Debug, PartialEq, Eq, Structural)]
pub struct NumField {
    pub line: u8,
    pub column: u8,
    pub value: u32,
    pub digits: u8,
    pub radix: Radix,
}

/// A screen's content: its strings, then its numbers.
pub struct Screen {
    pub texts: Vec<TextField>,
    pub numbers: Vec<NumField>,
}

/// The label that the sensor-count demo writes once, before its loop.
pub fn sensor_count_label() -> (field: TextField)
    ensures
        field.line == 1,
        field.column == 1,
        field.text == "Count:",
{
    TextField { line: 1, column: 1, text: "Count:" }
}

/// The field the sensor-count demo rewrites on every pass of its loop: the
/// count, in five decimal digits, right after the label.
pub fn sensor_count_field(count: u32) -> (field: NumField)
    ensures
        field == (NumField { line: 1, column: 7, value: count, digits: 5, radix: Radix::Decimal }),
{
    NumField { line: 1, column: 7, value: count, digits: 5, radix: Radix::Decimal }
}

/// The screen of the ADC scan demo, given the buffer that the DMA transfer
/// of the scan filled. Lines 1 to 4 are labelled `AD0:` to `AD3:`; beside
/// the label of line `k` stands `buf[k]` in four decimal digits.
pub fn adc_scan_screen(buf: &[u16; 8]) -> (screen: Screen)
    ensures
        screen.texts@.len() == 4,
        screen.texts@[0].line == 1 && screen.texts@[0].column == 1 && screen.texts@[0].text == "AD0:",
        screen.texts@[1].line == 2 && screen.texts@[1].column == 1 && screen.texts@[1].text == "AD1:",
        screen.texts@[2].line == 3 && screen.texts@[2].column == 1 && screen.texts@[2].text == "AD2:",
        screen.texts@[3].line == 4 && screen.texts@[3].column == 1 && screen.texts@[3].text == "AD3:",
        screen.numbers@.len() == 4,
        forall|k: int|
            0 <= k < 4 ==> #[trigger] screen.numbers@[k] == (NumField {
                line: (k + 1) as u8,
                column: 5,
                value: buf@[k + 1] as u32,
                digits: 4,
                radix: Radix::Decimal,
            }),
{
    let texts = vec![
        TextField { line: 1, column: 1, text: "AD0:" },
        TextField { line: 2, column: 1, text: "AD1:" },
        TextField { line: 3, column: 1, text: "AD2:" },
        TextField { line: 4, column: 1, text: "AD3:" },
    ];
    let numbers = vec![
        NumField { line: 1, column: 5, value: buf[1] as u32, digits: 4, radix: Radix::Decimal },
        NumField { line: 2, column: 5, value: buf[2] as u32, digits: 4, radix: Radix::Decimal },
        NumField { line: 3, column: 5, value: buf[3] as u32, digits: 4, radix: Radix::Decimal },
        NumField { line: 4, column: 5, value: buf[4] as u32, digits: 4, radix: Radix::Decimal },
    ];
    Screen { texts, numbers }
}

/// The screen of the memory-address demo: lines 1 to 4 are labelled `v:`
/// (a local variable), `c:` (a constant), `s:` (a static) and `a:` (the ADC1
/// data register); beside each label stands the address in eight hex digits.
pub fn memory_address_screen(var_p: u32, const_p: u32, static_p: u32, adc1_p: u32) -> (screen:
    Screen)
    ensures
        screen.texts@.len() == 4,
        screen.texts@[0].line == 1 && screen.texts@[0].column == 1 && screen.texts@[0].text == "v:",
        screen.texts@[1].line == 2 && screen.texts@[1].column == 1 && screen.texts@[1].text == "c:",
        screen.texts@[2].line == 3 && screen.texts@[2].column == 1 && screen.texts@[2].text == "s:",
        screen.texts@[3].line == 4 && screen.texts@[3].column == 1 && screen.texts@[3].text == "a:",
        screen.numbers@ == seq![
            NumField { line: 1, column: 3, value: var_p, digits: 8, radix: Radix::Hex },
            NumField { line: 2, column: 3, value: const_p, digits: 8, radix: Radix::Hex },
            NumField { line: 3, column: 3, value: static_p, digits: 8, radix: Radix::Hex },
            NumField { line: 4, column: 3, value: adc1_p, digits: 8, radix: Radix::Hex },
        ],
{
    let texts = vec![
        TextField { line: 1, column: 1, text: "v:" },
        TextField { line: 2, column: 1, text: "c:" },
        TextField { line: 3, column: 1, text: "s:" },
        TextField { line: 4, column: 1, text: "a:" },
    ];
    let numbers = vec![
        NumField { line: 1, column: 3, value: var_p, digits: 8, radix: Radix::Hex },
        NumField { line: 2, column: 3, value: const_p, digits: 8, radix: Radix::Hex },
        NumField { line: 3, column: 3, value: static_p, digits: 8, radix: Radix::Hex },
        NumField { line: 4, column: 3, value: adc1_p, digits: 8, radix: Radix::Hex },
    ];
    Screen { texts, numbers }
}

} // verus!
