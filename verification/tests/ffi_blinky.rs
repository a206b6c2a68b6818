use stm32f1_demo::blinky::PinLevel;
use stm32f1_demo::ffi_blinky::{
    ffi_blinky_start, ffi_blinky_step, BitAction, FfiBlinkPhase, GpioWrite, APB2PERIPH_BASE,
    BLINK_DELAY_MS, GPIOA_BASE, GPIO_Pin_0, PERIPH_BASE, RCC_APB2Periph_GPIOA,
};

fn level(write: GpioWrite) -> PinLevel {
    match write {
        GpioWrite::ResetBits | GpioWrite::WriteBit(BitAction::BitReset) => PinLevel::Low,
        GpioWrite::SetBits | GpioWrite::WriteBit(BitAction::BitSet) => PinLevel::High,
    }
}

#[test]
fn ffi_register_constants() {
    assert_eq!(GPIO_Pin_0, 0x0001);
    assert_eq!(RCC_APB2Periph_GPIOA, 0x4);
    assert_eq!(PERIPH_BASE, 0x4000_0000);
    assert_eq!(APB2PERIPH_BASE, 0x4001_0000);
    assert_eq!(GPIOA_BASE, 0x4001_0800);
}

#[test]
fn ffi_blinky_loop_sequence() {
    let mut phase = ffi_blinky_start();
    assert_eq!(phase, FfiBlinkPhase::ResetBits);
    let mut writes = Vec::new();
    let mut markers = Vec::new();
    for _ in 0..4 {
        let (command, next) = ffi_blinky_step(phase);
        assert_eq!(command.pins, GPIO_Pin_0);
        assert_eq!(command.delay_ms, 500);
        assert_eq!(command.delay_ms, BLINK_DELAY_MS);
        writes.push(command.write);
        markers.push(command.marker);
        phase = next;
    }
    assert_eq!(phase, FfiBlinkPhase::ResetBits);
    assert_eq!(
        writes,
        vec![
            GpioWrite::ResetBits,
            GpioWrite::SetBits,
            GpioWrite::WriteBit(BitAction::BitReset),
            GpioWrite::WriteBit(BitAction::BitSet),
        ]
    );
    assert_eq!(markers, vec![Some("d..."), None, Some("dd..."), None]);
}

#[test]
fn ffi_blinky_levels_alternate() {
    let mut phase = ffi_blinky_start();
    let mut previous = None;
    for _ in 0..8 {
        let (command, next) = ffi_blinky_step(phase);
        let now = level(command.write);
        if let Some(before) = previous {
            assert_ne!(before, now);
        }
        previous = Some(now);
        phase = next;
    }
}
