use k210_hal::plic::{Interrupt, Plic, PlicError, Priority};

#[test]
fn interrupt_numbers() {
    assert_eq!(Interrupt::SPI0.into_bits(), 1);
    assert_eq!(Interrupt::DMA0.into_bits(), 27);
    assert_eq!(Interrupt::GPIOHS31.into_bits(), 65);
    assert_eq!(Interrupt::from_bits(1), Some(Interrupt::SPI0));
    assert_eq!(Interrupt::from_bits(33), Some(Interrupt::UARTHS));
    assert_eq!(Interrupt::from_bits(0), None);
    assert_eq!(Interrupt::from_bits(66), None);
    for n in 1..=65u32 {
        assert_eq!(Interrupt::from_bits(n).unwrap().into_bits(), n);
    }
}

#[test]
fn priority_bits() {
    assert_eq!(Priority::P0.into_bits(), 0);
    assert_eq!(Priority::P7.into_bits(), 7);
    assert_eq!(Priority::from_bits(3), Some(Priority::P3));
    assert_eq!(Priority::from_bits(8), None);
}

#[test]
fn enable_then_disable() {
    let mut plic = Plic::new();
    assert!(!plic.is_enabled(0, Interrupt::SPI0));
    plic.enable(0, Interrupt::SPI0);
    assert!(plic.is_enabled(0, Interrupt::SPI0));
    assert!(!plic.is_enabled(1, Interrupt::SPI0));
    assert!(!plic.is_enabled(0, Interrupt::SPI1));
    plic.enable(1, Interrupt::GPIOHS31);
    assert!(plic.is_enabled(1, Interrupt::GPIOHS31));
    assert_eq!(plic.enables[1 * 3 + 2], 1 << 1);
    plic.disable(0, Interrupt::SPI0);
    assert!(!plic.is_enabled(0, Interrupt::SPI0));
    assert!(plic.is_enabled(1, Interrupt::GPIOHS31));
}

#[test]
fn claim_complete_scenario() {
    let mut plic = Plic::new();
    assert_eq!(plic.claim(0), Ok(None));
    plic.enable(0, Interrupt::SPI0);
    plic.set_priority(Interrupt::SPI0, Priority::P1);
    // The hardware raises SPI0 and offers it to hart 0.
    plic.pending[0] |= 1 << 1;
    assert!(plic.is_pending(Interrupt::SPI0));
    plic.claims[0] = 1;
    assert_eq!(plic.claim(0), Ok(Some(Interrupt::SPI0)));
    assert!(!plic.is_pending(Interrupt::SPI0));
    plic.complete(0, Interrupt::SPI0);
    assert_eq!(plic.claims[0], 1);
    assert!(!plic.is_pending(Interrupt::SPI0));
}

#[test]
fn claim_of_unknown_value_is_reported() {
    let mut plic = Plic::new();
    plic.pending[0] = 0xffff_ffff;
    plic.claims[1] = 200;
    assert_eq!(plic.claim(1), Err(PlicError::UnknownInterrupt(200)));
    assert_eq!(plic.pending[0], 0xffff_ffff);
}

#[test]
fn priorities_and_thresholds() {
    let mut plic = Plic::new();
    plic.set_priority(Interrupt::UARTHS, Priority::P5);
    assert_eq!(plic.get_priority(Interrupt::UARTHS), Ok(Priority::P5));
    assert_eq!(plic.priority[33], 5);
    assert_eq!(plic.get_priority(Interrupt::SPI0), Ok(Priority::P0));
    plic.priority[2] = 9;
    assert_eq!(plic.get_priority(Interrupt::SPI1), Err(PlicError::InvalidPriority(9)));
    plic.set_threshold(1, Priority::P2);
    assert_eq!(plic.get_threshold(1), Ok(Priority::P2));
    assert_eq!(plic.get_threshold(0), Ok(Priority::P0));
    plic.thresholds[2] = 12;
    assert_eq!(plic.get_threshold(2), Err(PlicError::InvalidPriority(12)));
}
