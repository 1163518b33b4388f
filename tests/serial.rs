use k210_hal::clock::Clocks;
use k210_hal::serial::{uart_divisor_fields, uarths_divisor, Serial, UartRegs, UarthsRegs};
use embedded_hal::spi::{MODE_0, MODE_1, MODE_2, MODE_3};
use k210_hal::spi::{endian_to_pac, frame_format_to_pac, hal_mode_to_pac, Endian, FrameFormat, Spi};
use k210_hal::time::{Bps, Hertz};

#[test]
fn uarths_configuration() {
    let regs = UarthsRegs { div: 0, txen: false, rxen: false, ie_txwm: true, ie_rxwm: false };
    let serial = regs.configure(Bps(115_200), &Clocks::new());
    let serial = serial.listen();
    let (tx, rx) = serial.split();
    let serial = Serial::join(tx, rx).unlisten();
    let regs = serial.free();
    assert_eq!(regs.div, 3384);
    assert!(regs.txen);
    assert!(regs.rxen);
    assert!(!regs.ie_txwm);
    assert!(!regs.ie_rxwm);
    assert_eq!(uarths_divisor(390_000_000, 115_200), 3384);
    assert_eq!(uarths_divisor(100, 1_000), 0);
}

#[test]
fn uart_configuration() {
    let regs = UartRegs { lcr: 0, dlh: 0, dll: 0, dlf: 0, ier: 0, fcr: 0 };
    let regs = regs.configure(Bps(115_200), &Clocks::new()).listen().unlisten().free();
    assert_eq!((regs.dlh, regs.dll, regs.dlf), (0, 105, 12));
    assert_eq!(regs.lcr, 3);
    assert_eq!(regs.ier, 0x80);
    assert_eq!(regs.fcr, 0x39);
    assert_eq!(uart_divisor_fields(195_000_000, 9_600), (4, 245, 8));
}

#[test]
fn spi_settings() {
    let mut spi = Spi::new(0, MODE_3, FrameFormat::Standard, Endian::Little);
    assert_eq!(spi.work_mode, 3);
    assert_eq!(spi.frame_format, 0);
    assert_eq!(spi.data_length, 7);
    assert_eq!(spi.endian, 0);
    assert_eq!(spi.set_clock_rate(Hertz(1_000_000), Hertz(100_000_000)), Hertz(1_000_000));
    assert_eq!(spi.baudr, 100);
    assert_eq!(spi.set_clock_rate(Hertz(100_000_000), Hertz(100_000_000)), Hertz(50_000_000));
    assert_eq!(spi.baudr, 2);
    assert_eq!(spi.set_clock_rate(Hertz(1), Hertz(100_000_000)), Hertz(1_525));
    assert_eq!(spi.baudr, 65534);
    let spi = spi.take_for_cs(2);
    assert_eq!(spi.cs_id, 2);
    assert_eq!(frame_format_to_pac(FrameFormat::Quad), 2);
    assert_eq!(endian_to_pac(Endian::Big), 1);
}

#[test]
fn spi_work_modes() {
    assert_eq!(hal_mode_to_pac(MODE_0), 0);
    assert_eq!(hal_mode_to_pac(MODE_1), 1);
    assert_eq!(hal_mode_to_pac(MODE_2), 2);
    assert_eq!(hal_mode_to_pac(MODE_3), 3);
}
