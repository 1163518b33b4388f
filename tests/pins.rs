use k210_hal::fpioa::{function_default, Fpioa, FpioaExt, Function, Pull};
use k210_hal::functions::{GPIO3, GPIOHS0, GPIOHS5, JTAG_TCLK, SPI0_ARB, UARTHS_RX};
use k210_hal::gpio::{Gpio, GpioExt, GpioRegs};
use k210_hal::gpiohs::{Edge, Gpiohs, GpiohsExt, GpiohsRegs, FALLING, HIGH, LOW, RISING};
use k210_hal::sysctl::{Sysctl, SysctlExt};

fn sysctl() -> Sysctl {
    Sysctl {
        pll0_clkr: 0,
        pll0_clkf: 61,
        pll0_clkod: 1,
        pll0_bwadj: 61,
        pll0_reset: false,
        pll0_pwrd: true,
        pll0_bypass: false,
        pll0_out_en: true,
        pll_lock0: 3,
        aclk_sel: true,
        aclk_divider_sel: 0,
        apb0_clk_sel: 1,
        apb1_clk_sel: 1,
        apb2_clk_sel: 1,
        spi0_clk: 0,
        spi1_clk: 0,
        apb0_clk_en: false,
        apb2_clk_en: false,
        fpioa_clk_en: false,
        dma_clk_en: false,
    }
}

fn gpiohs_regs() -> GpiohsRegs {
    GpiohsRegs {
        input_val: 0,
        input_en: 0,
        output_en: 0,
        output_val: 0,
        pullup_en: 0,
        rise_ie: 0,
        rise_ip: 0,
        fall_ie: 0,
        fall_ip: 0,
        high_ie: 0,
        high_ip: 0,
        low_ie: 0,
        low_ip: 0,
    }
}

#[test]
fn function_defaults_table() {
    assert_eq!(function_default(JTAG_TCLK), 0x0090_0000);
    assert_eq!(function_default(SPI0_ARB), 0x0390_0010);
    assert_eq!(function_default(GPIOHS0), 0x0090_1f18);
    assert_eq!(function_default(255), 0x0000_1fff);
    for i in 0..=255u8 {
        assert_eq!(function_default(i) & 0xff, i as u32);
    }
}

#[test]
fn split_turns_clocks_on_and_tags_pins() {
    let mut sys = sysctl().constrain();
    let mut pins = Fpioa { io: vec![0; 48] }.split(&mut sys.apb0, &mut sys.regs);
    assert!(sys.regs.apb0_clk_en);
    assert!(sys.regs.fpioa_clk_en);
    assert_eq!(pins.take(4).unwrap().function(), Function { index: UARTHS_RX });
    assert_eq!(pins.take(11).unwrap().function(), Function { index: GPIO3 });
    assert_eq!(pins.take(21).unwrap().function(), Function { index: GPIOHS5 });
}

#[test]
fn pin_handles_are_exclusive() {
    let mut sys = sysctl().constrain();
    let mut pins = Fpioa { io: vec![0; 48] }.split(&mut sys.apb0, &mut sys.regs);
    let io5 = pins.take(5);
    assert!(io5.is_some());
    assert!(pins.take(5).is_none());
    assert!(pins.take(6).is_some());
    let io5 = io5.unwrap();
    assert_eq!(io5.index(), 5);
    assert!(pins.give_back(io5).is_none());
    assert!(pins.take(5).is_some());
}

#[test]
fn into_function_and_pull() {
    let mut sys = sysctl().constrain();
    let mut pins = Fpioa { io: vec![0; 48] }.split(&mut sys.apb0, &mut sys.regs);
    let mut regs = Fpioa { io: vec![0; 48] };
    let io16 = pins.take(16).unwrap();
    let mut io16 = io16.into_function(&mut regs, Function { index: SPI0_ARB });
    assert_eq!(regs.io[16], 0x0390_0010);
    assert_eq!(io16.function(), Function { index: SPI0_ARB });
    io16.set_io_pull(&mut regs, Pull::Up);
    assert_eq!(regs.io[16], 0x0391_0010);
    io16.set_io_pull(&mut regs, Pull::Down);
    assert_eq!(regs.io[16], 0x0392_0010);
    io16.set_io_pull(&mut regs, Pull::Floating);
    assert_eq!(regs.io[16], 0x0390_0010);
    assert_eq!(regs.io[15], 0);
}

#[test]
fn gpio_output_round_trip() {
    let mut sys = sysctl().constrain();
    let mut pins = Fpioa { io: vec![0; 48] }.split(&mut sys.apb0, &mut sys.regs);
    let mut fpioa = Fpioa { io: vec![0; 48] };
    let mut gpio = GpioRegs { data_output: 0, direction: 0, data_input: 0 }.split();
    // I/O pin 11 carries GPIO3 after reset.
    let io11 = pins.take(11).unwrap();
    let g3 = gpio.take(3).unwrap();
    assert!(gpio.take(3).is_none());
    let pin = Gpio::new(g3, io11);
    let mut out = pin.into_push_pull_output(&mut fpioa, &mut gpio.regs);
    assert_eq!(gpio.regs.direction, 1 << 3);
    out.set_high(&mut gpio.regs);
    assert!(out.is_set_high(&gpio.regs));
    assert!(!out.is_set_low(&gpio.regs));
    assert_eq!(gpio.regs.data_output, 1 << 3);
    out.toggle(&mut gpio.regs);
    assert!(out.is_set_low(&gpio.regs));
    out.set_high(&mut gpio.regs);
    out.set_low(&mut gpio.regs);
    assert_eq!(gpio.regs.data_output, 0);
    let input = out.into_pull_up_input(&mut fpioa, &mut gpio.regs);
    assert_eq!(gpio.regs.direction, 0);
    assert_eq!(fpioa.io[11], 1 << 16);
    gpio.regs.data_input = 1 << 3;
    assert!(input.is_high(&gpio.regs));
    let input = input.into_pull_down_input(&mut fpioa, &mut gpio.regs);
    assert_eq!(fpioa.io[11], 1 << 17);
    gpio.regs.data_input = 0;
    assert!(input.is_low(&gpio.regs));
    let input = input.into_floating_input(&mut fpioa, &mut gpio.regs);
    assert_eq!(fpioa.io[11], 0);
    let (token, io) = input.free();
    assert_eq!(token.index(), 3);
    assert_eq!(io.index(), 11);
}

#[test]
fn gpiohs_modes_and_levels() {
    let mut sys = sysctl().constrain();
    let mut pins = Fpioa { io: vec![0; 48] }.split(&mut sys.apb0, &mut sys.regs);
    let mut hs = gpiohs_regs().split();
    // I/O pin 16 carries GPIOHS0 after reset.
    let pin = Gpiohs::new(hs.take(0).unwrap(), pins.take(16).unwrap());
    assert!(hs.take(0).is_none());
    let input = pin.into_pull_up_input(&mut hs.regs);
    assert_eq!(hs.regs.input_en, 1);
    assert_eq!(hs.regs.pullup_en, 1);
    assert_eq!(hs.regs.output_en, 0);
    hs.regs.input_val = 1;
    assert!(input.is_high(&hs.regs));
    let mut out = input.into_push_pull_output(&mut hs.regs);
    assert_eq!(hs.regs.output_en, 1);
    assert_eq!(hs.regs.input_en, 0);
    out.set_high(&mut hs.regs);
    assert!(out.is_set_high(&hs.regs));
    out.set_low(&mut hs.regs);
    assert_eq!(hs.regs.output_val, 0);
    let input = out.into_floating_input(&mut hs.regs);
    hs.regs.input_val = 0;
    assert!(input.is_low(&hs.regs));
}

#[test]
fn gpiohs_edges() {
    let mut sys = sysctl().constrain();
    let mut pins = Fpioa { io: vec![0; 48] }.split(&mut sys.apb0, &mut sys.regs);
    let mut hs = gpiohs_regs().split();
    let mut pin = Gpiohs::new(hs.take(0).unwrap(), pins.take(16).unwrap());
    hs.regs.rise_ip = 0b11;
    hs.regs.low_ip = 0b1;
    pin.trigger_on_edge(&mut hs.regs, Edge { bits: RISING | LOW });
    assert_eq!(hs.regs.rise_ip, 0b10);
    assert_eq!(hs.regs.low_ip, 0);
    assert_eq!(hs.regs.rise_ie, 1);
    assert_eq!(hs.regs.fall_ie, 0);
    assert_eq!(hs.regs.high_ie, 0);
    assert_eq!(hs.regs.low_ie, 1);
    assert_eq!(pin.check_edges(&hs.regs), Edge::empty());
    hs.regs.rise_ip = 0b1;
    hs.regs.high_ip = 0b1;
    let edges = pin.check_edges(&hs.regs);
    assert_eq!(edges, Edge { bits: RISING | HIGH });
    assert!(edges.contains(RISING));
    assert!(!edges.contains(FALLING));
    // Checking leaves the events pending.
    assert_eq!(hs.regs.rise_ip, 1);
    pin.clear_interrupt_pending_bits(&mut hs.regs);
    // Only the enabled interrupt's pending bit is cleared; enables stay.
    assert_eq!(hs.regs.rise_ip, 0);
    assert_eq!(hs.regs.high_ip, 1);
    assert_eq!(hs.regs.rise_ie, 1);
    assert_eq!(hs.regs.low_ie, 1);
    assert_eq!(Edge::from_bits_truncate(0xff), Edge { bits: 0x0f });
}
