use k210_hal::dmac::{channel_param_plan, init_plan, single_mode_plan, DmacChannel, DmacStep};
use k210_hal::fpioa::{Fpioa, FpioaExt};
use k210_hal::gpiohs::{Edge, Gpiohs, GpiohsExt, GpiohsRegs, GpiohsWrite, HIGH, RISING};
use k210_hal::serial::{uart_write_plan, UartRegs, UartWrite};
use k210_hal::sysctl::{pll0_enable_plan, pll0_set_frequency_plan, PllStep, Sysctl, SysctlExt};

fn sysctl() -> Sysctl {
    Sysctl {
        pll0_clkr: 0,
        pll0_clkf: 61,
        pll0_clkod: 1,
        pll0_bwadj: 61,
        pll0_reset: false,
        pll0_pwrd: true,
        pll0_bypass: false,
        pll0_out_en: true,
        pll_lock0: 3,
        aclk_sel: true,
        aclk_divider_sel: 0,
        apb0_clk_sel: 1,
        apb1_clk_sel: 1,
        apb2_clk_sel: 1,
        spi0_clk: 0,
        spi1_clk: 0,
        apb0_clk_en: false,
        apb2_clk_en: false,
        fpioa_clk_en: false,
        dma_clk_en: false,
    }
}

fn gpiohs_regs() -> GpiohsRegs {
    GpiohsRegs {
        input_val: 0,
        input_en: 0,
        output_en: 0,
        output_val: 0,
        pullup_en: 0,
        rise_ie: 0,
        rise_ip: 0,
        fall_ie: 0,
        fall_ip: 0,
        high_ie: 0,
        high_ip: 0,
        low_ie: 0,
        low_ip: 0,
    }
}

#[test]
fn pll0_plans_keep_aclk_off_a_stopped_pll() {
    let enable = vec![PllStep::PowerUp, PllStep::ResetLow, PllStep::ResetHigh, PllStep::ResetLow, PllStep::WaitLock, PllStep::OutputEnable];
    assert_eq!(pll0_enable_plan(), enable);
    let mut with_aclk = vec![PllStep::AclkToOscillator, PllStep::Disable, PllStep::WriteDividers];
    with_aclk.extend(enable.iter().copied());
    with_aclk.push(PllStep::AclkToPll);
    assert_eq!(pll0_set_frequency_plan(true), with_aclk);
    let mut without = vec![PllStep::Disable, PllStep::WriteDividers];
    without.extend(enable.iter().copied());
    assert_eq!(pll0_set_frequency_plan(false), without);
}

#[test]
fn pll0_set_frequency_leaves_it_locked() {
    let mut parts = sysctl().constrain();
    parts.regs.pll_lock0 = 0;
    parts.pll0.set_frequency(&mut parts.regs, k210_hal::time::Hertz(400_000_000));
    assert!(parts.pll0.is_locked(&parts.regs));
}

#[test]
fn uart_writes_ier_after_latches_close() {
    let regs = UartRegs { lcr: 3, dlh: 1, dll: 2, dlf: 3, ier: 0x80, fcr: 0x39 };
    assert_eq!(
        uart_write_plan(&regs),
        vec![
            UartWrite::Lcr(0x80),
            UartWrite::DlhIer(1),
            UartWrite::RbrDllThr(2),
            UartWrite::Dlf(3),
            UartWrite::Lcr(3),
            UartWrite::DlhIer(0x80),
            UartWrite::FcrIir(0x39),
        ]
    );
}

#[test]
fn dmac_plans() {
    let c = DmacChannel::Channel2;
    let param = vec![DmacStep::WriteCfg(c), DmacStep::WriteSar(c), DmacStep::WriteDar(c), DmacStep::WriteCtl(c), DmacStep::WriteBlockTs(c)];
    assert_eq!(channel_param_plan(c), param);
    let mut single = vec![DmacStep::ClearChannelInterrupts(c)];
    single.extend(param.iter().copied());
    single.push(DmacStep::Enable);
    single.push(DmacStep::ChannelOn(c));
    assert_eq!(single_mode_plan(c), single);
    let init = init_plan();
    assert_eq!(init.len(), 14);
    assert_eq!(&init[..7], &[DmacStep::EnableClock, DmacStep::Reset, DmacStep::WaitResetDone, DmacStep::ClearCommonInterrupts, DmacStep::Disable, DmacStep::WaitDisabled, DmacStep::AllChannelsOff]);
    assert_eq!(init[13], DmacStep::Enable);
}

#[test]
fn gpiohs_interrupt_plans() {
    let mut sys = sysctl().constrain();
    let mut pins = Fpioa { io: vec![0; 48] }.split(&mut sys.apb0, &mut sys.regs);
    let mut hs = gpiohs_regs().split();
    let pin = Gpiohs::new(hs.take(0).unwrap(), pins.take(16).unwrap());
    assert_eq!(
        pin.trigger_on_edge_plan(Edge { bits: RISING | HIGH }),
        vec![GpiohsWrite::RiseIpClear, GpiohsWrite::FallIpClear, GpiohsWrite::HighIpClear, GpiohsWrite::LowIpClear, GpiohsWrite::RiseIe(true), GpiohsWrite::FallIe(false), GpiohsWrite::HighIe(true), GpiohsWrite::LowIe(false)]
    );
    hs.regs.rise_ie = 1;
    hs.regs.low_ie = 1;
    hs.regs.fall_ie = 2;
    assert_eq!(
        pin.clear_interrupt_pending_plan(&hs.regs),
        vec![GpiohsWrite::RiseIe(false), GpiohsWrite::RiseIpClear, GpiohsWrite::RiseIe(true), GpiohsWrite::LowIe(false), GpiohsWrite::LowIpClear, GpiohsWrite::LowIe(true)]
    );
}
