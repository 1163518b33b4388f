use k210_hal::clock::Clocks;
use k210_hal::pll::calculate_pll_config;
use k210_hal::sysctl::{Sysctl, SysctlExt, CLOCK_FREQ_IN0};
use k210_hal::time::Hertz;

fn sysctl_at_806mhz() -> Sysctl {
    Sysctl {
        pll0_clkr: 0,
        pll0_clkf: 61,
        pll0_clkod: 1,
        pll0_bwadj: 61,
        pll0_reset: false,
        pll0_pwrd: true,
        pll0_bypass: false,
        pll0_out_en: true,
        pll_lock0: 3,
        aclk_sel: true,
        aclk_divider_sel: 0,
        apb0_clk_sel: 1,
        apb1_clk_sel: 1,
        apb2_clk_sel: 1,
        spi0_clk: 0,
        spi1_clk: 0,
        apb0_clk_en: false,
        apb2_clk_en: false,
        fpioa_clk_en: false,
        dma_clk_en: false,
    }
}

fn pll_out(nr: u8, od: u8, nf: u8) -> u32 {
    CLOCK_FREQ_IN0 / nr as u32 * nf as u32 / od as u32
}

#[test]
fn pll_config_reproduces_vendor_pll0_setting() {
    assert_eq!(calculate_pll_config(26_000_000, 806_000_000), (1, 2, 62));
    assert_eq!(pll_out(1, 2, 62), 806_000_000);
}

#[test]
fn pll_config_known_values() {
    assert_eq!(calculate_pll_config(26_000_000, 400_000_000), (1, 4, 61));
    assert_eq!(calculate_pll_config(26_000_000, 390_000_000), (1, 4, 60));
    assert_eq!(calculate_pll_config(26_000_000, 26_000_000), (4, 16, 64));
    // The largest divider reaches the target exactly.
    assert_eq!(calculate_pll_config(26_000_000, 6_500_000), (16, 16, 64));
    assert_eq!(pll_out(16, 16, 64), 6_500_000);
    assert_eq!(calculate_pll_config(26_000_000, 1_000_000), (16, 16, 9));
}

#[test]
fn pll_config_clamps_multiplier() {
    // Far below the range: the multiplier is kept at 1.
    assert_eq!(calculate_pll_config(26_000_000, 100_000), (16, 16, 1));
    // Far above the range: the multiplier is kept at 64.
    assert_eq!(calculate_pll_config(26_000_000, 4_000_000_000), (1, 1, 64));
    assert_eq!(calculate_pll_config(26_000_000, 900_000_000), (1, 1, 34));
}

#[test]
fn pll_config_skips_products_no_divider_pair_makes() {
    // The search boundary is 253 = 11 * 23; the nearest product of two
    // dividers in range below it is 240 = 15 * 16.
    assert_eq!(calculate_pll_config(26_000_000, 6_559_267), (15, 16, 60));
}

#[test]
fn pll_config_always_in_range() {
    let mut f: u32 = 1;
    while f < 4_000_000_000 {
        let (nr, od, nf) = calculate_pll_config(26_000_000, f);
        assert!((1..=16).contains(&nr));
        assert!((1..=16).contains(&od));
        assert!((1..=64).contains(&nf));
        f = f.saturating_mul(3).saturating_add(7);
    }
}

#[test]
fn pll0_set_frequency_programs_dividers() {
    let mut parts = sysctl_at_806mhz().constrain();
    parts.regs.pll0_clkf = 10;
    let got = parts.pll0.set_frequency(&mut parts.regs, Hertz(806_000_000));
    assert_eq!(got, Hertz(806_000_000));
    assert_eq!(parts.regs.pll0_clkr, 0);
    assert_eq!(parts.regs.pll0_clkf, 61);
    assert_eq!(parts.regs.pll0_clkod, 1);
    assert_eq!(parts.regs.pll0_bwadj, 61);
    assert!(parts.regs.aclk_sel);
    assert!(!parts.regs.pll0_bypass);
    assert!(parts.regs.pll0_out_en);
    assert_eq!(parts.pll0.get_frequency(&parts.regs), got);
}

#[test]
fn pll0_disable_and_enable() {
    let mut parts = sysctl_at_806mhz().constrain();
    parts.pll0.disable(&mut parts.regs);
    assert!(parts.regs.pll0_bypass);
    assert!(!parts.regs.pll0_pwrd);
    assert!(!parts.regs.pll0_out_en);
    parts.pll0.enable(&mut parts.regs);
    assert!(!parts.regs.pll0_bypass);
    assert!(parts.regs.pll0_pwrd);
    assert!(parts.regs.pll0_out_en);
    assert!(parts.pll0.is_locked(&parts.regs));
}

#[test]
fn aclk_frequencies() {
    let mut parts = sysctl_at_806mhz().constrain();
    assert_eq!(parts.aclk.get_frequency(&parts.regs), Hertz(403_000_000));
    assert_eq!(parts.aclk.set_frequency(&mut parts.regs, Hertz(390_000_000)), Hertz(201_500_000));
    assert_eq!(parts.regs.aclk_divider_sel, 1);
    // Every divided output exceeds the target: the largest divider is used.
    assert_eq!(parts.aclk.set_frequency(&mut parts.regs, Hertz(100_000_000)), Hertz(50_375_000));
    assert_eq!(parts.regs.aclk_divider_sel, 3);
    assert_eq!(parts.aclk.set_frequency(&mut parts.regs, Hertz(26_000_000)), Hertz(26_000_000));
    assert!(parts.aclk.is_using_external(&parts.regs));
    assert_eq!(parts.aclk.get_frequency(&parts.regs), Hertz(26_000_000));
    parts.aclk.use_pll0(&mut parts.regs, 0);
    assert_eq!(parts.aclk.get_frequency(&parts.regs), Hertz(403_000_000));
}

#[test]
fn aclk_divider_between_last_two_outputs() {
    let mut parts = sysctl_at_806mhz().constrain();
    // 806 MHz / 16 <= 60 MHz < 806 MHz / 8.
    assert_eq!(parts.aclk.set_frequency(&mut parts.regs, Hertz(60_000_000)), Hertz(50_375_000));
    assert_eq!(parts.regs.aclk_divider_sel, 3);
}

#[test]
fn apb_divider_round_trip() {
    let mut parts = sysctl_at_806mhz().constrain();
    // ACLK is 403 MHz; 403 / 100 = 4, so the divider is 4.
    let set = parts.apb0.set_frequency(&mut parts.regs, Hertz(100_750_000));
    assert_eq!(set, Hertz(100_750_000));
    assert_eq!(parts.apb0.get_frequency(&parts.regs), set);
    assert_eq!(parts.regs.apb0_clk_sel, 3);
    // A target at or above the source gives the source itself.
    let set = parts.apb2.set_frequency(&mut parts.regs, Hertz(500_000_000));
    assert_eq!(set, Hertz(403_000_000));
    assert_eq!(parts.apb2.get_frequency(&parts.regs), set);
}

#[test]
fn apb_divider_never_exceeds_target() {
    let mut parts = sysctl_at_806mhz().constrain();
    // 403 MHz / 4 would be 100.75 MHz, above 100 MHz: the divider is 5.
    assert_eq!(parts.apb0.set_frequency(&mut parts.regs, Hertz(100_000_000)), Hertz(80_600_000));
    assert_eq!(parts.regs.apb0_clk_sel, 4);
    assert_eq!(parts.apb2.set_frequency(&mut parts.regs, Hertz(195_000_000)), Hertz(134_333_333));
    // A tiny target is held at the largest divider, 8.
    assert_eq!(parts.apb0.set_frequency(&mut parts.regs, Hertz(1_000)), Hertz(50_375_000));
    assert_eq!(parts.regs.apb0_clk_sel, 7);
}

#[test]
fn apb_divider_at_390mhz() {
    let mut regs = sysctl_at_806mhz();
    // PLL0 at 780 MHz: nf = 60.
    regs.pll0_clkf = 59;
    let mut parts = regs.constrain();
    assert_eq!(parts.aclk.get_frequency(&parts.regs), Hertz(390_000_000));
    let got = parts.apb0.set_frequency(&mut parts.regs, Hertz(100_000_000));
    assert_eq!(got, Hertz(97_500_000));
    assert_eq!(parts.apb0.get_frequency(&parts.regs), got);
    assert_eq!(parts.spi0.set_frequency(&mut parts.regs, Hertz(100_000_000)), Hertz(97_500_000));
}

#[test]
fn spi_clock_dividers() {
    let mut parts = sysctl_at_806mhz().constrain();
    assert_eq!(parts.spi0.set_frequency(&mut parts.regs, Hertz(10_000_000)), Hertz(9_829_268));
    assert_eq!(parts.regs.spi0_clk, 40);
    assert_eq!(parts.spi0.get_frequency(&parts.regs), Hertz(9_829_268));
    // Above half the source the threshold stays at 0.
    assert_eq!(parts.spi1.set_frequency(&mut parts.regs, Hertz(900_000_000)), Hertz(403_000_000));
    assert_eq!(parts.regs.spi1_clk, 0);
    // Far below, it stays at 255.
    assert_eq!(parts.spi1.set_frequency(&mut parts.regs, Hertz(1_000)), Hertz(1_574_218));
    assert_eq!(parts.spi1.get_frequency(&parts.regs), Hertz(1_574_218));
}

#[test]
fn frozen_clocks() {
    let parts = sysctl_at_806mhz().constrain();
    let clocks = parts.clocks();
    assert_eq!(clocks.cpu(), Hertz(403_000_000));
    assert_eq!(clocks.apb0(), Hertz(201_500_000));
    assert_eq!(clocks.apb1(), Hertz(201_500_000));
    let boot = Clocks::new();
    assert_eq!(boot.cpu(), Hertz(390_000_000));
    assert_eq!(boot.apb0(), Hertz(195_000_000));
    assert_eq!(boot.apb1(), Hertz(195_000_000));
}

#[test]
fn bus_enables() {
    let mut parts = sysctl_at_806mhz().constrain();
    parts.apb0.enable(&mut parts.regs);
    parts.apb2.enable(&mut parts.regs);
    assert!(parts.regs.apb0_clk_en);
    assert!(parts.regs.apb2_clk_en);
}
