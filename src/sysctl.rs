//! System controller: PLL0, the CPU clock (ACLK), the APB bus clocks and the
//! SPI clock dividers.
//!
//! `Sysctl` holds the controller's register fields as plain values. Each clock
//! domain is a handle that only `SysctlExt::constrain` hands out; a frequency is
//! always derived from the register fields, never stored beside them.
use vstd::prelude::*;
use vstd::arithmetic::div_mod::{lemma_div_is_ordered_by_denominator, lemma_fundamental_div_mod, lemma_mod_bound};
use crate::clock::Clocks;
use crate::pll::{calculate_pll_config, lemma_pll_config_unique, pll_config_for, pll_output};
use crate::time::Hertz;

verus! {

/// Frequency of the external oscillator that feeds PLL0.
pub const CLOCK_FREQ_IN0: u32 = 26_000_000;

/// The system controller's register fields.
pub struct Sysctl {
    /// PLL0 `nr - 1` (4 bits).
    pub pll0_clkr: u8,
    /// PLL0 `nf - 1` (6 bits).
    pub pll0_clkf: u8,
    /// PLL0 `od - 1` (4 bits).
    pub pll0_clkod: u8,
    /// PLL0 loop bandwidth adjustment (6 bits).
    pub pll0_bwadj: u8,
    pub pll0_reset: bool,
    pub pll0_pwrd: bool,
    pub pll0_bypass: bool,
    pub pll0_out_en: bool,
    /// PLL0 lock status (2 bits); `0b11` once locked.
    pub pll_lock0: u8,
    /// ACLK runs from PLL0 (`true`) or from the oscillator (`false`).
    pub aclk_sel: bool,
    /// ACLK divides PLL0 by `2 << aclk_divider_sel` (2 bits).
    pub aclk_divider_sel: u8,
    /// APB0 divides ACLK by `apb0_clk_sel + 1` (3 bits).
    pub apb0_clk_sel: u8,
    /// APB1 divides ACLK by `apb1_clk_sel + 1` (3 bits).
    pub apb1_clk_sel: u8,
    /// APB2 divides ACLK by `apb2_clk_sel + 1` (3 bits).
    pub apb2_clk_sel: u8,
    /// SPI0 divides PLL0 by `(spi0_clk + 1) * 2`.
    pub spi0_clk: u8,
    /// SPI1 divides PLL0 by `(spi1_clk + 1) * 2`.
    pub spi1_clk: u8,
    pub apb0_clk_en: bool,
    pub apb2_clk_en: bool,
    pub fpioa_clk_en: bool,
    pub dma_clk_en: bool,
}

impl Sysctl {
    /// Every field fits its register width.
    pub open spec fn wf(&self) -> bool {
        &&& self.pll0_clkr < 16
        &&& self.pll0_clkf < 64
        &&& self.pll0_clkod < 16
        &&& self.pll0_bwadj < 64
        &&& self.pll_lock0 < 4
        &&& self.aclk_divider_sel < 4
        &&& self.apb0_clk_sel < 8
        &&& self.apb1_clk_sel < 8
        &&& self.apb2_clk_sel < 8
    }
}

/// PLL0's output frequency under these register fields.
pub open spec fn pll0_freq(s: Sysctl) -> int {
    pll_output(
        CLOCK_FREQ_IN0 as int,
        s.pll0_clkr + 1,
        s.pll0_clkf + 1,
        s.pll0_clkod + 1,
    )
}

/// `2 << sel`: what ACLK divides PLL0 by.
pub open spec fn aclk_divisor(sel: int) -> int {
    if sel == 0 {
        2
    } else if sel == 1 {
        4
    } else if sel == 2 {
        8
    } else {
        16
    }
}

/// ACLK's frequency under these register fields.
pub open spec fn aclk_freq(s: Sysctl) -> int {
    if s.aclk_sel {
        pll0_freq(s) / aclk_divisor(s.aclk_divider_sel as int)
    } else {
        CLOCK_FREQ_IN0 as int
    }
}

/// The ACLK divider for `target`: the smallest divider whose output does not
/// exceed `target`, or the largest divider where every output does.
pub open spec fn aclk_divider_for(pll: int, target: int) -> int {
    if pll / 2 <= target {
        0
    } else if pll / 4 <= target {
        1
    } else if pll / 8 <= target {
        2
    } else {
        3
    }
}

/// `x` kept in `lo..=hi`.
pub open spec fn clamp(x: int, lo: int, hi: int) -> int {
    if x < lo {
        lo
    } else if x > hi {
        hi
    } else {
        x
    }
}

/// A bus clock divides its source by `sel + 1`.
pub open spec fn bus_freq(source: int, sel: int) -> int {
    source / (sel + 1)
}

/// The bus divider for `target`: the smallest divisor whose output does not
/// exceed `target`, `source / (target + 1)`, kept in `0..=7`.
pub open spec fn bus_divider_for(source: int, target: int) -> int {
    clamp(source / (target + 1), 0, 7)
}

/// An SPI clock divides PLL0 by `(threshold + 1) * 2`.
pub open spec fn spi_freq(source: int, threshold: int) -> int {
    source / ((threshold + 1) * 2)
}

/// The SPI threshold for `target`: the smallest threshold whose output does
/// not exceed `target`, `source / (target + 1) / 2`, kept in `0..=255`.
pub open spec fn spi_threshold_for(source: int, target: int) -> int {
    clamp(source / (target + 1) / 2, 0, 255)
}

/// For a divisor `d`, `x / d` stays below `z` exactly when `x` is below
/// `z * d`.
pub proof fn lemma_div_lt(x: int, d: int, z: int)
    requires
        x >= 0,
        d >= 1,
    ensures
        (x / d < z) == (x < z * d),
{
    lemma_fundamental_div_mod(x, d);
    lemma_mod_bound(x, d);
    let q = x / d;
    let r = x % d;
    assert((q < z) == (x < z * d)) by (nonlinear_arith)
        requires
            x == d * q + r,
            0 <= r < d,
    ;
}

/// `source / d` does not exceed `target` exactly when `d` is above
/// `source / (target + 1)`.
pub proof fn lemma_output_at_most(source: int, d: int, target: int)
    requires
        source >= 0,
        d >= 1,
        target >= 0,
    ensures
        (source / d <= target) == (d > source / (target + 1)),
{
    lemma_div_lt(source, d, target + 1);
    lemma_div_lt(source, target + 1, d);
    assert((target + 1) * d == d * (target + 1)) by (nonlinear_arith);
}

/// Splits the system controller into its clock domains.
pub trait SysctlExt: Sized {
    /// The register fields this value holds.
    spec fn sysctl_view(&self) -> Sysctl;

    /// Hands the registers over to `Parts`, with one handle per clock domain.
    fn constrain(self) -> (r: Parts)
        ensures
            r.regs == self.sysctl_view(),
    ;
}

impl SysctlExt for Sysctl {
    open spec fn sysctl_view(&self) -> Sysctl {
        *self
    }

    fn constrain(self) -> (r: Parts) {
        Parts {
            regs: self,
            aclk: ACLK { _ownership: () },
            apb0: APB0 { _ownership: () },
            apb2: APB2 { _ownership: () },
            pll0: PLL0 { _ownership: () },
            spi0: SPI0 { _ownership: () },
            spi1: SPI1 { _ownership: () },
        }
    }
}

/// The system controller's registers and one handle per clock domain.
pub struct Parts {
    /// The register fields that the handles read and write.
    pub regs: Sysctl,
    /// Controls the frequency of ACLK.
    pub aclk: ACLK,
    /// Controls enabling and frequency of PLL0.
    pub pll0: PLL0,
    /// Controls enabling and frequency of APB0.
    pub apb0: APB0,
    /// Controls enabling and frequency of APB2.
    pub apb2: APB2,
    /// Controls the frequency of SPI0.
    pub spi0: SPI0,
    /// Controls the frequency of SPI1.
    pub spi1: SPI1,
}

impl Parts {
    /// Freezes the current clock frequencies.
    pub fn clocks(&self) -> (r: Clocks)
        requires
            self.regs.wf(),
        ensures
            r.cpu_hz() == aclk_freq(self.regs),
            r.apb0_hz() == bus_freq(aclk_freq(self.regs), self.regs.apb0_clk_sel as int),
            r.apb1_hz() == bus_freq(aclk_freq(self.regs), self.regs.apb1_clk_sel as int),
    {
        let aclk = self.aclk.get_frequency(&self.regs);
        let apb1 = Hertz(aclk.0 / (self.regs.apb1_clk_sel as u32 + 1));
        Clocks::from_frequencies(aclk, self.apb0.get_frequency(&self.regs), apb1)
    }
}

/// The APB0 bus clock.
pub struct APB0 {
    _ownership: (),
}

impl APB0 {
    /// Turns the APB0 clock on.
    pub fn enable(&mut self, regs: &mut Sysctl)
        ensures
            *final(regs) == (Sysctl { apb0_clk_en: true, ..*old(regs) }),
    {
        regs.apb0_clk_en = true;
    }

    /// Sets APB0 as close to `expected_freq` as its divider allows and returns
    /// the frequency it now runs at.
    pub fn set_frequency(&mut self, regs: &mut Sysctl, expected_freq: Hertz) -> (r: Hertz)
        requires
            old(regs).wf(),
            expected_freq.0 > 0,
        ensures
            *final(regs) == (Sysctl {
                apb0_clk_sel: bus_divider_for(aclk_freq(*old(regs)), expected_freq.0 as int) as u8,
                ..*old(regs)
            }),
            r.0 == bus_freq(
                aclk_freq(*old(regs)),
                bus_divider_for(aclk_freq(*old(regs)), expected_freq.0 as int),
            ),
            r.0 == bus_freq(aclk_freq(*final(regs)), final(regs).apb0_clk_sel as int),
            aclk_freq(*old(regs)) / 8 <= expected_freq.0 ==> r.0 <= expected_freq.0 && forall|k: int|
                0 <= k < 8 && #[trigger] bus_freq(aclk_freq(*old(regs)), k) <= expected_freq.0
                    ==> bus_freq(aclk_freq(*old(regs)), k) <= r.0,
    {
        let aclk = ACLK::steal().get_frequency(regs).0;
        let sel = bus_divider(aclk, expected_freq.0);
        regs.apb0_clk_sel = sel;
        proof {
            if aclk / 8 <= expected_freq.0 {
                lemma_bus_divider_best(aclk as int, expected_freq.0 as int);
            }
        }
        Hertz(aclk / (sel as u32 + 1))
    }

    /// The frequency APB0 runs at.
    pub fn get_frequency(&self, regs: &Sysctl) -> (r: Hertz)
        requires
            regs.wf(),
        ensures
            r.0 == bus_freq(aclk_freq(*regs), regs.apb0_clk_sel as int),
    {
        let aclk = ACLK::steal().get_frequency(regs).0;
        Hertz(aclk / (regs.apb0_clk_sel as u32 + 1))
    }
}

/// The APB2 bus clock.
pub struct APB2 {
    _ownership: (),
}

impl APB2 {
    /// Turns the APB2 clock on.
    pub fn enable(&mut self, regs: &mut Sysctl)
        ensures
            *final(regs) == (Sysctl { apb2_clk_en: true, ..*old(regs) }),
    {
        regs.apb2_clk_en = true;
    }

    /// Sets APB2 as close to `expected_freq` as its divider allows and returns
    /// the frequency it now runs at.
    pub fn set_frequency(&mut self, regs: &mut Sysctl, expected_freq: Hertz) -> (r: Hertz)
        requires
            old(regs).wf(),
            expected_freq.0 > 0,
        ensures
            *final(regs) == (Sysctl {
                apb2_clk_sel: bus_divider_for(aclk_freq(*old(regs)), expected_freq.0 as int) as u8,
                ..*old(regs)
            }),
            r.0 == bus_freq(
                aclk_freq(*old(regs)),
                bus_divider_for(aclk_freq(*old(regs)), expected_freq.0 as int),
            ),
            r.0 == bus_freq(aclk_freq(*final(regs)), final(regs).apb2_clk_sel as int),
            aclk_freq(*old(regs)) / 8 <= expected_freq.0 ==> r.0 <= expected_freq.0 && forall|k: int|
                0 <= k < 8 && #[trigger] bus_freq(aclk_freq(*old(regs)), k) <= expected_freq.0
                    ==> bus_freq(aclk_freq(*old(regs)), k) <= r.0,
    {
        let aclk = ACLK::steal().get_frequency(regs).0;
        let sel = bus_divider(aclk, expected_freq.0);
        regs.apb2_clk_sel = sel;
        proof {
            if aclk / 8 <= expected_freq.0 {
                lemma_bus_divider_best(aclk as int, expected_freq.0 as int);
            }
        }
        Hertz(aclk / (sel as u32 + 1))
    }

    /// The frequency APB2 runs at.
    pub fn get_frequency(&self, regs: &Sysctl) -> (r: Hertz)
        requires
            regs.wf(),
        ensures
            r.0 == bus_freq(aclk_freq(*regs), regs.apb2_clk_sel as int),
    {
        let aclk = ACLK::steal().get_frequency(regs).0;
        Hertz(aclk / (regs.apb2_clk_sel as u32 + 1))
    }
}

/// Where some bus divider meets the target (`source / 8 <= target`), the
/// chosen divider gives a frequency at or below the target, and no divider in
/// range gives a higher one that is still at or below it.
pub proof fn lemma_bus_divider_best(source: int, target: int)
    requires
        source >= 0,
        target >= 0,
        source / 8 <= target,
    ensures
        bus_freq(source, bus_divider_for(source, target)) <= target,
        forall|k: int|
            0 <= k < 8 && #[trigger] bus_freq(source, k) <= target ==> bus_freq(source, k)
                <= bus_freq(source, bus_divider_for(source, target)),
{
    let q = source / (target + 1);
    lemma_output_at_most(source, 8, target);
    let sel = bus_divider_for(source, target);
    assert(sel == q);
    lemma_output_at_most(source, sel + 1, target);
    assert forall|k: int|
        0 <= k < 8 && #[trigger] bus_freq(source, k) <= target implies bus_freq(source, k)
        <= bus_freq(source, sel) by {
        lemma_output_at_most(source, k + 1, target);
        lemma_div_is_ordered_by_denominator(source, sel + 1, k + 1);
    }
}

/// Where some SPI threshold meets the target (`source / 512 <= target`), the
/// chosen threshold gives a frequency at or below the target, and no threshold
/// in range gives a higher one that is still at or below it.
pub proof fn lemma_spi_threshold_best(source: int, target: int)
    requires
        source >= 0,
        target >= 0,
        source / 512 <= target,
    ensures
        spi_freq(source, spi_threshold_for(source, target)) <= target,
        forall|k: int|
            0 <= k < 256 && #[trigger] spi_freq(source, k) <= target ==> spi_freq(source, k)
                <= spi_freq(source, spi_threshold_for(source, target)),
{
    let q = source / (target + 1);
    lemma_output_at_most(source, 512, target);
    let h = q / 2;
    lemma_fundamental_div_mod(q, 2);
    assert(0 <= q % 2 < 2);
    let t = spi_threshold_for(source, target);
    assert(t == h);
    assert((t + 1) * 2 > q) by (nonlinear_arith)
        requires
            q == 2 * h + q % 2,
            0 <= q % 2 < 2,
            t == h,
    ;
    lemma_output_at_most(source, (t + 1) * 2, target);
    assert forall|k: int|
        0 <= k < 256 && #[trigger] spi_freq(source, k) <= target implies spi_freq(source, k)
        <= spi_freq(source, t) by {
        lemma_output_at_most(source, (k + 1) * 2, target);
        assert((k + 1) * 2 >= (t + 1) * 2) by (nonlinear_arith)
            requires
                (k + 1) * 2 > q,
                q == 2 * h + q % 2,
                0 <= q % 2 < 2,
                t == h,
        ;
        lemma_div_is_ordered_by_denominator(source, (t + 1) * 2, (k + 1) * 2);
    }
}

/// `source / (target + 1)`, kept in `0..=7`.
fn bus_divider(source: u32, target: u32) -> (r: u8)
    ensures
        r as int == bus_divider_for(source as int, target as int),
        r < 8,
{
    let q = source as u64 / (target as u64 + 1);
    if q > 7 {
        7
    } else {
        q as u8
    }
}

/// PLL0, fed by the external oscillator; ACLK (and so the CPU) and the SPI
/// clocks can run from it.
pub struct PLL0 {
    _ownership: (),
}

impl PLL0 {
    pub(crate) fn steal() -> Self {
        PLL0 { _ownership: () }
    }

    /// Whether PLL0 reports lock.
    pub fn is_locked(&self, regs: &Sysctl) -> (r: bool)
        ensures
            r == (regs.pll_lock0 == 3),
    {
        regs.pll_lock0 == 3
    }

    /// Leaves the reset line low after a reset pulse.
    fn reset(&mut self, regs: &mut Sysctl)
        ensures
            *final(regs) == (Sysctl { pll0_reset: false, ..*old(regs) }),
    {
        regs.pll0_reset = false;
        regs.pll0_reset = true;
        regs.pll0_reset = false;
    }

    /// Powers PLL0 up, takes it out of bypass, pulses its reset, waits for
    /// lock and turns its output on, in the order `pll0_enable_plan` gives.
    pub fn enable(&mut self, regs: &mut Sysctl)
        ensures
            *final(regs) == (Sysctl {
                pll0_bypass: false,
                pll0_pwrd: true,
                pll0_reset: false,
                pll_lock0: 3,
                pll0_out_en: true,
                ..*old(regs)
            }),
    {
        regs.pll0_bypass = false;
        regs.pll0_pwrd = true;
        self.reset(regs);
        regs.pll_lock0 = 3;
        regs.pll0_out_en = true;
    }

    /// Puts PLL0 in bypass, powers it down and turns its output off.
    ///
    /// ACLK may run from PLL0: move it to the oscillator first.
    pub fn disable(&mut self, regs: &mut Sysctl)
        ensures
            *final(regs) == (Sysctl {
                pll0_bypass: true,
                pll0_pwrd: false,
                pll0_out_en: false,
                ..*old(regs)
            }),
    {
        regs.pll0_bypass = true;
        regs.pll0_pwrd = false;
        regs.pll0_out_en = false;
    }

    /// Sets PLL0 as close to `frequency` as its dividers allow and returns the
    /// frequency it now runs at, locked. ACLK keeps its source: it runs from the
    /// oscillator while the dividers change and goes back to PLL0 afterwards if
    /// it was there, in the order `pll0_set_frequency_plan` gives.
    pub fn set_frequency(&mut self, regs: &mut Sysctl, frequency: Hertz) -> (r: Hertz)
        requires
            old(regs).wf(),
            frequency.0 > 0,
        ensures
            final(regs).wf(),
            ({
                let (nr, od, nf) = pll_config_for(CLOCK_FREQ_IN0 as int, frequency.0 as int);
                &&& *final(regs) == (Sysctl {
                    pll0_clkr: (nr - 1) as u8,
                    pll0_clkf: (nf - 1) as u8,
                    pll0_clkod: (od - 1) as u8,
                    pll0_bwadj: (nf - 1) as u8,
                    pll0_bypass: false,
                    pll0_pwrd: true,
                    pll0_reset: false,
                    pll_lock0: 3,
                    pll0_out_en: true,
                    ..*old(regs)
                })
                &&& r.0 == pll_output(CLOCK_FREQ_IN0 as int, nr, nf, od)
            }),
            r.0 == pll0_freq(*final(regs)),
    {
        let is_aclk_using = regs.aclk_sel;
        if is_aclk_using {
            regs.aclk_sel = false;
        }
        self.disable(regs);
        let (nr, od, nf) = calculate_pll_config(CLOCK_FREQ_IN0, frequency.0);
        proof {
            lemma_pll_config_unique(CLOCK_FREQ_IN0 as int, frequency.0 as int, (nr as int, od as int, nf as int));
        }
        regs.pll0_clkr = nr - 1;
        regs.pll0_clkf = nf - 1;
        regs.pll0_clkod = od - 1;
        regs.pll0_bwadj = nf - 1;
        self.enable(regs);
        if is_aclk_using {
            regs.aclk_sel = true;
        }
        self.get_frequency(regs)
    }

    /// The frequency PLL0 runs at.
    pub fn get_frequency(&self, regs: &Sysctl) -> (r: Hertz)
        requires
            regs.wf(),
        ensures
            r.0 == pll0_freq(*regs),
    {
        let nr = regs.pll0_clkr as u32 + 1;
        let nf = regs.pll0_clkf as u32 + 1;
        let od = regs.pll0_clkod as u32 + 1;
        assert(CLOCK_FREQ_IN0 / nr * nf <= 26_000_000 * 64) by (nonlinear_arith)
            requires 1 <= nr, 1 <= nf <= 64, CLOCK_FREQ_IN0 / nr <= 26_000_000;
        Hertz(CLOCK_FREQ_IN0 / nr * nf / od)
    }
}

/// One step of reprogramming PLL0, in the order the hardware sees it.
#[derive(Clone, Copy, Debug, PartialEq, Eq, Structural)]
pub enum PllStep {
    /// Run ACLK from the oscillator.
    AclkToOscillator,
    /// Bypass PLL0, power it down and turn its output off.
    Disable,
    /// Write the divider fields.
    WriteDividers,
    /// Take PLL0 out of bypass and power it up.
    PowerUp,
    /// Drive the reset line low.
    ResetLow,
    /// Drive the reset line high.
    ResetHigh,
    /// Wait until PLL0 reports lock, clearing its slip flag on each try.
    WaitLock,
    /// Turn PLL0's output on.
    OutputEnable,
    /// Run ACLK from PLL0 again.
    AclkToPll,
}

/// Enabling PLL0: power up, a full reset pulse, lock, and only then the
/// output.
pub open spec fn pll0_enable_steps() -> Seq<PllStep> {
    seq![
        PllStep::PowerUp,
        PllStep::ResetLow,
        PllStep::ResetHigh,
        PllStep::ResetLow,
        PllStep::WaitLock,
        PllStep::OutputEnable,
    ]
}

/// The steps of `PLL0::enable`.
pub fn pll0_enable_plan() -> (r: Vec<PllStep>)
    ensures
        r@ == pll0_enable_steps(),
{
    let mut r: Vec<PllStep> = Vec::new();
    r.push(PllStep::PowerUp);
    r.push(PllStep::ResetLow);
    r.push(PllStep::ResetHigh);
    r.push(PllStep::ResetLow);
    r.push(PllStep::WaitLock);
    r.push(PllStep::OutputEnable);
    assert(r@ =~= pll0_enable_steps());
    r
}

/// The steps of `PLL0::set_frequency` when ACLK does (`aclk_on_pll`) or does
/// not run from PLL0: ACLK moves to the oscillator before PLL0 is disabled and
/// comes back only after PLL0 is locked and its output is on.
pub fn pll0_set_frequency_plan(aclk_on_pll: bool) -> (r: Vec<PllStep>)
    ensures
        r@ == (if aclk_on_pll { seq![PllStep::AclkToOscillator] } else { seq![] }) + seq![
            PllStep::Disable,
            PllStep::WriteDividers,
        ] + pll0_enable_steps() + (if aclk_on_pll { seq![PllStep::AclkToPll] } else { seq![] }),
{
    let mut r: Vec<PllStep> = Vec::new();
    if aclk_on_pll {
        r.push(PllStep::AclkToOscillator);
    }
    r.push(PllStep::Disable);
    r.push(PllStep::WriteDividers);
    let mut e = pll0_enable_plan();
    r.append(&mut e);
    if aclk_on_pll {
        r.push(PllStep::AclkToPll);
    }
    assert(r@ =~= (if aclk_on_pll { seq![PllStep::AclkToOscillator] } else { seq![] }) + seq![
        PllStep::Disable,
        PllStep::WriteDividers,
    ] + pll0_enable_steps() + (if aclk_on_pll { seq![PllStep::AclkToPll] } else { seq![] }));
    r
}

/// ACLK, the CPU clock.
pub struct ACLK {
    _ownership: (),
}

impl ACLK {
    pub(crate) fn steal() -> Self {
        ACLK { _ownership: () }
    }

    /// Makes ACLK run from the oscillator.
    pub fn use_external(&mut self, regs: &mut Sysctl)
        ensures
            *final(regs) == (Sysctl { aclk_sel: false, ..*old(regs) }),
    {
        regs.aclk_sel = false;
    }

    /// Whether ACLK runs from the oscillator.
    pub fn is_using_external(&self, regs: &Sysctl) -> (r: bool)
        ensures
            r == !regs.aclk_sel,
    {
        !regs.aclk_sel
    }

    /// Makes ACLK run from PLL0 divided by `2 << aclk_divider_sel`.
    pub fn use_pll0(&mut self, regs: &mut Sysctl, aclk_divider_sel: u8)
        requires
            aclk_divider_sel < 4,
        ensures
            *final(regs) == (Sysctl { aclk_sel: true, aclk_divider_sel, ..*old(regs) }),
    {
        regs.aclk_divider_sel = aclk_divider_sel;
        regs.aclk_sel = true;
    }

    /// Sets ACLK and returns the frequency it now runs at. The oscillator's
    /// own frequency is taken from the oscillator; any other runs from PLL0,
    /// which is left as it is, at the highest of its four divided outputs that
    /// does not exceed `expected_freq`, or the lowest where all do.
    pub fn set_frequency(&mut self, regs: &mut Sysctl, expected_freq: Hertz) -> (r: Hertz)
        requires
            old(regs).wf(),
        ensures
            final(regs).wf(),
            expected_freq.0 == CLOCK_FREQ_IN0 ==> *final(regs) == (Sysctl {
                aclk_sel: false,
                ..*old(regs)
            }),
            expected_freq.0 != CLOCK_FREQ_IN0 ==> *final(regs) == (Sysctl {
                aclk_sel: true,
                aclk_divider_sel: aclk_divider_for(
                    pll0_freq(*old(regs)),
                    expected_freq.0 as int,
                ) as u8,
                ..*old(regs)
            }),
            r.0 == aclk_freq(*final(regs)),
    {
        let expected = expected_freq.0;
        if expected == CLOCK_FREQ_IN0 {
            self.use_external(regs);
            Hertz(CLOCK_FREQ_IN0)
        } else {
            let pll0 = PLL0::steal().get_frequency(regs).0;
            let mut sel: u8 = 3;
            let mut i: u8 = 0;
            while i < 3 && sel == 3
                invariant
                    i <= 3,
                    sel == 3 || (sel == i && i < 3),
                    forall|d: int| 0 <= d < i ==> pll0 as int / aclk_divisor(d) > expected as int,
                    sel < 3 ==> pll0 as int / aclk_divisor(sel as int) <= expected as int,
                decreases 3 - i + (if sel == 3 { 1int } else { 0 }),
            {
                if pll0 / aclk_divisor_of(i) <= expected {
                    sel = i;
                } else {
                    i = i + 1;
                }
            }
            proof {
                if sel >= 1 {
                    assert(pll0 as int / aclk_divisor(0) > expected as int);
                }
                if sel >= 2 {
                    assert(pll0 as int / aclk_divisor(1) > expected as int);
                }
                if sel >= 3 {
                    assert(pll0 as int / aclk_divisor(2) > expected as int);
                }
            }
            self.use_pll0(regs, sel);
            Hertz(pll0 / aclk_divisor_of(sel))
        }
    }

    /// The frequency ACLK runs at.
    pub fn get_frequency(&self, regs: &Sysctl) -> (r: Hertz)
        requires
            regs.wf(),
        ensures
            r.0 == aclk_freq(*regs),
    {
        if self.is_using_external(regs) {
            Hertz(CLOCK_FREQ_IN0)
        } else {
            let pll0 = PLL0::steal().get_frequency(regs).0;
            Hertz(pll0 / aclk_divisor_of(regs.aclk_divider_sel))
        }
    }
}

/// `2 << sel`.
fn aclk_divisor_of(sel: u8) -> (r: u32)
    requires
        sel < 4,
    ensures
        r == aclk_divisor(sel as int),
{
    if sel == 0 {
        2
    } else if sel == 1 {
        4
    } else if sel == 2 {
        8
    } else {
        16
    }
}

/// `source / (target + 1) / 2`, kept in `0..=255`.
fn spi_threshold(source: u32, target: u32) -> (r: u8)
    ensures
        r as int == spi_threshold_for(source as int, target as int),
{
    let q = source as u64 / (target as u64 + 1) / 2;
    if q > 255 {
        255
    } else {
        q as u8
    }
}

/// The SPI0 clock.
pub struct SPI0 {
    _ownership: (),
}

impl SPI0 {
    /// Sets SPI0 as close to `expected_freq` as its threshold allows and
    /// returns the frequency it now runs at.
    pub fn set_frequency(&mut self, regs: &mut Sysctl, expected_freq: Hertz) -> (r: Hertz)
        requires
            old(regs).wf(),
            expected_freq.0 > 0,
        ensures
            *final(regs) == (Sysctl {
                spi0_clk: spi_threshold_for(pll0_freq(*old(regs)), expected_freq.0 as int) as u8,
                ..*old(regs)
            }),
            r.0 == spi_freq(pll0_freq(*final(regs)), final(regs).spi0_clk as int),
            pll0_freq(*old(regs)) / 512 <= expected_freq.0 ==> r.0 <= expected_freq.0 && forall|k: int|
                0 <= k < 256 && #[trigger] spi_freq(pll0_freq(*old(regs)), k) <= expected_freq.0
                    ==> spi_freq(pll0_freq(*old(regs)), k) <= r.0,
    {
        let source = PLL0::steal().get_frequency(regs).0;
        let th = spi_threshold(source, expected_freq.0);
        regs.spi0_clk = th;
        proof {
            if source / 512 <= expected_freq.0 {
                lemma_spi_threshold_best(source as int, expected_freq.0 as int);
            }
        }
        Hertz(source / ((th as u32 + 1) * 2))
    }

    /// The frequency SPI0 runs at.
    pub fn get_frequency(&self, regs: &Sysctl) -> (r: Hertz)
        requires
            regs.wf(),
        ensures
            r.0 == spi_freq(pll0_freq(*regs), regs.spi0_clk as int),
    {
        let source = PLL0::steal().get_frequency(regs).0;
        Hertz(source / ((regs.spi0_clk as u32 + 1) * 2))
    }
}

/// The SPI1 clock.
pub struct SPI1 {
    _ownership: (),
}

impl SPI1 {
    /// Sets SPI1 as close to `expected_freq` as its threshold allows and
    /// returns the frequency it now runs at.
    pub fn set_frequency(&mut self, regs: &mut Sysctl, expected_freq: Hertz) -> (r: Hertz)
        requires
            old(regs).wf(),
            expected_freq.0 > 0,
        ensures
            *final(regs) == (Sysctl {
                spi1_clk: spi_threshold_for(pll0_freq(*old(regs)), expected_freq.0 as int) as u8,
                ..*old(regs)
            }),
            r.0 == spi_freq(pll0_freq(*final(regs)), final(regs).spi1_clk as int),
            pll0_freq(*old(regs)) / 512 <= expected_freq.0 ==> r.0 <= expected_freq.0 && forall|k: int|
                0 <= k < 256 && #[trigger] spi_freq(pll0_freq(*old(regs)), k) <= expected_freq.0
                    ==> spi_freq(pll0_freq(*old(regs)), k) <= r.0,
    {
        let source = PLL0::steal().get_frequency(regs).0;
        let th = spi_threshold(source, expected_freq.0);
        regs.spi1_clk = th;
        proof {
            if source / 512 <= expected_freq.0 {
                lemma_spi_threshold_best(source as int, expected_freq.0 as int);
            }
        }
        Hertz(source / ((th as u32 + 1) * 2))
    }

    /// The frequency SPI1 runs at.
    pub fn get_frequency(&self, regs: &Sysctl) -> (r: Hertz)
        requires
            regs.wf(),
        ensures
            r.0 == spi_freq(pll0_freq(*regs), regs.spi1_clk as int),
    {
        let source = PLL0::steal().get_frequency(regs).0;
        Hertz(source / ((regs.spi1_clk as u32 + 1) * 2))
    }
}

} // verus!
