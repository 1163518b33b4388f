//! Digital video port (DVP): camera clocking, the SCCB bus clock, image
//! size and format.
//!
//! `DvpRegs` holds the settings the port's registers carry, as plain values.
use vstd::prelude::*;
use crate::clock::Clocks;
use crate::time::Hertz;
use crate::sysctl::{lemma_output_at_most, lemma_spi_threshold_best, spi_freq, spi_threshold_for};
use vstd::arithmetic::div_mod::lemma_fundamental_div_mod;

verus! {

/// Pixel format of a captured image.
#[derive(Clone, Copy, Debug, PartialEq, Eq, Structural)]
pub enum ImageFormat {
    RGB,
    YUV,
    Y,
}

/// The DVP settings.
pub struct DvpRegs {
    /// SCCB clock low count.
    pub scl_lcnt: u8,
    /// SCCB clock high count.
    pub scl_hcnt: u8,
    /// Camera clock divider.
    pub clk_div: u8,
    pub clk_enable: bool,
    pub power_down: bool,
    pub reset: bool,
    /// Bursts of four beats (`true`) or single beats.
    pub burst_size_4beats: bool,
    /// AXI transfers of four bytes (`true`) or one.
    pub gm_mlen_byte4: bool,
    /// Bursts per line.
    pub href_burst_num: u8,
    /// Lines per frame.
    pub line_num: u16,
    pub format: ImageFormat,
    /// Display output address.
    pub rgb_addr: u32,
    pub display_output_enable: bool,
    pub auto_enable: bool,
}

/// The SCCB clock count for `rate` from `source`: the smallest count whose
/// clock, `source / (count * 2)`, does not exceed `rate`, kept in `1..=255`.
pub open spec fn sccb_count_for(source: int, rate: int) -> int {
    let c = source / (rate + 1) / 2 + 1;
    if c > 255 {
        255
    } else {
        c
    }
}

/// The camera clock divider for `rate` from `source`: the smallest divider
/// whose clock, `source / ((div + 1) * 2)`, does not exceed `rate`, kept in
/// `0..=255`.
pub open spec fn xclk_div_for(source: int, rate: int) -> int {
    spi_threshold_for(source, rate)
}

/// Bursts per line of `width` pixels: `width / 8` bursts of one beat, or a
/// quarter as many of four, at most 255.
pub open spec fn burst_num_for(burst_mode: bool, width: int) -> int {
    let n = if burst_mode {
        width / 8 / 4
    } else {
        width / 8
    };
    if n > 255 {
        255
    } else {
        n
    }
}

/// Turns the port into a `Dvp`.
pub trait DvpExt: Sized {
    /// The settings this value holds.
    spec fn dvp_view(&self) -> DvpRegs;

    /// Hands the settings over to a `Dvp`.
    fn constrain(self) -> (r: Dvp)
        ensures
            r.dvp == self.dvp_view(),
    ;
}

impl DvpExt for DvpRegs {
    open spec fn dvp_view(&self) -> DvpRegs {
        *self
    }

    fn constrain(self) -> (r: Dvp) {
        Dvp { dvp: self }
    }
}

/// The digital video port.
pub struct Dvp {
    pub dvp: DvpRegs,
}

impl Dvp {
    /// Sets both SCCB clock counts to their largest value.
    pub fn sccb_clk_init(&mut self)
        ensures
            final(self).dvp == (DvpRegs { scl_lcnt: 255, scl_hcnt: 255, ..old(self).dvp }),
    {
        self.dvp.scl_lcnt = 255;
        self.dvp.scl_hcnt = 255;
    }

    /// Sets the SCCB clock to the fastest rate its counts allow that does not
    /// exceed `clk_rate`, from the APB1 clock, and returns that rate.
    pub fn sccb_clk_set_rate(&mut self, clk_rate: Hertz, clock: &Clocks) -> (r: Hertz)
        ensures
            ({
                let c = sccb_count_for(clock.apb1_hz(), clk_rate.0 as int);
                &&& final(self).dvp == (DvpRegs { scl_lcnt: c as u8, scl_hcnt: c as u8, ..old(self).dvp })
                &&& r.0 == clock.apb1_hz() / (c * 2)
                &&& clock.apb1_hz() / 510 <= clk_rate.0 ==> r.0 <= clk_rate.0
            }),
    {
        let source = clock.apb1().0;
        let c = source as u64 / (clk_rate.0 as u64 + 1) / 2 + 1;
        let count: u32 = if c > 255 {
            255
        } else {
            c as u32
        };
        proof {
            let s = source as int;
            let e = clk_rate.0 as int;
            if s / 510 <= e {
                lemma_output_at_most(s, 510, e);
                let q = s / (e + 1);
                lemma_fundamental_div_mod(q, 2);
                assert(0 <= q % 2 < 2);
                assert(count * 2 > q) by (nonlinear_arith)
                    requires
                        q == 2 * (q / 2) + q % 2,
                        0 <= q % 2 < 2,
                        q < 510,
                        count == (if q / 2 + 1 > 255 { 255 } else { q / 2 + 1 }),
                ;
                lemma_output_at_most(s, count * 2, e);
            }
        }
        self.dvp.scl_lcnt = count as u8;
        self.dvp.scl_hcnt = count as u8;
        Hertz(source / (count * 2))
    }

    /// Powers the camera down and up and pulses its reset, leaving it
    /// powered and out of reset.
    pub fn reset(&mut self)
        ensures
            final(self).dvp == (DvpRegs { power_down: false, reset: true, ..old(self).dvp }),
    {
        self.dvp.power_down = true;
        self.dvp.power_down = false;
        self.dvp.reset = false;
        self.dvp.reset = true;
    }

    /// Sets the camera clock to the fastest rate its divider allows that does
    /// not exceed `xclk_rate`, from the APB1 clock, turns it on, resets the
    /// camera, and returns that rate.
    pub fn set_xclk_rate(&mut self, xclk_rate: Hertz, clock: &Clocks) -> (r: Hertz)
        ensures
            ({
                let p = xclk_div_for(clock.apb1_hz(), xclk_rate.0 as int);
                &&& final(self).dvp == (DvpRegs {
                    clk_div: p as u8,
                    clk_enable: true,
                    power_down: false,
                    reset: true,
                    ..old(self).dvp
                })
                &&& r.0 == spi_freq(clock.apb1_hz(), p)
                &&& clock.apb1_hz() / 512 <= xclk_rate.0 ==> r.0 <= xclk_rate.0 && forall|k: int|
                    0 <= k < 256 && #[trigger] spi_freq(clock.apb1_hz(), k) <= xclk_rate.0
                        ==> spi_freq(clock.apb1_hz(), k) <= r.0
            }),
    {
        let apb1 = clock.apb1().0;
        let q = apb1 as u64 / (xclk_rate.0 as u64 + 1) / 2;
        let period: u32 = if q > 255 {
            255
        } else {
            q as u32
        };
        proof {
            if apb1 / 512 <= xclk_rate.0 {
                lemma_spi_threshold_best(apb1 as int, xclk_rate.0 as int);
            }
        }
        self.dvp.clk_div = period as u8;
        self.dvp.clk_enable = true;
        self.reset();
        Hertz(apb1 / ((period + 1) * 2))
    }

    /// Sets the burst mode and the frame's width and height.
    pub fn set_image_size(&mut self, burst_mode: bool, width: u16, height: u16)
        ensures
            final(self).dvp == (DvpRegs {
                burst_size_4beats: burst_mode,
                gm_mlen_byte4: burst_mode,
                href_burst_num: burst_num_for(burst_mode, width as int) as u8,
                line_num: height,
                ..old(self).dvp
            }),
    {
        let n = if burst_mode {
            width / 8 / 4
        } else {
            width / 8
        };
        let burst_num: u16 = if n > 255 {
            255
        } else {
            n
        };
        self.dvp.burst_size_4beats = burst_mode;
        self.dvp.gm_mlen_byte4 = burst_mode;
        self.dvp.href_burst_num = burst_num as u8;
        self.dvp.line_num = height;
    }

    /// Sets the pixel format.
    pub fn set_image_format(&mut self, format: ImageFormat)
        ensures
            final(self).dvp == (DvpRegs { format, ..old(self).dvp }),
    {
        self.dvp.format = format;
    }

    /// Sends frames to `addr`, or stops the display output for `None`.
    pub fn set_display_addr(&mut self, addr: Option<u32>)
        ensures
            final(self).dvp == (match addr {
                Some(a) => DvpRegs { rgb_addr: a, display_output_enable: true, ..old(self).dvp },
                None => DvpRegs { display_output_enable: false, ..old(self).dvp },
            }),
    {
        match addr {
            Some(a) => {
                self.dvp.rgb_addr = a;
                self.dvp.display_output_enable = true;
            },
            None => {
                self.dvp.display_output_enable = false;
            },
        }
    }

    /// Turns automatic capture on or off.
    pub fn set_auto(&mut self, status: bool)
        ensures
            final(self).dvp == (DvpRegs { auto_enable: status, ..old(self).dvp }),
    {
        self.dvp.auto_enable = status;
    }
}

} // verus!
