//! Serial Peripheral Interface (SPI) settings.
use vstd::prelude::*;
use crate::time::Hertz;
use crate::sysctl::lemma_output_at_most;
use vstd::arithmetic::div_mod::lemma_div_is_ordered_by_denominator;
use embedded_hal::spi::{Mode, Phase, Polarity};

verus! {

/// The clock polarity of an SPI mode: the clock idles low or high.
#[verifier::external_type_specification]
pub struct ExPolarity(Polarity);

/// The clock phase of an SPI mode: data is captured on the first or the
/// second clock transition.
#[verifier::external_type_specification]
pub struct ExPhase(Phase);

/// An SPI mode: a clock polarity and a clock phase.
#[verifier::external_type_specification]
pub struct ExMode(Mode);

/// The controller's work mode for an SPI mode: bit 1 is the idle-high
/// polarity, bit 0 the capture on the second transition.
pub open spec fn work_mode_bits(mode: Mode) -> u8 {
    match (mode.polarity, mode.phase) {
        (Polarity::IdleLow, Phase::CaptureOnFirstTransition) => 0,
        (Polarity::IdleLow, Phase::CaptureOnSecondTransition) => 1,
        (Polarity::IdleHigh, Phase::CaptureOnFirstTransition) => 2,
        (Polarity::IdleHigh, Phase::CaptureOnSecondTransition) => 3,
    }
}

/// The controller's work mode for an SPI mode.
pub fn hal_mode_to_pac(mode: Mode) -> (r: u8)
    ensures
        r == work_mode_bits(mode),
{
    match (mode.polarity, mode.phase) {
        (Polarity::IdleLow, Phase::CaptureOnFirstTransition) => 0,
        (Polarity::IdleLow, Phase::CaptureOnSecondTransition) => 1,
        (Polarity::IdleHigh, Phase::CaptureOnFirstTransition) => 2,
        (Polarity::IdleHigh, Phase::CaptureOnSecondTransition) => 3,
    }
}

/// Lines a frame uses.
#[derive(Clone, Copy, Debug, PartialEq, Eq, Structural)]
pub enum FrameFormat {
    Standard,
    Dual,
    Quad,
    Octal,
}

/// Byte order of a frame.
#[derive(Clone, Copy, Debug, PartialEq, Eq, Structural)]
pub enum Endian {
    Little,
    Big,
}

/// The register value of a frame format.
pub open spec fn frame_format_bits(f: FrameFormat) -> u8 {
    match f {
        FrameFormat::Standard => 0,
        FrameFormat::Dual => 1,
        FrameFormat::Quad => 2,
        FrameFormat::Octal => 3,
    }
}

/// The register value of a frame format.
pub fn frame_format_to_pac(frame_format: FrameFormat) -> (r: u8)
    ensures
        r == frame_format_bits(frame_format),
{
    match frame_format {
        FrameFormat::Standard => 0,
        FrameFormat::Dual => 1,
        FrameFormat::Quad => 2,
        FrameFormat::Octal => 3,
    }
}

/// The register value of a byte order.
pub fn endian_to_pac(endian: Endian) -> (r: u32)
    ensures
        r == (if endian == Endian::Little { 0u32 } else { 1u32 }),
{
    match endian {
        Endian::Little => 0,
        Endian::Big => 1,
    }
}

/// The SPI baud divider for `expected` from `source`: the smallest divider
/// whose output does not exceed `expected`, `source / (expected + 1) + 1`,
/// kept in `2..=65534`.
pub open spec fn spi_baudr_for(source: int, expected: int) -> int {
    let d = source / (expected + 1) + 1;
    if d < 2 {
        2
    } else if d > 65534 {
        65534
    } else {
        d
    }
}

/// An SPI controller's registers that its settings fill, and the chip select
/// it talks to.
pub struct Spi {
    /// Baud divider: the bus clock is the source over `baudr`.
    pub baudr: u32,
    pub work_mode: u8,
    pub frame_format: u8,
    /// Bits per frame, less one.
    pub data_length: u8,
    pub endian: u32,
    pub cs_id: u8,
}

impl Spi {
    /// Settings for talking to chip select `cs_id` in `mode` with eight-bit
    /// frames; the baud divider starts at its smallest value.
    pub fn new(cs_id: u8, mode: Mode, frame_format: FrameFormat, endian: Endian) -> (r: Spi)
        ensures
            r == (Spi {
                baudr: 2,
                work_mode: work_mode_bits(mode),
                frame_format: frame_format_bits(frame_format),
                data_length: 7,
                endian: if endian == Endian::Little { 0u32 } else { 1u32 },
                cs_id,
            }),
    {
        Spi {
            baudr: 2,
            work_mode: hal_mode_to_pac(mode),
            frame_format: frame_format_to_pac(frame_format),
            data_length: 7,
            endian: endian_to_pac(endian),
            cs_id,
        }
    }

    /// Sets the bus clock as close to `expected_rate` as the divider allows,
    /// from the controller's source clock `source`, and returns the rate it
    /// now runs at.
    pub fn set_clock_rate(&mut self, expected_rate: Hertz, source: Hertz) -> (r: Hertz)
        ensures
            *final(self) == (Spi {
                baudr: spi_baudr_for(source.0 as int, expected_rate.0 as int) as u32,
                ..*old(self)
            }),
            r.0 == source.0 as int / spi_baudr_for(source.0 as int, expected_rate.0 as int),
            source.0 / 2 <= expected_rate.0 ==> r.0 == source.0 / 2,
            source.0 / 65534 <= expected_rate.0 ==> r.0 <= expected_rate.0 && forall|d: int|
                2 <= d <= 65534 && #[trigger] (source.0 as int / d) <= expected_rate.0 ==> source.0
                    as int / d <= r.0,
    {
        let d = source.0 as u64 / (expected_rate.0 as u64 + 1) + 1;
        let baudr: u32 = if d < 2 {
            2
        } else if d > 65534 {
            65534
        } else {
            d as u32
        };
        self.baudr = baudr;
        proof {
            let s = source.0 as int;
            let e = expected_rate.0 as int;
            lemma_output_at_most(s, 2, e);
            if s / 65534 <= e {
                lemma_output_at_most(s, 65534, e);
                lemma_output_at_most(s, baudr as int, e);
                assert forall|k: int| 2 <= k <= 65534 && #[trigger] (s / k) <= e implies s / k
                    <= s / (baudr as int) by {
                    lemma_output_at_most(s, k, e);
                    lemma_div_is_ordered_by_denominator(s, baudr as int, k);
                }
            }
        }
        Hertz(source.0 / baudr)
    }

    /// The same controller talking to chip select `cs_id`.
    pub fn take_for_cs(self, cs_id: u8) -> (r: Self)
        ensures
            r == (Spi { cs_id, ..self }),
    {
        Spi { cs_id, ..self }
    }
}

} // verus!
