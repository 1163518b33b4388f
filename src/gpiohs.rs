//! High-speed GPIO (GPIOHS): 32 pins with edge and level interrupts.
//!
//! The register words are held as plain values, one bit per pin. A pending
//! bit reads as set while its event is pending; clearing it here leaves it
//! clear (the hardware takes a written one to clear).
use vstd::prelude::*;
use core::marker::PhantomData;
use crate::bits::{bit_of, lemma_with_bit_twice, u32_bit_is_clear, u32_bit_is_set, u32_set_bit, with_bit};
use crate::fpioa::IoPin;
use crate::functions::GPIOHS0;

verus! {

/// Number of GPIOHS pins.
pub const GPIOHS_PINS: usize = 32;

/// Interrupt on a rising edge.
pub const RISING: u8 = 0b0001;

/// Interrupt on a falling edge.
pub const FALLING: u8 = 0b0010;

/// Interrupt while the level is high.
pub const HIGH: u8 = 0b0100;

/// Interrupt while the level is low.
pub const LOW: u8 = 0b1000;

/// A set of interrupt triggers: any union of `RISING`, `FALLING`, `HIGH` and
/// `LOW`.
#[derive(Clone, Copy, Debug, PartialEq, Eq, Structural)]
pub struct Edge {
    pub bits: u8,
}

/// Whether the trigger set `bits` holds `flag`.
pub open spec fn has_flag(bits: u8, flag: u8) -> bool {
    bits & flag == flag
}

/// The trigger set made of the four flags that are true.
pub open spec fn edge_bits(rise: bool, fall: bool, high: bool, low: bool) -> u8 {
    ((if rise { RISING as int } else { 0 }) + (if fall { FALLING as int } else { 0 }) + (if high {
        HIGH as int
    } else {
        0
    }) + (if low { LOW as int } else { 0 })) as u8
}

impl Edge {
    /// The empty set.
    pub fn empty() -> (r: Edge)
        ensures
            r.bits == 0,
    {
        Edge { bits: 0 }
    }

    /// The set of the flags in `bits` that name a trigger.
    pub fn from_bits_truncate(bits: u8) -> (r: Edge)
        ensures
            r.bits == bits & 0b1111,
    {
        Edge { bits: bits & 0b1111 }
    }

    /// Whether the set holds every flag of `flag`.
    pub fn contains(&self, flag: u8) -> (r: bool)
        ensures
            r == has_flag(self.bits, flag),
    {
        self.bits & flag == flag
    }
}

/// One access to a pin's interrupt bits, in the order the hardware sees it.
#[derive(Clone, Copy, Debug, PartialEq, Eq, Structural)]
pub enum GpiohsWrite {
    /// Set the rising-edge enable bit to the value.
    RiseIe(bool),
    /// Set the falling-edge enable bit to the value.
    FallIe(bool),
    /// Set the high-level enable bit to the value.
    HighIe(bool),
    /// Set the low-level enable bit to the value.
    LowIe(bool),
    /// Clear the rising-edge pending bit.
    RiseIpClear,
    /// Clear the falling-edge pending bit.
    FallIpClear,
    /// Clear the high-level pending bit.
    HighIpClear,
    /// Clear the low-level pending bit.
    LowIpClear,
}

/// Clearing one kind's pending bit while its interrupt is enabled: off,
/// clear, on again; nothing where it is disabled.
pub open spec fn guarded_clear(enabled: bool, off: GpiohsWrite, clear: GpiohsWrite, on: GpiohsWrite) -> Seq<GpiohsWrite> {
    if enabled {
        seq![off, clear, on]
    } else {
        seq![]
    }
}

/// The GPIOHS register words; bit `i` of each belongs to pin `i`.
pub struct GpiohsRegs {
    pub input_val: u32,
    pub input_en: u32,
    pub output_en: u32,
    pub output_val: u32,
    pub pullup_en: u32,
    pub rise_ie: u32,
    pub rise_ip: u32,
    pub fall_ie: u32,
    pub fall_ip: u32,
    pub high_ie: u32,
    pub high_ip: u32,
    pub low_ie: u32,
    pub low_ip: u32,
}

/// Splits the GPIOHS block into its pins.
pub trait GpiohsExt: Sized {
    /// The register words this value holds.
    spec fn regs_view(&self) -> GpiohsRegs;

    /// Makes one token per pin.
    fn split(self) -> (r: Parts)
        ensures
            r.wf(),
            r.regs == self.regs_view(),
            r.available() == Seq::new(GPIOHS_PINS as nat, |i: int| true),
    ;
}

impl GpiohsExt for GpiohsRegs {
    open spec fn regs_view(&self) -> GpiohsRegs {
        *self
    }

    fn split(self) -> (r: Parts) {
        let mut pins: Vec<Option<GpiohsPin>> = Vec::new();
        let mut i: u8 = 0;
        while (i as usize) < GPIOHS_PINS
            invariant
                i as usize <= GPIOHS_PINS,
                pins@.len() == i,
                forall|j: int|
                    0 <= j < i ==> #[trigger] pins@[j].is_some() && pins@[j].unwrap().pin() == j,
            decreases GPIOHS_PINS - i as usize,
        {
            pins.push(Some(GpiohsPin { index: i }));
            i = i + 1;
        }
        let r = Parts { regs: self, pins: GpiohsSlots { slots: pins } };
        assert(r.available() =~= Seq::new(GPIOHS_PINS as nat, |i: int| true));
        r
    }
}

/// Exclusive token for one GPIOHS pin, handed out by `Parts`.
pub struct GpiohsPin {
    index: u8,
}

impl GpiohsPin {
    /// The pin this token stands for.
    pub closed spec fn pin(&self) -> int {
        self.index as int
    }
}

/// GPIOHS pin 0 under the name it has always had.
pub type Gpiohs0<MODE> = Gpiohs<MODE>;

/// The pin slots: each holds its pin's handle until it is handed out.
pub struct GpiohsSlots {
    slots: Vec<Option<GpiohsPin>>,
}

impl GpiohsSlots {
    /// Which pins are held here, not handed out.
    pub closed spec fn available(&self) -> Seq<bool> {
        self.slots@.map_values(|p: Option<GpiohsPin>| p.is_some())
    }

    /// One slot per pin; a held token sits in its own pin's slot.
    pub closed spec fn wf(&self) -> bool {
        &&& self.slots@.len() == GPIOHS_PINS
        &&& forall|j: int|
            0 <= j < GPIOHS_PINS && #[trigger] self.slots@[j].is_some() ==> self.slots@[j].unwrap().pin()
                == j
    }

    /// Hands out the token of pin `index`, or `None` where it is already out.
    pub fn take(&mut self, index: usize) -> (r: Option<GpiohsPin>)
        requires
            old(self).wf(),
            index < GPIOHS_PINS,
        ensures
            final(self).wf(),
            r.is_some() == old(self).available()[index as int],
            r.is_some() ==> r.unwrap().pin() == index,
            final(self).available() == old(self).available().update(index as int, false),
    {
        let mut slot: Option<GpiohsPin> = None;
        std::mem::swap(&mut slot, &mut self.slots[index]);
        proof {
            assert(self.available() =~= old(self).available().update(index as int, false));
        }
        slot
    }
}

/// The GPIOHS register words and the pin tokens not handed out.
pub struct Parts {
    /// The registers the pin handles read and write.
    pub regs: GpiohsRegs,
    /// The pin handles not handed out.
    pub pins: GpiohsSlots,
}

impl Parts {
    /// Which pins are held here, not handed out.
    pub open spec fn available(&self) -> Seq<bool> {
        self.pins.available()
    }

    /// One slot per pin; a held handle sits in its own pin's slot.
    pub open spec fn wf(&self) -> bool {
        self.pins.wf()
    }

    /// Hands out the handle of pin `index`, or `None` where it is already out.
    pub fn take(&mut self, index: usize) -> (r: Option<GpiohsPin>)
        requires
            old(self).wf(),
            index < GPIOHS_PINS,
        ensures
            final(self).wf(),
            final(self).regs == old(self).regs,
            r.is_some() == old(self).available()[index as int],
            r.is_some() ==> r.unwrap().pin() == index,
            final(self).available() == old(self).available().update(index as int, false),
    {
        self.pins.take(index)
    }
}

/// Floating mode (type state)
pub struct Floating;

/// PullUp mode (type state)
pub struct PullUp;

/// Input mode (type state)
pub struct Input<MODE>(MODE);

/// Output mode (type state)
pub struct Output<MODE>(MODE);

/// A GPIOHS pin in mode `MODE`, with the I/O pin that carries it.
pub struct Gpiohs<MODE> {
    gpio: GpiohsPin,
    pin: IoPin,
    _mode: PhantomData<MODE>,
}

/// The GPIOHS words with one pin's bit of `input_en`, `output_en` and
/// `pullup_en` set as given.
pub open spec fn with_mode(regs: GpiohsRegs, i: u32, input: bool, output: bool, pullup: bool) -> GpiohsRegs {
    GpiohsRegs {
        input_en: with_bit(regs.input_en, i, input),
        output_en: with_bit(regs.output_en, i, output),
        pullup_en: with_bit(regs.pullup_en, i, pullup),
        ..regs
    }
}

impl<MODE> Gpiohs<MODE> {
    /// The GPIOHS pin's index.
    pub closed spec fn index(&self) -> int {
        self.gpio.pin()
    }

    /// The I/O pin that carries the signal.
    pub closed spec fn io(&self) -> IoPin {
        self.pin
    }

    /// The index is a GPIOHS pin, and the I/O pin is routed to it.
    pub closed spec fn wf(&self) -> bool {
        &&& 0 <= self.gpio.pin() < GPIOHS_PINS
        &&& self.pin.wf()
        &&& self.pin.func() == GPIOHS0 + self.gpio.pin()
    }

    /// The pin's index.
    pub fn number(&self) -> (r: u8)
        ensures
            r == self.index(),
    {
        self.gpio.index
    }

    /// Gives back the GPIOHS token and the I/O pin.
    pub fn free(self) -> (r: (GpiohsPin, IoPin))
        ensures
            r.0.pin() == self.index(),
            r.1 == self.io(),
    {
        (self.gpio, self.pin)
    }

    /// Sets the pin's input, output and pull-up enables and retags the handle.
    fn into_mode<NEW>(self, regs: &mut GpiohsRegs, input: bool, output: bool, pullup: bool) -> (r: Gpiohs<NEW>)
        requires
            self.wf(),
        ensures
            r.wf(),
            r.index() == self.index(),
            r.io() == self.io(),
            *final(regs) == with_mode(*old(regs), self.index() as u32, input, output, pullup),
    {
        let i = self.gpio.index as u32;
        regs.output_en = u32_set_bit(regs.output_en, output, i);
        regs.input_en = u32_set_bit(regs.input_en, input, i);
        regs.pullup_en = u32_set_bit(regs.pullup_en, pullup, i);
        Gpiohs { gpio: self.gpio, pin: self.pin, _mode: PhantomData }
    }

    /// Makes the pin a floating input.
    pub fn into_floating_input(self, regs: &mut GpiohsRegs) -> (r: Gpiohs<Input<Floating>>)
        requires
            self.wf(),
        ensures
            r.wf(),
            r.index() == self.index(),
            r.io() == self.io(),
            *final(regs) == with_mode(*old(regs), self.index() as u32, true, false, false),
    {
        self.into_mode(regs, true, false, false)
    }

    /// Makes the pin an input with pull-up.
    pub fn into_pull_up_input(self, regs: &mut GpiohsRegs) -> (r: Gpiohs<Input<PullUp>>)
        requires
            self.wf(),
        ensures
            r.wf(),
            r.index() == self.index(),
            r.io() == self.io(),
            *final(regs) == with_mode(*old(regs), self.index() as u32, true, false, true),
    {
        self.into_mode(regs, true, false, true)
    }

    /// Makes the pin a push-pull output.
    pub fn into_push_pull_output(self, regs: &mut GpiohsRegs) -> (r: Gpiohs<Output<Floating>>)
        requires
            self.wf(),
        ensures
            r.wf(),
            r.index() == self.index(),
            r.io() == self.io(),
            *final(regs) == with_mode(*old(regs), self.index() as u32, false, true, false),
    {
        self.into_mode(regs, false, true, false)
    }

    /// Clears the pin's four pending bits, then enables exactly the interrupts
    /// that `edge` holds.
    pub fn trigger_on_edge(&mut self, regs: &mut GpiohsRegs, edge: Edge)
        requires
            old(self).wf(),
        ensures
            *final(self) == *old(self),
            ({
                let i = old(self).index() as u32;
                *final(regs) == (GpiohsRegs {
                    rise_ip: with_bit(old(regs).rise_ip, i, false),
                    fall_ip: with_bit(old(regs).fall_ip, i, false),
                    high_ip: with_bit(old(regs).high_ip, i, false),
                    low_ip: with_bit(old(regs).low_ip, i, false),
                    rise_ie: with_bit(old(regs).rise_ie, i, has_flag(edge.bits, RISING)),
                    fall_ie: with_bit(old(regs).fall_ie, i, has_flag(edge.bits, FALLING)),
                    high_ie: with_bit(old(regs).high_ie, i, has_flag(edge.bits, HIGH)),
                    low_ie: with_bit(old(regs).low_ie, i, has_flag(edge.bits, LOW)),
                    ..*old(regs)
                })
            }),
    {
        let i = self.gpio.index as u32;
        regs.rise_ip = u32_set_bit(regs.rise_ip, false, i);
        regs.fall_ip = u32_set_bit(regs.fall_ip, false, i);
        regs.high_ip = u32_set_bit(regs.high_ip, false, i);
        regs.low_ip = u32_set_bit(regs.low_ip, false, i);
        regs.rise_ie = u32_set_bit(regs.rise_ie, edge.contains(RISING), i);
        regs.fall_ie = u32_set_bit(regs.fall_ie, edge.contains(FALLING), i);
        regs.high_ie = u32_set_bit(regs.high_ie, edge.contains(HIGH), i);
        regs.low_ie = u32_set_bit(regs.low_ie, edge.contains(LOW), i);
    }

    /// The pin's pending events, left pending.
    pub fn check_edges(&self, regs: &GpiohsRegs) -> (r: Edge)
        requires
            self.wf(),
        ensures
            ({
                let i = self.index() as u32;
                r.bits == edge_bits(
                    bit_of(regs.rise_ip, i),
                    bit_of(regs.fall_ip, i),
                    bit_of(regs.high_ip, i),
                    bit_of(regs.low_ip, i),
                )
            }),
    {
        let i = self.gpio.index as u32;
        let mut ans: u8 = 0;
        if u32_bit_is_set(regs.rise_ip, i) {
            ans = ans + RISING;
        }
        if u32_bit_is_set(regs.fall_ip, i) {
            ans = ans + FALLING;
        }
        if u32_bit_is_set(regs.high_ip, i) {
            ans = ans + HIGH;
        }
        if u32_bit_is_set(regs.low_ip, i) {
            ans = ans + LOW;
        }
        Edge { bits: ans }
    }

    /// Clears the pin's pending bit of each enabled interrupt, disabling it
    /// around the clear so that no event between the two is lost; the
    /// enables end as they were.
    pub fn clear_interrupt_pending_bits(&mut self, regs: &mut GpiohsRegs)
        requires
            old(self).wf(),
        ensures
            *final(self) == *old(self),
            ({
                let i = old(self).index() as u32;
                *final(regs) == (GpiohsRegs {
                    rise_ip: if bit_of(old(regs).rise_ie, i) { with_bit(old(regs).rise_ip, i, false) } else { old(regs).rise_ip },
                    fall_ip: if bit_of(old(regs).fall_ie, i) { with_bit(old(regs).fall_ip, i, false) } else { old(regs).fall_ip },
                    high_ip: if bit_of(old(regs).high_ie, i) { with_bit(old(regs).high_ip, i, false) } else { old(regs).high_ip },
                    low_ip: if bit_of(old(regs).low_ie, i) { with_bit(old(regs).low_ip, i, false) } else { old(regs).low_ip },
                    ..*old(regs)
                })
            }),
    {
        let i = self.gpio.index as u32;
        if u32_bit_is_set(regs.rise_ie, i) {
            regs.rise_ie = u32_set_bit(regs.rise_ie, false, i);
            regs.rise_ip = u32_set_bit(regs.rise_ip, false, i);
            regs.rise_ie = u32_set_bit(regs.rise_ie, true, i);
            proof {
                lemma_with_bit_twice(old(regs).rise_ie, i, false, true);
            }
        }
        if u32_bit_is_set(regs.fall_ie, i) {
            regs.fall_ie = u32_set_bit(regs.fall_ie, false, i);
            regs.fall_ip = u32_set_bit(regs.fall_ip, false, i);
            regs.fall_ie = u32_set_bit(regs.fall_ie, true, i);
            proof {
                lemma_with_bit_twice(old(regs).fall_ie, i, false, true);
            }
        }
        if u32_bit_is_set(regs.high_ie, i) {
            regs.high_ie = u32_set_bit(regs.high_ie, false, i);
            regs.high_ip = u32_set_bit(regs.high_ip, false, i);
            regs.high_ie = u32_set_bit(regs.high_ie, true, i);
            proof {
                lemma_with_bit_twice(old(regs).high_ie, i, false, true);
            }
        }
        if u32_bit_is_set(regs.low_ie, i) {
            regs.low_ie = u32_set_bit(regs.low_ie, false, i);
            regs.low_ip = u32_set_bit(regs.low_ip, false, i);
            regs.low_ie = u32_set_bit(regs.low_ie, true, i);
            proof {
                lemma_with_bit_twice(old(regs).low_ie, i, false, true);
            }
        }
    }
}

impl<MODE> Gpiohs<MODE> {
    /// The accesses that `trigger_on_edge` makes, in order: all four pending
    /// bits cleared first, then the four enables set.
    pub fn trigger_on_edge_plan(&self, edge: Edge) -> (r: Vec<GpiohsWrite>)
        ensures
            r@ == seq![
                GpiohsWrite::RiseIpClear,
                GpiohsWrite::FallIpClear,
                GpiohsWrite::HighIpClear,
                GpiohsWrite::LowIpClear,
                GpiohsWrite::RiseIe(has_flag(edge.bits, RISING)),
                GpiohsWrite::FallIe(has_flag(edge.bits, FALLING)),
                GpiohsWrite::HighIe(has_flag(edge.bits, HIGH)),
                GpiohsWrite::LowIe(has_flag(edge.bits, LOW)),
            ],
    {
        let mut r: Vec<GpiohsWrite> = Vec::new();
        r.push(GpiohsWrite::RiseIpClear);
        r.push(GpiohsWrite::FallIpClear);
        r.push(GpiohsWrite::HighIpClear);
        r.push(GpiohsWrite::LowIpClear);
        r.push(GpiohsWrite::RiseIe(edge.contains(RISING)));
        r.push(GpiohsWrite::FallIe(edge.contains(FALLING)));
        r.push(GpiohsWrite::HighIe(edge.contains(HIGH)));
        r.push(GpiohsWrite::LowIe(edge.contains(LOW)));
        assert(r@ =~= seq![
            GpiohsWrite::RiseIpClear,
            GpiohsWrite::FallIpClear,
            GpiohsWrite::HighIpClear,
            GpiohsWrite::LowIpClear,
            GpiohsWrite::RiseIe(has_flag(edge.bits, RISING)),
            GpiohsWrite::FallIe(has_flag(edge.bits, FALLING)),
            GpiohsWrite::HighIe(has_flag(edge.bits, HIGH)),
            GpiohsWrite::LowIe(has_flag(edge.bits, LOW)),
        ]);
        r
    }

    /// The accesses that `clear_interrupt_pending_bits` makes, in order: for
    /// each enabled kind, its interrupt off, its pending bit cleared, its
    /// interrupt on again.
    pub fn clear_interrupt_pending_plan(&self, regs: &GpiohsRegs) -> (r: Vec<GpiohsWrite>)
        requires
            self.wf(),
        ensures
            ({
                let i = self.index() as u32;
                r@ == guarded_clear(bit_of(regs.rise_ie, i), GpiohsWrite::RiseIe(false), GpiohsWrite::RiseIpClear, GpiohsWrite::RiseIe(true))
                    + guarded_clear(bit_of(regs.fall_ie, i), GpiohsWrite::FallIe(false), GpiohsWrite::FallIpClear, GpiohsWrite::FallIe(true))
                    + guarded_clear(bit_of(regs.high_ie, i), GpiohsWrite::HighIe(false), GpiohsWrite::HighIpClear, GpiohsWrite::HighIe(true))
                    + guarded_clear(bit_of(regs.low_ie, i), GpiohsWrite::LowIe(false), GpiohsWrite::LowIpClear, GpiohsWrite::LowIe(true))
            }),
    {
        let i = self.gpio.index as u32;
        let mut r: Vec<GpiohsWrite> = Vec::new();
        let a = u32_bit_is_set(regs.rise_ie, i);
        if a {
            r.push(GpiohsWrite::RiseIe(false));
            r.push(GpiohsWrite::RiseIpClear);
            r.push(GpiohsWrite::RiseIe(true));
        }
        let ghost s1 = guarded_clear(a, GpiohsWrite::RiseIe(false), GpiohsWrite::RiseIpClear, GpiohsWrite::RiseIe(true));
        assert(r@ =~= s1);
        let b = u32_bit_is_set(regs.fall_ie, i);
        if b {
            r.push(GpiohsWrite::FallIe(false));
            r.push(GpiohsWrite::FallIpClear);
            r.push(GpiohsWrite::FallIe(true));
        }
        let ghost s2 = s1 + guarded_clear(b, GpiohsWrite::FallIe(false), GpiohsWrite::FallIpClear, GpiohsWrite::FallIe(true));
        assert(r@ =~= s2);
        let c = u32_bit_is_set(regs.high_ie, i);
        if c {
            r.push(GpiohsWrite::HighIe(false));
            r.push(GpiohsWrite::HighIpClear);
            r.push(GpiohsWrite::HighIe(true));
        }
        let ghost s3 = s2 + guarded_clear(c, GpiohsWrite::HighIe(false), GpiohsWrite::HighIpClear, GpiohsWrite::HighIe(true));
        assert(r@ =~= s3);
        let d = u32_bit_is_set(regs.low_ie, i);
        if d {
            r.push(GpiohsWrite::LowIe(false));
            r.push(GpiohsWrite::LowIpClear);
            r.push(GpiohsWrite::LowIe(true));
        }
        let ghost s4 = s3 + guarded_clear(d, GpiohsWrite::LowIe(false), GpiohsWrite::LowIpClear, GpiohsWrite::LowIe(true));
        assert(r@ =~= s4);
        r
    }
}

impl Gpiohs<Input<Floating>> {
    /// Pairs a GPIOHS token with the I/O pin routed to it, as a floating
    /// input.
    pub fn new(gpio: GpiohsPin, pin: IoPin) -> (r: Gpiohs<Input<Floating>>)
        requires
            0 <= gpio.pin() < GPIOHS_PINS,
            pin.wf(),
            pin.func() == GPIOHS0 + gpio.pin(),
        ensures
            r.wf(),
            r.index() == gpio.pin(),
            r.io() == pin,
    {
        Gpiohs { gpio, pin, _mode: PhantomData }
    }
}

impl<MODE> Gpiohs<Input<MODE>> {
    /// Whether the pin reads high.
    pub fn is_high(&self, regs: &GpiohsRegs) -> (r: bool)
        requires
            self.wf(),
        ensures
            r == bit_of(regs.input_val, self.index() as u32),
    {
        u32_bit_is_set(regs.input_val, self.gpio.index as u32)
    }

    /// Whether the pin reads low.
    pub fn is_low(&self, regs: &GpiohsRegs) -> (r: bool)
        requires
            self.wf(),
        ensures
            r == !bit_of(regs.input_val, self.index() as u32),
    {
        u32_bit_is_clear(regs.input_val, self.gpio.index as u32)
    }
}

impl<MODE> Gpiohs<Output<MODE>> {
    /// Drives the pin high.
    pub fn set_high(&mut self, regs: &mut GpiohsRegs)
        requires
            old(self).wf(),
        ensures
            *final(self) == *old(self),
            *final(regs) == (GpiohsRegs {
                output_val: with_bit(old(regs).output_val, old(self).index() as u32, true),
                ..*old(regs)
            }),
    {
        regs.output_val = u32_set_bit(regs.output_val, true, self.gpio.index as u32);
    }

    /// Drives the pin low.
    pub fn set_low(&mut self, regs: &mut GpiohsRegs)
        requires
            old(self).wf(),
        ensures
            *final(self) == *old(self),
            *final(regs) == (GpiohsRegs {
                output_val: with_bit(old(regs).output_val, old(self).index() as u32, false),
                ..*old(regs)
            }),
    {
        regs.output_val = u32_set_bit(regs.output_val, false, self.gpio.index as u32);
    }

    /// Whether the pin is driven high.
    pub fn is_set_high(&self, regs: &GpiohsRegs) -> (r: bool)
        requires
            self.wf(),
        ensures
            r == bit_of(regs.output_val, self.index() as u32),
    {
        u32_bit_is_set(regs.output_val, self.gpio.index as u32)
    }
}

/// A well-formed handle names one of the pins and carries the I/O pin that
/// is routed to it.
pub proof fn lemma_gpiohs_wf<MODE>(g: &Gpiohs<MODE>)
    requires
        g.wf(),
    ensures
        0 <= g.index() < GPIOHS_PINS,
        g.io().wf(),
        g.io().func() == GPIOHS0 + g.index(),
        0 <= g.io().pin() < crate::fpioa::IO_PINS,
{
    crate::fpioa::lemma_io_pin_wf(&g.io());
}

} // verus!
