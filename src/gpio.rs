//! General Purpose Input/Output (GPIO): eight pins packed into shared
//! register words.
//!
//! A pin handle's mode is part of its type: only an input reads the input
//! word, only an output writes the output word, and every change of mode
//! consumes the old handle. A handle also owns the pin multiplexer's handle of
//! the I/O pin that carries the signal.
use vstd::prelude::*;
use core::marker::PhantomData;
use crate::bits::{bit_of, lemma_with_bit, u32_bit_is_clear, u32_bit_is_set, u32_set_bit, u32_toggle_bit, with_bit, flip_bit};
use crate::fpioa::{Fpioa, IoPin, Pull, with_pull};
use crate::functions::GPIO0;

verus! {

/// Number of GPIO pins.
pub const GPIO_PINS: usize = 8;

/// The GPIO register words; bit `i` of each belongs to pin `i`.
pub struct GpioRegs {
    pub data_output: u32,
    /// A set bit makes the pin an output.
    pub direction: u32,
    pub data_input: u32,
}

/// Exclusive token for one GPIO pin, handed out by `Parts`.
pub struct GpioPin {
    index: u8,
}

impl GpioPin {
    /// The pin this token stands for.
    pub closed spec fn pin(&self) -> int {
        self.index as int
    }

    /// The pin this token stands for.
    pub fn index(&self) -> (r: u8)
        ensures
            r == self.pin(),
    {
        self.index
    }
}

/// Splits the GPIO block into its pins.
pub trait GpioExt: Sized {
    /// The register words this value holds.
    spec fn regs_view(&self) -> GpioRegs;

    /// Makes one token per pin.
    fn split(self) -> (r: Parts)
        ensures
            r.wf(),
            r.regs == self.regs_view(),
            r.available() == Seq::new(GPIO_PINS as nat, |i: int| true),
    ;
}

impl GpioExt for GpioRegs {
    open spec fn regs_view(&self) -> GpioRegs {
        *self
    }

    fn split(self) -> (r: Parts) {
        let mut pins: Vec<Option<GpioPin>> = Vec::new();
        let mut i: u8 = 0;
        while (i as usize) < GPIO_PINS
            invariant
                i as usize <= GPIO_PINS,
                pins@.len() == i,
                forall|j: int|
                    0 <= j < i ==> #[trigger] pins@[j].is_some() && pins@[j].unwrap().pin() == j,
            decreases GPIO_PINS - i as usize,
        {
            pins.push(Some(GpioPin { index: i }));
            i = i + 1;
        }
        let r = Parts { regs: self, pins: GpioSlots { slots: pins } };
        assert(r.available() =~= Seq::new(GPIO_PINS as nat, |i: int| true));
        r
    }
}

/// The pin slots: each holds its pin's handle until it is handed out.
pub struct GpioSlots {
    slots: Vec<Option<GpioPin>>,
}

impl GpioSlots {
    /// Which pins are held here, not handed out.
    pub closed spec fn available(&self) -> Seq<bool> {
        self.slots@.map_values(|p: Option<GpioPin>| p.is_some())
    }

    /// One slot per pin; a held token sits in its own pin's slot.
    pub closed spec fn wf(&self) -> bool {
        &&& self.slots@.len() == GPIO_PINS
        &&& forall|j: int|
            0 <= j < GPIO_PINS && #[trigger] self.slots@[j].is_some() ==> self.slots@[j].unwrap().pin()
                == j
    }

    /// Hands out the token of pin `index`, or `None` where it is already out.
    pub fn take(&mut self, index: usize) -> (r: Option<GpioPin>)
        requires
            old(self).wf(),
            index < GPIO_PINS,
        ensures
            final(self).wf(),
            r.is_some() == old(self).available()[index as int],
            r.is_some() ==> r.unwrap().pin() == index,
            final(self).available() == old(self).available().update(index as int, false),
    {
        let mut slot: Option<GpioPin> = None;
        std::mem::swap(&mut slot, &mut self.slots[index]);
        proof {
            assert(self.available() =~= old(self).available().update(index as int, false));
        }
        slot
    }
}

/// The GPIO register words and the pin tokens not handed out.
pub struct Parts {
    /// The registers the pin handles read and write.
    pub regs: GpioRegs,
    /// The pin handles not handed out.
    pub pins: GpioSlots,
}

impl Parts {
    /// Which pins are held here, not handed out.
    pub open spec fn available(&self) -> Seq<bool> {
        self.pins.available()
    }

    /// One slot per pin; a held handle sits in its own pin's slot.
    pub open spec fn wf(&self) -> bool {
        self.pins.wf()
    }

    /// Hands out the handle of pin `index`, or `None` where it is already out.
    pub fn take(&mut self, index: usize) -> (r: Option<GpioPin>)
        requires
            old(self).wf(),
            index < GPIO_PINS,
        ensures
            final(self).wf(),
            final(self).regs == old(self).regs,
            r.is_some() == old(self).available()[index as int],
            r.is_some() ==> r.unwrap().pin() == index,
            final(self).available() == old(self).available().update(index as int, false),
    {
        self.pins.take(index)
    }
}

/// Input mode (type state)
pub struct Input<MODE>(MODE);

/// Floating input (type state)
pub struct Floating;

/// Pull down input (type state)
pub struct PullDown;

/// Pull up input (type state)
pub struct PullUp;

/// Output mode (type state)
pub struct Output;

/// Marker trait for the modes a pin can leave.
pub trait Active {}

impl Active for Input<Floating> {}

impl Active for Input<PullUp> {}

impl Active for Input<PullDown> {}

impl Active for Output {}

/// A GPIO pin in mode `MODE`, with the I/O pin that carries it.
pub struct Gpio<MODE> {
    gpio: GpioPin,
    pin: IoPin,
    _mode: PhantomData<MODE>,
}

impl<MODE> Gpio<MODE> {
    /// The GPIO pin's index.
    pub closed spec fn index(&self) -> int {
        self.gpio.pin()
    }

    /// The I/O pin that carries the signal.
    pub closed spec fn io(&self) -> IoPin {
        self.pin
    }

    /// The index is a GPIO pin, and the I/O pin is routed to it.
    pub closed spec fn wf(&self) -> bool {
        &&& 0 <= self.gpio.pin() < GPIO_PINS
        &&& self.pin.wf()
        &&& self.pin.func() == GPIO0 + self.gpio.pin()
    }

    /// The pin's index.
    pub fn number(&self) -> (r: u8)
        ensures
            r == self.index(),
    {
        self.gpio.index
    }

    /// Gives back the GPIO token and the I/O pin.
    pub fn free(self) -> (r: (GpioPin, IoPin))
        ensures
            r.0.pin() == self.index(),
            r.1 == self.io(),
    {
        (self.gpio, self.pin)
    }
}

impl<MODE: Active> Gpio<MODE> {
    /// Makes the pin a floating input.
    pub fn into_floating_input(self, fpioa: &mut Fpioa, regs: &mut GpioRegs) -> (r: Gpio<Input<Floating>>)
        requires
            self.wf(),
            old(fpioa).wf(),
        ensures
            r.wf(),
            r.index() == self.index(),
            r.io() == self.io(),
            final(fpioa).io@ == old(fpioa).io@.update(
                self.io().pin(),
                with_pull(old(fpioa).io@[self.io().pin()], Pull::Floating),
            ),
            *final(regs) == (GpioRegs {
                direction: with_bit(old(regs).direction, self.index() as u32, false),
                ..*old(regs)
            }),
    {
        self.into_mode(fpioa, regs, Pull::Floating, false)
    }

    /// Makes the pin an input with pull-up.
    pub fn into_pull_up_input(self, fpioa: &mut Fpioa, regs: &mut GpioRegs) -> (r: Gpio<Input<PullUp>>)
        requires
            self.wf(),
            old(fpioa).wf(),
        ensures
            r.wf(),
            r.index() == self.index(),
            r.io() == self.io(),
            final(fpioa).io@ == old(fpioa).io@.update(
                self.io().pin(),
                with_pull(old(fpioa).io@[self.io().pin()], Pull::Up),
            ),
            *final(regs) == (GpioRegs {
                direction: with_bit(old(regs).direction, self.index() as u32, false),
                ..*old(regs)
            }),
    {
        self.into_mode(fpioa, regs, Pull::Up, false)
    }

    /// Makes the pin an input with pull-down.
    pub fn into_pull_down_input(self, fpioa: &mut Fpioa, regs: &mut GpioRegs) -> (r: Gpio<Input<PullDown>>)
        requires
            self.wf(),
            old(fpioa).wf(),
        ensures
            r.wf(),
            r.index() == self.index(),
            r.io() == self.io(),
            final(fpioa).io@ == old(fpioa).io@.update(
                self.io().pin(),
                with_pull(old(fpioa).io@[self.io().pin()], Pull::Down),
            ),
            *final(regs) == (GpioRegs {
                direction: with_bit(old(regs).direction, self.index() as u32, false),
                ..*old(regs)
            }),
    {
        self.into_mode(fpioa, regs, Pull::Down, false)
    }

    /// Makes the pin a push-pull output.
    pub fn into_push_pull_output(self, fpioa: &mut Fpioa, regs: &mut GpioRegs) -> (r: Gpio<Output>)
        requires
            self.wf(),
            old(fpioa).wf(),
        ensures
            r.wf(),
            r.index() == self.index(),
            r.io() == self.io(),
            final(fpioa).io@ == old(fpioa).io@.update(
                self.io().pin(),
                with_pull(old(fpioa).io@[self.io().pin()], Pull::Down),
            ),
            *final(regs) == (GpioRegs {
                direction: with_bit(old(regs).direction, self.index() as u32, true),
                ..*old(regs)
            }),
    {
        self.into_mode(fpioa, regs, Pull::Down, true)
    }

    /// Sets the pull and the direction bit and retags the handle.
    fn into_mode<NEW>(self, fpioa: &mut Fpioa, regs: &mut GpioRegs, pull: Pull, output: bool) -> (r: Gpio<NEW>)
        requires
            self.wf(),
            old(fpioa).wf(),
        ensures
            r.wf(),
            r.index() == self.index(),
            r.io() == self.io(),
            final(fpioa).io@ == old(fpioa).io@.update(
                self.io().pin(),
                with_pull(old(fpioa).io@[self.io().pin()], pull),
            ),
            *final(regs) == (GpioRegs {
                direction: with_bit(old(regs).direction, self.index() as u32, output),
                ..*old(regs)
            }),
    {
        let mut pin = self.pin;
        pin.set_io_pull(fpioa, pull);
        regs.direction = u32_set_bit(regs.direction, output, self.gpio.index as u32);
        Gpio { gpio: self.gpio, pin, _mode: PhantomData }
    }
}

impl Gpio<Input<Floating>> {
    /// Pairs a GPIO token with the I/O pin routed to it, as a floating input.
    pub fn new(gpio: GpioPin, pin: IoPin) -> (r: Gpio<Input<Floating>>)
        requires
            0 <= gpio.pin() < GPIO_PINS,
            pin.wf(),
            pin.func() == GPIO0 + gpio.pin(),
        ensures
            r.wf(),
            r.index() == gpio.pin(),
            r.io() == pin,
    {
        Gpio { gpio, pin, _mode: PhantomData }
    }
}

impl Gpio<Output> {
    /// Drives the pin high.
    pub fn set_high(&mut self, regs: &mut GpioRegs)
        requires
            old(self).wf(),
        ensures
            *final(self) == *old(self),
            *final(regs) == (GpioRegs {
                data_output: with_bit(old(regs).data_output, old(self).index() as u32, true),
                ..*old(regs)
            }),
    {
        regs.data_output = u32_set_bit(regs.data_output, true, self.gpio.index as u32);
    }

    /// Drives the pin low.
    pub fn set_low(&mut self, regs: &mut GpioRegs)
        requires
            old(self).wf(),
        ensures
            *final(self) == *old(self),
            *final(regs) == (GpioRegs {
                data_output: with_bit(old(regs).data_output, old(self).index() as u32, false),
                ..*old(regs)
            }),
    {
        regs.data_output = u32_set_bit(regs.data_output, false, self.gpio.index as u32);
    }

    /// Inverts the level the pin drives.
    pub fn toggle(&mut self, regs: &mut GpioRegs)
        requires
            old(self).wf(),
        ensures
            *final(self) == *old(self),
            *final(regs) == (GpioRegs {
                data_output: flip_bit(old(regs).data_output, old(self).index() as u32),
                ..*old(regs)
            }),
    {
        regs.data_output = u32_toggle_bit(regs.data_output, self.gpio.index as u32);
    }

    /// Whether the pin is driven high.
    pub fn is_set_high(&self, regs: &GpioRegs) -> (r: bool)
        requires
            self.wf(),
        ensures
            r == bit_of(regs.data_output, self.index() as u32),
    {
        u32_bit_is_set(regs.data_output, self.gpio.index as u32)
    }

    /// Whether the pin is driven low.
    pub fn is_set_low(&self, regs: &GpioRegs) -> (r: bool)
        requires
            self.wf(),
        ensures
            r == !bit_of(regs.data_output, self.index() as u32),
    {
        u32_bit_is_clear(regs.data_output, self.gpio.index as u32)
    }
}

impl<MODE> Gpio<Input<MODE>> {
    /// Whether the pin reads high.
    pub fn is_high(&self, regs: &GpioRegs) -> (r: bool)
        requires
            self.wf(),
        ensures
            r == bit_of(regs.data_input, self.index() as u32),
    {
        u32_bit_is_set(regs.data_input, self.gpio.index as u32)
    }

    /// Whether the pin reads low.
    pub fn is_low(&self, regs: &GpioRegs) -> (r: bool)
        requires
            self.wf(),
        ensures
            r == !bit_of(regs.data_input, self.index() as u32),
    {
        u32_bit_is_clear(regs.data_input, self.gpio.index as u32)
    }
}

/// An output pin driven high reads back as set, and driving it leaves every
/// other pin's output bit as it was.
pub proof fn lemma_output_round_trip(data_output: u32, index: u32, level: bool)
    requires
        index < GPIO_PINS,
    ensures
        bit_of(with_bit(data_output, index, level), index) == level,
        forall|j: u32|
            j < 32 && j != index ==> #[trigger] bit_of(with_bit(data_output, index, level), j)
                == bit_of(data_output, j),
{
    lemma_with_bit(data_output, index, level);
}

/// A well-formed handle names one of the pins and carries the I/O pin that
/// is routed to it.
pub proof fn lemma_gpio_wf<MODE>(g: &Gpio<MODE>)
    requires
        g.wf(),
    ensures
        0 <= g.index() < GPIO_PINS,
        g.io().wf(),
        g.io().func() == GPIO0 + g.index(),
        0 <= g.io().pin() < crate::fpioa::IO_PINS,
{
    crate::fpioa::lemma_io_pin_wf(&g.io());
}

} // verus!
