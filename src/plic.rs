//! Platform-Level Interrupt Controller (PLIC).
//!
//! `Plic` holds the controller's registers as plain words: a priority per
//! interrupt source, the pending bits, per-target enable bits, and each
//! target's threshold and claim/complete register. A target is a hart context.
use vstd::prelude::*;
use crate::bits::{bit_of, lemma_with_bit, u32_bit_is_set, u32_set_bit, with_bit};

verus! {

/// Number of targets (hart contexts).
pub const PLIC_TARGETS: usize = 4;

/// Enable or pending words per target that cover every interrupt source.
pub const IRQ_WORDS: usize = 3;

/// Interrupt sources, counting the reserved source 0.
pub const IRQ_SOURCES: usize = 66;

/// Interrupt sources.
#[allow(non_camel_case_types)]
#[derive(Clone, Copy, Debug, PartialEq, Eq, Structural)]
pub enum Interrupt {
    /// SPI0 interrupt
    SPI0,
    /// SPI1 interrupt
    SPI1,
    /// SPI_SLAVE interrupt
    SPI_SLAVE,
    /// SPI3 interrupt
    SPI3,
    /// I2S0 interrupt
    I2S0,
    /// I2S1 interrupt
    I2S1,
    /// I2S2 interrupt
    I2S2,
    /// I2C0 interrupt
    I2C0,
    /// I2C1 interrupt
    I2C1,
    /// I2C2 interrupt
    I2C2,
    /// UART1 interrupt
    UART1,
    /// UART2 interrupt
    UART2,
    /// UART3 interrupt
    UART3,
    /// TIMER0 channel 0 or 1 interrupt
    TIMER0A,
    /// TIMER0 channel 2 or 3 interrupt
    TIMER0B,
    /// TIMER1 channel 0 or 1 interrupt
    TIMER1A,
    /// TIMER1 channel 2 or 3 interrupt
    TIMER1B,
    /// TIMER2 channel 0 or 1 interrupt
    TIMER2A,
    /// TIMER2 channel 2 or 3 interrupt
    TIMER2B,
    /// RTC tick and alarm interrupt
    RTC,
    /// Watching dog timer0 interrupt
    WDT0,
    /// Watching dog timer1 interrupt
    WDT1,
    /// APB GPIO interrupt
    APB_GPIO,
    /// Digital video port interrupt
    DVP,
    /// AI accelerator interrupt
    AI,
    /// FFT accelerator interrupt
    FFT,
    /// DMA channel0 interrupt
    DMA0,
    /// DMA channel1 interrupt
    DMA1,
    /// DMA channel2 interrupt
    DMA2,
    /// DMA channel3 interrupt
    DMA3,
    /// DMA channel4 interrupt
    DMA4,
    /// DMA channel5 interrupt
    DMA5,
    /// Hi-speed UART0 interrupt
    UARTHS,
    /// Hi-speed GPIO0 interrupt
    GPIOHS0,
    /// Hi-speed GPIO1 interrupt
    GPIOHS1,
    /// Hi-speed GPIO2 interrupt
    GPIOHS2,
    /// Hi-speed GPIO3 interrupt
    GPIOHS3,
    /// Hi-speed GPIO4 interrupt
    GPIOHS4,
    /// Hi-speed GPIO5 interrupt
    GPIOHS5,
    /// Hi-speed GPIO6 interrupt
    GPIOHS6,
    /// Hi-speed GPIO7 interrupt
    GPIOHS7,
    /// Hi-speed GPIO8 interrupt
    GPIOHS8,
    /// Hi-speed GPIO9 interrupt
    GPIOHS9,
    /// Hi-speed GPIO10 interrupt
    GPIOHS10,
    /// Hi-speed GPIO11 interrupt
    GPIOHS11,
    /// Hi-speed GPIO12 interrupt
    GPIOHS12,
    /// Hi-speed GPIO13 interrupt
    GPIOHS13,
    /// Hi-speed GPIO14 interrupt
    GPIOHS14,
    /// Hi-speed GPIO15 interrupt
    GPIOHS15,
    /// Hi-speed GPIO16 interrupt
    GPIOHS16,
    /// Hi-speed GPIO17 interrupt
    GPIOHS17,
    /// Hi-speed GPIO18 interrupt
    GPIOHS18,
    /// Hi-speed GPIO19 interrupt
    GPIOHS19,
    /// Hi-speed GPIO20 interrupt
    GPIOHS20,
    /// Hi-speed GPIO21 interrupt
    GPIOHS21,
    /// Hi-speed GPIO22 interrupt
    GPIOHS22,
    /// Hi-speed GPIO23 interrupt
    GPIOHS23,
    /// Hi-speed GPIO24 interrupt
    GPIOHS24,
    /// Hi-speed GPIO25 interrupt
    GPIOHS25,
    /// Hi-speed GPIO26 interrupt
    GPIOHS26,
    /// Hi-speed GPIO27 interrupt
    GPIOHS27,
    /// Hi-speed GPIO28 interrupt
    GPIOHS28,
    /// Hi-speed GPIO29 interrupt
    GPIOHS29,
    /// Hi-speed GPIO30 interrupt
    GPIOHS30,
    /// Hi-speed GPIO31 interrupt
    GPIOHS31,
}

/// The number of an interrupt source.
pub open spec fn irq_nr(i: Interrupt) -> int {
    match i {
        Interrupt::SPI0 => 1,
        Interrupt::SPI1 => 2,
        Interrupt::SPI_SLAVE => 3,
        Interrupt::SPI3 => 4,
        Interrupt::I2S0 => 5,
        Interrupt::I2S1 => 6,
        Interrupt::I2S2 => 7,
        Interrupt::I2C0 => 8,
        Interrupt::I2C1 => 9,
        Interrupt::I2C2 => 10,
        Interrupt::UART1 => 11,
        Interrupt::UART2 => 12,
        Interrupt::UART3 => 13,
        Interrupt::TIMER0A => 14,
        Interrupt::TIMER0B => 15,
        Interrupt::TIMER1A => 16,
        Interrupt::TIMER1B => 17,
        Interrupt::TIMER2A => 18,
        Interrupt::TIMER2B => 19,
        Interrupt::RTC => 20,
        Interrupt::WDT0 => 21,
        Interrupt::WDT1 => 22,
        Interrupt::APB_GPIO => 23,
        Interrupt::DVP => 24,
        Interrupt::AI => 25,
        Interrupt::FFT => 26,
        Interrupt::DMA0 => 27,
        Interrupt::DMA1 => 28,
        Interrupt::DMA2 => 29,
        Interrupt::DMA3 => 30,
        Interrupt::DMA4 => 31,
        Interrupt::DMA5 => 32,
        Interrupt::UARTHS => 33,
        Interrupt::GPIOHS0 => 34,
        Interrupt::GPIOHS1 => 35,
        Interrupt::GPIOHS2 => 36,
        Interrupt::GPIOHS3 => 37,
        Interrupt::GPIOHS4 => 38,
        Interrupt::GPIOHS5 => 39,
        Interrupt::GPIOHS6 => 40,
        Interrupt::GPIOHS7 => 41,
        Interrupt::GPIOHS8 => 42,
        Interrupt::GPIOHS9 => 43,
        Interrupt::GPIOHS10 => 44,
        Interrupt::GPIOHS11 => 45,
        Interrupt::GPIOHS12 => 46,
        Interrupt::GPIOHS13 => 47,
        Interrupt::GPIOHS14 => 48,
        Interrupt::GPIOHS15 => 49,
        Interrupt::GPIOHS16 => 50,
        Interrupt::GPIOHS17 => 51,
        Interrupt::GPIOHS18 => 52,
        Interrupt::GPIOHS19 => 53,
        Interrupt::GPIOHS20 => 54,
        Interrupt::GPIOHS21 => 55,
        Interrupt::GPIOHS22 => 56,
        Interrupt::GPIOHS23 => 57,
        Interrupt::GPIOHS24 => 58,
        Interrupt::GPIOHS25 => 59,
        Interrupt::GPIOHS26 => 60,
        Interrupt::GPIOHS27 => 61,
        Interrupt::GPIOHS28 => 62,
        Interrupt::GPIOHS29 => 63,
        Interrupt::GPIOHS30 => 64,
        Interrupt::GPIOHS31 => 65,
    }
}

/// Every interrupt has a number in `1..=65`.
pub proof fn lemma_irq_nr_range(i: Interrupt)
    ensures
        1 <= irq_nr(i) <= 65,
{
}

/// Two interrupts with one number are one interrupt.
pub proof fn lemma_irq_nr_injective(i: Interrupt, j: Interrupt)
    requires
        irq_nr(i) == irq_nr(j),
    ensures
        i == j,
{
}

impl Interrupt {
    /// The interrupt's number.
    pub fn into_bits(&self) -> (r: u32)
        ensures
            r == irq_nr(*self),
    {
        match self {
            Interrupt::SPI0 => 1,
            Interrupt::SPI1 => 2,
            Interrupt::SPI_SLAVE => 3,
            Interrupt::SPI3 => 4,
            Interrupt::I2S0 => 5,
            Interrupt::I2S1 => 6,
            Interrupt::I2S2 => 7,
            Interrupt::I2C0 => 8,
            Interrupt::I2C1 => 9,
            Interrupt::I2C2 => 10,
            Interrupt::UART1 => 11,
            Interrupt::UART2 => 12,
            Interrupt::UART3 => 13,
            Interrupt::TIMER0A => 14,
            Interrupt::TIMER0B => 15,
            Interrupt::TIMER1A => 16,
            Interrupt::TIMER1B => 17,
            Interrupt::TIMER2A => 18,
            Interrupt::TIMER2B => 19,
            Interrupt::RTC => 20,
            Interrupt::WDT0 => 21,
            Interrupt::WDT1 => 22,
            Interrupt::APB_GPIO => 23,
            Interrupt::DVP => 24,
            Interrupt::AI => 25,
            Interrupt::FFT => 26,
            Interrupt::DMA0 => 27,
            Interrupt::DMA1 => 28,
            Interrupt::DMA2 => 29,
            Interrupt::DMA3 => 30,
            Interrupt::DMA4 => 31,
            Interrupt::DMA5 => 32,
            Interrupt::UARTHS => 33,
            Interrupt::GPIOHS0 => 34,
            Interrupt::GPIOHS1 => 35,
            Interrupt::GPIOHS2 => 36,
            Interrupt::GPIOHS3 => 37,
            Interrupt::GPIOHS4 => 38,
            Interrupt::GPIOHS5 => 39,
            Interrupt::GPIOHS6 => 40,
            Interrupt::GPIOHS7 => 41,
            Interrupt::GPIOHS8 => 42,
            Interrupt::GPIOHS9 => 43,
            Interrupt::GPIOHS10 => 44,
            Interrupt::GPIOHS11 => 45,
            Interrupt::GPIOHS12 => 46,
            Interrupt::GPIOHS13 => 47,
            Interrupt::GPIOHS14 => 48,
            Interrupt::GPIOHS15 => 49,
            Interrupt::GPIOHS16 => 50,
            Interrupt::GPIOHS17 => 51,
            Interrupt::GPIOHS18 => 52,
            Interrupt::GPIOHS19 => 53,
            Interrupt::GPIOHS20 => 54,
            Interrupt::GPIOHS21 => 55,
            Interrupt::GPIOHS22 => 56,
            Interrupt::GPIOHS23 => 57,
            Interrupt::GPIOHS24 => 58,
            Interrupt::GPIOHS25 => 59,
            Interrupt::GPIOHS26 => 60,
            Interrupt::GPIOHS27 => 61,
            Interrupt::GPIOHS28 => 62,
            Interrupt::GPIOHS29 => 63,
            Interrupt::GPIOHS30 => 64,
            Interrupt::GPIOHS31 => 65,
        }
    }

    /// The interrupt with number `bits`, or `None` where no interrupt has it.
    pub fn from_bits(bits: u32) -> (r: Option<Interrupt>)
        ensures
            r.is_some() == (1 <= bits <= 65),
            r.is_some() ==> irq_nr(r.unwrap()) == bits,
    {
        match bits {
            1 => Some(Interrupt::SPI0),
            2 => Some(Interrupt::SPI1),
            3 => Some(Interrupt::SPI_SLAVE),
            4 => Some(Interrupt::SPI3),
            5 => Some(Interrupt::I2S0),
            6 => Some(Interrupt::I2S1),
            7 => Some(Interrupt::I2S2),
            8 => Some(Interrupt::I2C0),
            9 => Some(Interrupt::I2C1),
            10 => Some(Interrupt::I2C2),
            11 => Some(Interrupt::UART1),
            12 => Some(Interrupt::UART2),
            13 => Some(Interrupt::UART3),
            14 => Some(Interrupt::TIMER0A),
            15 => Some(Interrupt::TIMER0B),
            16 => Some(Interrupt::TIMER1A),
            17 => Some(Interrupt::TIMER1B),
            18 => Some(Interrupt::TIMER2A),
            19 => Some(Interrupt::TIMER2B),
            20 => Some(Interrupt::RTC),
            21 => Some(Interrupt::WDT0),
            22 => Some(Interrupt::WDT1),
            23 => Some(Interrupt::APB_GPIO),
            24 => Some(Interrupt::DVP),
            25 => Some(Interrupt::AI),
            26 => Some(Interrupt::FFT),
            27 => Some(Interrupt::DMA0),
            28 => Some(Interrupt::DMA1),
            29 => Some(Interrupt::DMA2),
            30 => Some(Interrupt::DMA3),
            31 => Some(Interrupt::DMA4),
            32 => Some(Interrupt::DMA5),
            33 => Some(Interrupt::UARTHS),
            34 => Some(Interrupt::GPIOHS0),
            35 => Some(Interrupt::GPIOHS1),
            36 => Some(Interrupt::GPIOHS2),
            37 => Some(Interrupt::GPIOHS3),
            38 => Some(Interrupt::GPIOHS4),
            39 => Some(Interrupt::GPIOHS5),
            40 => Some(Interrupt::GPIOHS6),
            41 => Some(Interrupt::GPIOHS7),
            42 => Some(Interrupt::GPIOHS8),
            43 => Some(Interrupt::GPIOHS9),
            44 => Some(Interrupt::GPIOHS10),
            45 => Some(Interrupt::GPIOHS11),
            46 => Some(Interrupt::GPIOHS12),
            47 => Some(Interrupt::GPIOHS13),
            48 => Some(Interrupt::GPIOHS14),
            49 => Some(Interrupt::GPIOHS15),
            50 => Some(Interrupt::GPIOHS16),
            51 => Some(Interrupt::GPIOHS17),
            52 => Some(Interrupt::GPIOHS18),
            53 => Some(Interrupt::GPIOHS19),
            54 => Some(Interrupt::GPIOHS20),
            55 => Some(Interrupt::GPIOHS21),
            56 => Some(Interrupt::GPIOHS22),
            57 => Some(Interrupt::GPIOHS23),
            58 => Some(Interrupt::GPIOHS24),
            59 => Some(Interrupt::GPIOHS25),
            60 => Some(Interrupt::GPIOHS26),
            61 => Some(Interrupt::GPIOHS27),
            62 => Some(Interrupt::GPIOHS28),
            63 => Some(Interrupt::GPIOHS29),
            64 => Some(Interrupt::GPIOHS30),
            65 => Some(Interrupt::GPIOHS31),
            _ => None,
        }
    }
}

/// A source with a register number.
pub trait Nr: Sized {
    fn into_bits(&self) -> u32;

    fn from_bits(bits: u32) -> Option<Self>;
}

impl Nr for Interrupt {
    fn into_bits(&self) -> u32 {
        Interrupt::into_bits(self)
    }

    fn from_bits(bits: u32) -> Option<Self> {
        Interrupt::from_bits(bits)
    }
}

/// Interrupt priority; `P0` never interrupts.
#[derive(Clone, Copy, Debug, PartialEq, Eq, Structural)]
pub enum Priority {
    P0,
    P1,
    P2,
    P3,
    P4,
    P5,
    P6,
    P7,
}

/// The register value of a priority.
pub open spec fn prio_nr(p: Priority) -> int {
    match p {
        Priority::P0 => 0,
        Priority::P1 => 1,
        Priority::P2 => 2,
        Priority::P3 => 3,
        Priority::P4 => 4,
        Priority::P5 => 5,
        Priority::P6 => 6,
        Priority::P7 => 7,
    }
}

impl Priority {
    /// The register value of this priority.
    pub fn into_bits(self) -> (r: u32)
        ensures
            r == prio_nr(self),
    {
        match self {
            Priority::P0 => 0,
            Priority::P1 => 1,
            Priority::P2 => 2,
            Priority::P3 => 3,
            Priority::P4 => 4,
            Priority::P5 => 5,
            Priority::P6 => 6,
            Priority::P7 => 7,
        }
    }

    /// The priority a register value stands for, or `None` above 7.
    pub fn from_bits(prio: u32) -> (r: Option<Priority>)
        ensures
            r.is_some() == (prio <= 7),
            r.is_some() ==> prio_nr(r.unwrap()) == prio,
    {
        match prio {
            0 => Some(Priority::P0),
            1 => Some(Priority::P1),
            2 => Some(Priority::P2),
            3 => Some(Priority::P3),
            4 => Some(Priority::P4),
            5 => Some(Priority::P5),
            6 => Some(Priority::P6),
            7 => Some(Priority::P7),
            _ => None,
        }
    }
}

/// A register value that names no interrupt or no priority.
#[derive(Clone, Copy, Debug, PartialEq, Eq, Structural)]
pub enum PlicError {
    /// The claim register held this value, which is neither 0 nor an interrupt.
    UnknownInterrupt(u32),
    /// A priority or threshold register held this value, above 7.
    InvalidPriority(u32),
}

/// Index of the enable word of `hart` that holds source `n`.
pub open spec fn enable_index(hart: int, n: int) -> int {
    hart * 3 + n / 32
}

/// Whether source `n` is enabled for `hart`.
pub open spec fn irq_enabled(enables: Seq<u32>, hart: int, n: int) -> bool {
    bit_of(enables[enable_index(hart, n)], (n % 32) as u32)
}

/// The enable words with source `n` of `hart` turned on or off.
pub open spec fn with_enable(enables: Seq<u32>, hart: int, n: int, on: bool) -> Seq<u32> {
    let i = enable_index(hart, n);
    enables.update(i, with_bit(enables[i], (n % 32) as u32, on))
}

/// Whether source `n` is pending.
pub open spec fn irq_pending(pending: Seq<u32>, n: int) -> bool {
    bit_of(pending[n / 32], (n % 32) as u32)
}

/// The pending words with source `n` no longer pending.
pub open spec fn with_pending_cleared(pending: Seq<u32>, n: int) -> Seq<u32> {
    pending.update(n / 32, with_bit(pending[n / 32], (n % 32) as u32, false))
}

/// Turning one source on or off for one hart sets its enable bit and leaves
/// every other (hart, source) pair as it was; so enabling makes it enabled,
/// and disabling afterwards makes it disabled again.
pub proof fn lemma_enable_disable(enables: Seq<u32>, hart: int, n: int, on: bool)
    requires
        enables.len() == PLIC_TARGETS * IRQ_WORDS,
        0 <= hart < PLIC_TARGETS,
        1 <= n < IRQ_SOURCES,
    ensures
        with_enable(enables, hart, n, on).len() == enables.len(),
        irq_enabled(with_enable(enables, hart, n, on), hart, n) == on,
        irq_enabled(with_enable(enables, hart, n, true), hart, n),
        !irq_enabled(with_enable(with_enable(enables, hart, n, true), hart, n, false), hart, n),
        forall|h: int, m: int|
            0 <= h < PLIC_TARGETS && 1 <= m < IRQ_SOURCES && (h != hart || m != n)
                ==> #[trigger] irq_enabled(with_enable(enables, hart, n, on), h, m)
                == irq_enabled(enables, h, m),
{
    lemma_with_bit(enables[enable_index(hart, n)], (n % 32) as u32, on);
    lemma_with_bit(enables[enable_index(hart, n)], (n % 32) as u32, true);
    let e1 = with_enable(enables, hart, n, true);
    lemma_with_bit(e1[enable_index(hart, n)], (n % 32) as u32, false);
    assert forall|h: int, m: int|
        0 <= h < PLIC_TARGETS && 1 <= m < IRQ_SOURCES && (h != hart || m != n)
        implies #[trigger] irq_enabled(with_enable(enables, hart, n, on), h, m)
        == irq_enabled(enables, h, m) by {
        if enable_index(h, m) == enable_index(hart, n) {
            assert(h == hart);
            assert(m / 32 == n / 32);
            assert((m % 32) as u32 != (n % 32) as u32);
        }
    }
}

/// The controller's registers.
pub struct Plic {
    /// Priority of each source (source 0 is reserved).
    pub priority: Vec<u32>,
    /// Pending bits, one per source.
    pub pending: Vec<u32>,
    /// Enable bits, `IRQ_WORDS` words per target.
    pub enables: Vec<u32>,
    /// Priority threshold of each target.
    pub thresholds: Vec<u32>,
    /// Claim/complete register of each target.
    pub claims: Vec<u32>,
}

/// `n` zero words.
fn zero_words(n: usize) -> (r: Vec<u32>)
    ensures
        r@.len() == n,
        forall|i: int| 0 <= i < n ==> r@[i] == 0,
{
    let mut r: Vec<u32> = Vec::new();
    let mut i: usize = 0;
    while i < n
        invariant
            i <= n,
            r@.len() == i,
            forall|j: int| 0 <= j < i ==> r@[j] == 0,
        decreases n - i,
    {
        r.push(0);
        i = i + 1;
    }
    r
}

impl Plic {
    /// Every register array has its size.
    pub open spec fn wf(&self) -> bool {
        &&& self.priority@.len() == IRQ_SOURCES
        &&& self.pending@.len() == IRQ_WORDS
        &&& self.enables@.len() == PLIC_TARGETS * IRQ_WORDS
        &&& self.thresholds@.len() == PLIC_TARGETS
        &&& self.claims@.len() == PLIC_TARGETS
    }

    /// The registers after reset: every word zero.
    pub fn new() -> (r: Plic)
        ensures
            r.wf(),
            forall|i: int| 0 <= i < IRQ_SOURCES ==> r.priority@[i] == 0,
            forall|i: int| 0 <= i < IRQ_WORDS ==> r.pending@[i] == 0,
            forall|i: int| 0 <= i < PLIC_TARGETS * IRQ_WORDS ==> r.enables@[i] == 0,
            forall|i: int| 0 <= i < PLIC_TARGETS ==> r.thresholds@[i] == 0,
            forall|i: int| 0 <= i < PLIC_TARGETS ==> r.claims@[i] == 0,
    {
        Plic {
            priority: zero_words(IRQ_SOURCES),
            pending: zero_words(IRQ_WORDS),
            enables: zero_words(PLIC_TARGETS * IRQ_WORDS),
            thresholds: zero_words(PLIC_TARGETS),
            claims: zero_words(PLIC_TARGETS),
        }
    }

    /// Whether `interrupt` is enabled for `hart_id`.
    pub fn is_enabled(&self, hart_id: usize, interrupt: Interrupt) -> (r: bool)
        requires
            self.wf(),
            hart_id < PLIC_TARGETS,
        ensures
            r == irq_enabled(self.enables@, hart_id as int, irq_nr(interrupt)),
    {
        proof {
            lemma_irq_nr_range(interrupt);
        }
        let n = interrupt.into_bits() as usize;
        u32_bit_is_set(self.enables[hart_id * IRQ_WORDS + n / 32], (n % 32) as u32)
    }

    /// Sets the enable bit of `interrupt` for `hart_id` to `on`.
    fn set_enable(&mut self, hart_id: usize, interrupt: Interrupt, on: bool)
        requires
            old(self).wf(),
            hart_id < PLIC_TARGETS,
        ensures
            final(self).enables@ == with_enable(old(self).enables@, hart_id as int, irq_nr(interrupt), on),
            final(self).priority@ == old(self).priority@,
            final(self).pending@ == old(self).pending@,
            final(self).thresholds@ == old(self).thresholds@,
            final(self).claims@ == old(self).claims@,
            final(self).wf(),
    {
        proof {
            lemma_irq_nr_range(interrupt);
        }
        let n = interrupt.into_bits() as usize;
        let i = hart_id * IRQ_WORDS + n / 32;
        let w = u32_set_bit(self.enables[i], on, (n % 32) as u32);
        self.enables.set(i, w);
    }

    /// Enables `interrupt` for `hart_id`.
    pub fn enable(&mut self, hart_id: usize, interrupt: Interrupt)
        requires
            old(self).wf(),
            hart_id < PLIC_TARGETS,
        ensures
            final(self).enables@ == with_enable(old(self).enables@, hart_id as int, irq_nr(interrupt), true),
            final(self).priority@ == old(self).priority@,
            final(self).pending@ == old(self).pending@,
            final(self).thresholds@ == old(self).thresholds@,
            final(self).claims@ == old(self).claims@,
            final(self).wf(),
    {
        self.set_enable(hart_id, interrupt, true);
    }

    /// Disables `interrupt` for `hart_id`.
    pub fn disable(&mut self, hart_id: usize, interrupt: Interrupt)
        requires
            old(self).wf(),
            hart_id < PLIC_TARGETS,
        ensures
            final(self).enables@ == with_enable(old(self).enables@, hart_id as int, irq_nr(interrupt), false),
            final(self).priority@ == old(self).priority@,
            final(self).pending@ == old(self).pending@,
            final(self).thresholds@ == old(self).thresholds@,
            final(self).claims@ == old(self).claims@,
            final(self).wf(),
    {
        self.set_enable(hart_id, interrupt, false);
    }

    /// The priority of `interrupt`; an error where its register holds no
    /// priority.
    pub fn get_priority(&self, interrupt: Interrupt) -> (r: Result<Priority, PlicError>)
        requires
            self.wf(),
        ensures
            ({
                let bits = self.priority@[irq_nr(interrupt)];
                match r {
                    Ok(p) => bits <= 7 && prio_nr(p) == bits,
                    Err(e) => bits > 7 && e == PlicError::InvalidPriority(bits),
                }
            }),
    {
        proof {
            lemma_irq_nr_range(interrupt);
        }
        let bits = self.priority[interrupt.into_bits() as usize];
        match Priority::from_bits(bits) {
            Some(p) => Ok(p),
            None => Err(PlicError::InvalidPriority(bits)),
        }
    }

    /// Sets the priority of `interrupt`.
    pub fn set_priority(&mut self, interrupt: Interrupt, prio: Priority)
        requires
            old(self).wf(),
        ensures
            final(self).priority@ == old(self).priority@.update(irq_nr(interrupt), prio_nr(prio) as u32),
            final(self).pending@ == old(self).pending@,
            final(self).enables@ == old(self).enables@,
            final(self).thresholds@ == old(self).thresholds@,
            final(self).claims@ == old(self).claims@,
            final(self).wf(),
    {
        proof {
            lemma_irq_nr_range(interrupt);
        }
        let n = interrupt.into_bits() as usize;
        self.priority.set(n, prio.into_bits());
    }

    /// The priority threshold of `hart_id`; an error where its register holds
    /// no priority.
    pub fn get_threshold(&self, hart_id: usize) -> (r: Result<Priority, PlicError>)
        requires
            self.wf(),
            hart_id < PLIC_TARGETS,
        ensures
            ({
                let bits = self.thresholds@[hart_id as int];
                match r {
                    Ok(p) => bits <= 7 && prio_nr(p) == bits,
                    Err(e) => bits > 7 && e == PlicError::InvalidPriority(bits),
                }
            }),
    {
        let bits = self.thresholds[hart_id];
        match Priority::from_bits(bits) {
            Some(p) => Ok(p),
            None => Err(PlicError::InvalidPriority(bits)),
        }
    }

    /// Sets the priority threshold of `hart_id`.
    pub fn set_threshold(&mut self, hart_id: usize, threshold: Priority)
        requires
            old(self).wf(),
            hart_id < PLIC_TARGETS,
        ensures
            final(self).thresholds@ == old(self).thresholds@.update(hart_id as int, prio_nr(threshold) as u32),
            final(self).priority@ == old(self).priority@,
            final(self).pending@ == old(self).pending@,
            final(self).enables@ == old(self).enables@,
            final(self).claims@ == old(self).claims@,
            final(self).wf(),
    {
        self.thresholds.set(hart_id, threshold.into_bits());
    }

    /// Claims for `hart_id`: the interrupt its claim register holds, `None`
    /// where it holds 0 (nothing to claim), an error where it holds no
    /// interrupt. A claimed interrupt is no longer pending.
    pub fn claim(&mut self, hart_id: usize) -> (r: Result<Option<Interrupt>, PlicError>)
        requires
            old(self).wf(),
            hart_id < PLIC_TARGETS,
        ensures
            final(self).wf(),
            ({
                let bits = old(self).claims@[hart_id as int];
                match r {
                    Ok(None) => bits == 0 && final(self).pending@ == old(self).pending@,
                    Ok(Some(i)) => irq_nr(i) == bits && final(self).pending@ == with_pending_cleared(
                        old(self).pending@,
                        irq_nr(i),
                    ) && !irq_pending(final(self).pending@, irq_nr(i)),
                    Err(e) => bits > 65 && e == PlicError::UnknownInterrupt(bits)
                        && final(self).pending@ == old(self).pending@,
                }
            }),
            final(self).priority@ == old(self).priority@,
            final(self).enables@ == old(self).enables@,
            final(self).thresholds@ == old(self).thresholds@,
            final(self).claims@ == old(self).claims@,
    {
        let bits = self.claims[hart_id];
        if bits == 0 {
            Ok(None)
        } else {
            match Interrupt::from_bits(bits) {
                Some(i) => {
                    let n = bits as usize;
                    let w = u32_set_bit(self.pending[n / 32], false, (n % 32) as u32);
                    self.pending.set(n / 32, w);
                    Ok(Some(i))
                },
                None => Err(PlicError::UnknownInterrupt(bits)),
            }
        }
    }

    /// Tells the controller that `hart_id` has handled `interrupt`.
    pub fn complete(&mut self, hart_id: usize, interrupt: Interrupt)
        requires
            old(self).wf(),
            hart_id < PLIC_TARGETS,
        ensures
            final(self).claims@ == old(self).claims@.update(hart_id as int, irq_nr(interrupt) as u32),
            final(self).priority@ == old(self).priority@,
            final(self).pending@ == old(self).pending@,
            final(self).enables@ == old(self).enables@,
            final(self).thresholds@ == old(self).thresholds@,
            final(self).wf(),
    {
        self.claims.set(hart_id, interrupt.into_bits());
    }

    /// Whether `interrupt` is pending.
    pub fn is_pending(&self, interrupt: Interrupt) -> (r: bool)
        requires
            self.wf(),
        ensures
            r == irq_pending(self.pending@, irq_nr(interrupt)),
    {
        proof {
            lemma_irq_nr_range(interrupt);
        }
        let n = interrupt.into_bits() as usize;
        u32_bit_is_set(self.pending[n / 32], (n % 32) as u32)
    }
}

} // verus!
