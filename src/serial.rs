//! Serial interfaces: the high-speed UART (UARTHS) and the three standard
//! UARTs.
//!
//! Configuring a UART derives its baud-rate divisor from the frozen clocks
//! and fills its register values; a `Serial` owns the registers and splits
//! into a transmitting and a receiving half.
use vstd::prelude::*;
use core::marker::PhantomData;
use crate::clock::Clocks;
use crate::time::Bps;

verus! {

/// Receive FIFO trigger: one character.
pub const UART_RECEIVE_FIFO_1: u32 = 0;

/// Transmit FIFO trigger: eight characters.
pub const UART_SEND_FIFO_8: u32 = 3;

/// Line control: eight data bits, one stop bit, no parity.
pub const UART_LCR_8N1: u32 = 3;

/// Line control bit that opens the divisor latches.
pub const UART_LCR_DLAB: u32 = 0x80;

/// Interrupt enable: transmit holding register empty.
pub const UART_IER_THRE: u32 = 0x80;

/// FIFO control: FIFOs on, DMA mode 1, the triggers above.
pub const UART_FCR: u32 = 0x39;

/// The UARTHS registers that configuring and listening set.
pub struct UarthsRegs {
    /// Clock divisor: the baud rate is the CPU clock over `div + 1`.
    pub div: u32,
    pub txen: bool,
    pub rxen: bool,
    /// Interrupt on the transmit watermark.
    pub ie_txwm: bool,
    /// Interrupt on the receive watermark.
    pub ie_rxwm: bool,
}

/// The registers of a standard UART that configuring sets.
pub struct UartRegs {
    pub lcr: u32,
    /// Divisor latch, high byte.
    pub dlh: u8,
    /// Divisor latch, low byte.
    pub dll: u8,
    /// Divisor latch, fraction.
    pub dlf: u8,
    pub ier: u32,
    pub fcr: u32,
}

/// The UARTHS divisor for `baud` from the CPU clock `cpu`: `cpu / baud - 1`,
/// or 0 where the baud rate is above the clock.
pub open spec fn uarths_div(cpu: int, baud: int) -> int {
    if cpu / baud >= 1 {
        cpu / baud - 1
    } else {
        0
    }
}

/// Computes the UARTHS divisor.
pub fn uarths_divisor(cpu: u32, baud: u32) -> (r: u32)
    requires
        baud > 0,
    ensures
        r == uarths_div(cpu as int, baud as int),
{
    let q = cpu / baud;
    if q >= 1 {
        q - 1
    } else {
        0
    }
}

/// Splits a standard UART's divisor `apb0 / baud` into its high byte (bits
/// 12 to 19), low byte (bits 4 to 11) and fraction (bits 0 to 3).
pub fn uart_divisor_fields(apb0: u32, baud: u32) -> (r: (u8, u8, u8))
    requires
        baud > 0,
    ensures
        ({
            let d = (apb0 / baud) as int;
            &&& r.0 == (d / 4096) % 256
            &&& r.1 == (d / 16) % 256
            &&& r.2 == d % 16
        }),
{
    let divisor = apb0 / baud;
    let dlh = ((divisor >> 12u32) & 0xff) as u8;
    let dll = ((divisor >> 4u32) & 0xff) as u8;
    let dlf = (divisor & 0xf) as u8;
    assert((divisor >> 12u32) & 0xff == (divisor / 4096) % 256) by (bit_vector);
    assert((divisor >> 4u32) & 0xff == (divisor / 16) % 256) by (bit_vector);
    assert(divisor & 0xf == divisor % 16) by (bit_vector);
    (dlh, dll, dlf)
}

/// A configured serial interface.
pub struct Serial<UART> {
    uart: UART,
}

/// The transmitting half of a serial interface.
pub struct Tx<UART> {
    uart: UART,
}

/// The receiving half of a serial interface.
pub struct Rx<UART> {
    _uart: PhantomData<UART>,
}

impl<UART> Serial<UART> {
    /// The registers this interface owns.
    pub closed spec fn regs(&self) -> UART {
        self.uart
    }

    /// Splits the interface into its transmitting and receiving halves.
    pub fn split(self) -> (r: (Tx<UART>, Rx<UART>))
        ensures
            r.0.regs() == self.regs(),
    {
        (Tx { uart: self.uart }, Rx { _uart: PhantomData })
    }

    /// Joins the two halves again.
    pub fn join(tx: Tx<UART>, rx: Rx<UART>) -> (r: Self)
        ensures
            r.regs() == tx.regs(),
    {
        Serial { uart: tx.uart }
    }

    /// Releases the registers.
    pub fn free(self) -> (r: UART)
        ensures
            r == self.regs(),
    {
        self.uart
    }
}

impl<UART> Tx<UART> {
    /// The registers this half owns.
    pub closed spec fn regs(&self) -> UART {
        self.uart
    }
}

impl UarthsRegs {
    /// Sets the baud rate from the CPU clock and turns transmitter and
    /// receiver on.
    pub fn configure(self, baud_rate: Bps, clocks: &Clocks) -> (r: Serial<UarthsRegs>)
        requires
            baud_rate.0 > 0,
        ensures
            r.regs() == (UarthsRegs {
                div: uarths_div(clocks.cpu_hz(), baud_rate.0 as int) as u32,
                txen: true,
                rxen: true,
                ..self
            }),
    {
        let mut uart = self;
        uart.div = uarths_divisor(clocks.cpu().0, baud_rate.0);
        uart.txen = true;
        uart.rxen = true;
        Serial { uart }
    }
}

impl Serial<UarthsRegs> {
    /// Interrupts on the receive watermark only.
    pub fn listen(self) -> (r: Self)
        ensures
            r.regs() == (UarthsRegs { ie_txwm: false, ie_rxwm: true, ..self.regs() }),
    {
        let mut uart = self.uart;
        uart.ie_txwm = false;
        uart.ie_rxwm = true;
        Serial { uart }
    }

    /// Interrupts on nothing.
    pub fn unlisten(self) -> (r: Self)
        ensures
            r.regs() == (UarthsRegs { ie_txwm: false, ie_rxwm: false, ..self.regs() }),
    {
        let mut uart = self.uart;
        uart.ie_txwm = false;
        uart.ie_rxwm = false;
        Serial { uart }
    }
}

impl UartRegs {
    /// Sets the baud rate from the APB0 clock, eight data bits, one stop bit,
    /// no parity, the transmit-empty interrupt and the FIFOs.
    pub fn configure(self, baud_rate: Bps, clocks: &Clocks) -> (r: Serial<UartRegs>)
        requires
            baud_rate.0 > 0,
        ensures
            ({
                let d = clocks.apb0_hz() / baud_rate.0 as int;
                r.regs() == (UartRegs {
                    lcr: UART_LCR_8N1,
                    dlh: ((d / 4096) % 256) as u8,
                    dll: ((d / 16) % 256) as u8,
                    dlf: (d % 16) as u8,
                    ier: UART_IER_THRE,
                    fcr: UART_FCR,
                })
            }),
    {
        let (dlh, dll, dlf) = uart_divisor_fields(clocks.apb0().0, baud_rate.0);
        let fcr = UART_RECEIVE_FIFO_1 << 6u32 | UART_SEND_FIFO_8 << 4u32 | 0x1u32 << 3u32 | 0x1u32;
        assert(fcr == UART_FCR) by (bit_vector)
            requires
                fcr == UART_RECEIVE_FIFO_1 << 6u32 | UART_SEND_FIFO_8 << 4u32 | 0x1u32 << 3u32 | 0x1u32,
        ;
        let uart = UartRegs {
            lcr: UART_LCR_8N1,
            dlh,
            dll,
            dlf,
            ier: UART_IER_THRE,
            fcr,
        };
        Serial { uart }
    }
}

impl Serial<UartRegs> {
    /// A standard UART has no interrupt to turn on here.
    pub fn listen(self) -> (r: Self)
        ensures
            r.regs() == self.regs(),
    {
        self
    }

    /// A standard UART has no interrupt to turn off here.
    pub fn unlisten(self) -> (r: Self)
        ensures
            r.regs() == self.regs(),
    {
        self
    }
}

/// One register write on a standard UART, in the order the hardware sees it.
#[derive(Clone, Copy, Debug, PartialEq, Eq, Structural)]
pub enum UartWrite {
    Lcr(u32),
    DlhIer(u32),
    RbrDllThr(u32),
    Dlf(u32),
    FcrIir(u32),
}

/// The writes that put `regs` into a standard UART: the divisor latches
/// behind the latch-access bit, then line control (which closes the latches),
/// and only then the interrupt enable, which shares its address with the high
/// divisor latch, and the FIFO control.
pub fn uart_write_plan(regs: &UartRegs) -> (r: Vec<UartWrite>)
    ensures
        r@ == seq![
            UartWrite::Lcr(UART_LCR_DLAB),
            UartWrite::DlhIer(regs.dlh as u32),
            UartWrite::RbrDllThr(regs.dll as u32),
            UartWrite::Dlf(regs.dlf as u32),
            UartWrite::Lcr(regs.lcr),
            UartWrite::DlhIer(regs.ier),
            UartWrite::FcrIir(regs.fcr),
        ],
{
    let mut r: Vec<UartWrite> = Vec::new();
    r.push(UartWrite::Lcr(UART_LCR_DLAB));
    r.push(UartWrite::DlhIer(regs.dlh as u32));
    r.push(UartWrite::RbrDllThr(regs.dll as u32));
    r.push(UartWrite::Dlf(regs.dlf as u32));
    r.push(UartWrite::Lcr(regs.lcr));
    r.push(UartWrite::DlhIer(regs.ier));
    r.push(UartWrite::FcrIir(regs.fcr));
    assert(r@ =~= seq![
        UartWrite::Lcr(UART_LCR_DLAB),
        UartWrite::DlhIer(regs.dlh as u32),
        UartWrite::RbrDllThr(regs.dll as u32),
        UartWrite::Dlf(regs.dlf as u32),
        UartWrite::Lcr(regs.lcr),
        UartWrite::DlhIer(regs.ier),
        UartWrite::FcrIir(regs.fcr),
    ]);
    r
}

} // verus!
