//! Direct Memory Access Controller (DMAC): six channels.
//!
//! `Dmac` holds the controller's registers as plain values. A channel whose
//! enable bit is set is busy: nothing here rewrites its configuration.
use vstd::prelude::*;
use crate::bits::{bit_of, u32_bit_is_set, u32_set_bit, with_bit};
use crate::sysctl::Sysctl;

verus! {

/// Number of channels.
pub const DMAC_CHANNELS: usize = 6;

/// Start of the cached SRAM window.
pub const MEM_BASE: u64 = 0x8000_0000;

/// Length of the cached SRAM window.
pub const MEM_LEN: u64 = 6 * 1024 * 1024;

/// Start of the uncached SRAM window.
pub const MEM_NO_CACHE_BASE: u64 = 0x4000_0000;

/// Length of the uncached SRAM window.
pub const MEM_NO_CACHE_LEN: u64 = 8 * 1024 * 1024;

/// A single register address that behaves as memory.
pub const MEM_EXTRA_ADDR: u64 = 0x5045_0040;

/// What kind of target an address reaches.
#[derive(Clone, Copy, Debug, PartialEq, Eq, Structural)]
pub enum MemType {
    Peripheral,
    Memory,
}

/// Whether `addr` reaches memory.
pub open spec fn is_memory_addr(addr: u64) -> bool {
    (MEM_BASE <= addr < MEM_BASE + MEM_LEN) || (MEM_NO_CACHE_BASE <= addr < MEM_NO_CACHE_BASE
        + MEM_NO_CACHE_LEN) || addr == MEM_EXTRA_ADDR
}

/// Classifies `addr` as memory or peripheral.
pub fn is_memory(addr: u64) -> (r: MemType)
    ensures
        r == (if is_memory_addr(addr) { MemType::Memory } else { MemType::Peripheral }),
{
    if (addr >= MEM_BASE && addr < MEM_BASE + MEM_LEN) || (addr >= MEM_NO_CACHE_BASE && addr
        < MEM_NO_CACHE_BASE + MEM_NO_CACHE_LEN) || addr == MEM_EXTRA_ADDR {
        MemType::Memory
    } else {
        MemType::Peripheral
    }
}

/// Which sides of a transfer a setting applies to.
#[derive(Clone, Copy, Debug, PartialEq, Eq, Structural)]
pub enum DmacSrcDstSelect {
    Source,
    Destination,
    SourceDestination,
}

/// Why a channel could not be configured.
#[derive(Clone, Copy, Debug, PartialEq, Eq, Structural)]
pub enum DmacError {
    /// The channel is enabled, mid-transfer.
    ChannelBusy,
}

/// A channel of the controller.
#[derive(Clone, Copy, Debug, PartialEq, Eq, Structural)]
pub enum DmacChannel {
    Channel0,
    Channel1,
    Channel2,
    Channel3,
    Channel4,
    Channel5,
}

/// The number of a channel.
pub open spec fn ch_nr(c: DmacChannel) -> int {
    match c {
        DmacChannel::Channel0 => 0,
        DmacChannel::Channel1 => 1,
        DmacChannel::Channel2 => 2,
        DmacChannel::Channel3 => 3,
        DmacChannel::Channel4 => 4,
        DmacChannel::Channel5 => 5,
    }
}

impl DmacChannel {
    /// The number of this channel.
    pub fn index(&self) -> (r: usize)
        ensures
            r == ch_nr(*self),
            r < DMAC_CHANNELS,
    {
        match self {
            DmacChannel::Channel0 => 0,
            DmacChannel::Channel1 => 1,
            DmacChannel::Channel2 => 2,
            DmacChannel::Channel3 => 3,
            DmacChannel::Channel4 => 4,
            DmacChannel::Channel5 => 5,
        }
    }
}

/// AXI master interface a channel uses.
#[allow(non_camel_case_types)]
#[derive(Clone, Copy, Debug, PartialEq, Eq, Structural)]
pub enum Sms {
    AXI_MASTER_1,
    AXI_MASTER_2,
}

/// Address step after each item.
#[allow(non_camel_case_types)]
#[derive(Clone, Copy, Debug, PartialEq, Eq, Structural)]
pub enum Inc {
    INCREMENT,
    NOCHANGE,
}

/// Width of one transferred item.
#[allow(non_camel_case_types)]
#[derive(Clone, Copy, Debug, PartialEq, Eq, Structural)]
pub enum TrWidth {
    WIDTH_8,
    WIDTH_16,
    WIDTH_32,
    WIDTH_64,
    WIDTH_128,
    WIDTH_256,
    WIDTH_512,
}

/// Items per burst.
#[allow(non_camel_case_types)]
#[derive(Clone, Copy, Debug, PartialEq, Eq, Structural)]
pub enum Msize {
    LENGTH_1,
    LENGTH_4,
    LENGTH_8,
    LENGTH_16,
    LENGTH_32,
    LENGTH_64,
    LENGTH_128,
    LENGTH_256,
    LENGTH_512,
    LENGTH_1024,
}

/// Transfer type and flow controller.
#[allow(non_camel_case_types)]
#[derive(Clone, Copy, Debug, PartialEq, Eq, Structural)]
pub enum FlowControl {
    MEM2MEM_DMA,
    MEM2PRF_DMA,
    PRF2MEM_DMA,
    PRF2PRF_DMA,
}

/// Handshake a side of the transfer uses.
#[allow(non_camel_case_types)]
#[derive(Clone, Copy, Debug, PartialEq, Eq, Structural)]
pub enum Handshake {
    HARDWARE,
    SOFTWARE,
}

/// A channel's configuration register.
#[derive(Clone, Copy, Debug, PartialEq, Eq, Structural)]
pub struct ChannelCfg {
    pub tt_fc: FlowControl,
    pub hs_sel_src: Handshake,
    pub hs_sel_dst: Handshake,
    pub src_per: u8,
    pub dst_per: u8,
    pub src_multblk_type: u8,
    pub dst_multblk_type: u8,
}

/// A channel's control register.
#[derive(Clone, Copy, Debug, PartialEq, Eq, Structural)]
pub struct ChannelCtl {
    pub sms: Sms,
    pub dms: Sms,
    pub sinc: Inc,
    pub dinc: Inc,
    pub src_tr_width: TrWidth,
    pub dst_tr_width: TrWidth,
    pub src_msize: Msize,
    pub dst_msize: Msize,
}

/// A channel's registers.
#[derive(Clone, Copy, Debug, PartialEq, Eq, Structural)]
pub struct ChannelRegs {
    pub cfg: ChannelCfg,
    pub ctl: ChannelCtl,
    /// Source address.
    pub sar: u64,
    /// Destination address.
    pub dar: u64,
    /// Items per block, less one.
    pub block_ts: u32,
    /// Pending interrupt bits.
    pub int_status: u32,
}

/// The flow control for a transfer between these kinds of target.
pub open spec fn flow_control_for(src: MemType, dst: MemType) -> FlowControl {
    match (src, dst) {
        (MemType::Memory, MemType::Memory) => FlowControl::MEM2MEM_DMA,
        (MemType::Memory, MemType::Peripheral) => FlowControl::MEM2PRF_DMA,
        (MemType::Peripheral, MemType::Memory) => FlowControl::PRF2MEM_DMA,
        (MemType::Peripheral, MemType::Peripheral) => FlowControl::PRF2PRF_DMA,
    }
}

/// Memory is handshaken by software, a peripheral by hardware.
pub open spec fn handshake_for(t: MemType) -> Handshake {
    match t {
        MemType::Memory => Handshake::SOFTWARE,
        MemType::Peripheral => Handshake::HARDWARE,
    }
}

/// The kind of target `addr` reaches.
pub open spec fn mem_type(addr: u64) -> MemType {
    if is_memory_addr(addr) {
        MemType::Memory
    } else {
        MemType::Peripheral
    }
}

/// A channel's registers after it is set up for one block from `src` to
/// `dst`; its pending interrupt bits stay as they were.
pub open spec fn configured_channel(
    old_ch: ChannelRegs,
    channel: int,
    src: u64,
    dst: u64,
    src_inc: Inc,
    dst_inc: Inc,
    trans_width: TrWidth,
    burst_size: Msize,
    block_size: u32,
) -> ChannelRegs {
    ChannelRegs {
        cfg: ChannelCfg {
            tt_fc: flow_control_for(mem_type(src), mem_type(dst)),
            hs_sel_src: handshake_for(mem_type(src)),
            hs_sel_dst: handshake_for(mem_type(dst)),
            src_per: channel as u8,
            dst_per: channel as u8,
            src_multblk_type: 0,
            dst_multblk_type: 0,
        },
        ctl: ChannelCtl {
            sms: Sms::AXI_MASTER_1,
            dms: Sms::AXI_MASTER_2,
            sinc: src_inc,
            dinc: dst_inc,
            src_tr_width: trans_width,
            dst_tr_width: trans_width,
            src_msize: burst_size,
            dst_msize: burst_size,
        },
        sar: src,
        dar: dst,
        block_ts: (block_size - 1) as u32,
        int_status: old_ch.int_status,
    }
}

/// One step of driving the controller, in the order the hardware sees it.
/// Register values come from the controller's registers in `Dmac`.
#[derive(Clone, Copy, Debug, PartialEq, Eq, Structural)]
pub enum DmacStep {
    /// Turn the controller's clock on.
    EnableClock,
    /// Start a controller reset.
    Reset,
    /// Wait until the reset is done.
    WaitResetDone,
    /// Clear the common interrupt bits.
    ClearCommonInterrupts,
    /// Disable the controller and its interrupt.
    Disable,
    /// Wait until the controller reads as disabled.
    WaitDisabled,
    /// Turn every channel off.
    AllChannelsOff,
    /// Clear a channel's interrupt bits.
    ClearChannelInterrupts(DmacChannel),
    /// Write a channel's configuration register.
    WriteCfg(DmacChannel),
    /// Write a channel's source address.
    WriteSar(DmacChannel),
    /// Write a channel's destination address.
    WriteDar(DmacChannel),
    /// Write a channel's control register.
    WriteCtl(DmacChannel),
    /// Write a channel's block size.
    WriteBlockTs(DmacChannel),
    /// Enable the controller and its interrupt.
    Enable,
    /// Turn a channel on.
    ChannelOn(DmacChannel),
}

/// Setting up a channel: the configuration register before the addresses,
/// and those before the control register and the block size.
pub open spec fn channel_param_steps(c: DmacChannel) -> Seq<DmacStep> {
    seq![
        DmacStep::WriteCfg(c),
        DmacStep::WriteSar(c),
        DmacStep::WriteDar(c),
        DmacStep::WriteCtl(c),
        DmacStep::WriteBlockTs(c),
    ]
}

/// The steps of `Dmac::init`: reset and wait, clear common interrupts,
/// disable and wait for the controller to read as disabled, turn the channels
/// off and clear their interrupts, and only then enable.
pub fn init_plan() -> (r: Vec<DmacStep>)
    ensures
        r@ == seq![
            DmacStep::EnableClock,
            DmacStep::Reset,
            DmacStep::WaitResetDone,
            DmacStep::ClearCommonInterrupts,
            DmacStep::Disable,
            DmacStep::WaitDisabled,
            DmacStep::AllChannelsOff,
            DmacStep::ClearChannelInterrupts(DmacChannel::Channel0),
            DmacStep::ClearChannelInterrupts(DmacChannel::Channel1),
            DmacStep::ClearChannelInterrupts(DmacChannel::Channel2),
            DmacStep::ClearChannelInterrupts(DmacChannel::Channel3),
            DmacStep::ClearChannelInterrupts(DmacChannel::Channel4),
            DmacStep::ClearChannelInterrupts(DmacChannel::Channel5),
            DmacStep::Enable,
        ],
{
    let mut r: Vec<DmacStep> = Vec::new();
    r.push(DmacStep::EnableClock);
    r.push(DmacStep::Reset);
    r.push(DmacStep::WaitResetDone);
    r.push(DmacStep::ClearCommonInterrupts);
    r.push(DmacStep::Disable);
    r.push(DmacStep::WaitDisabled);
    r.push(DmacStep::AllChannelsOff);
    r.push(DmacStep::ClearChannelInterrupts(DmacChannel::Channel0));
    r.push(DmacStep::ClearChannelInterrupts(DmacChannel::Channel1));
    r.push(DmacStep::ClearChannelInterrupts(DmacChannel::Channel2));
    r.push(DmacStep::ClearChannelInterrupts(DmacChannel::Channel3));
    r.push(DmacStep::ClearChannelInterrupts(DmacChannel::Channel4));
    r.push(DmacStep::ClearChannelInterrupts(DmacChannel::Channel5));
    r.push(DmacStep::Enable);
    assert(r@ =~= seq![
        DmacStep::EnableClock,
        DmacStep::Reset,
        DmacStep::WaitResetDone,
        DmacStep::ClearCommonInterrupts,
        DmacStep::Disable,
        DmacStep::WaitDisabled,
        DmacStep::AllChannelsOff,
        DmacStep::ClearChannelInterrupts(DmacChannel::Channel0),
        DmacStep::ClearChannelInterrupts(DmacChannel::Channel1),
        DmacStep::ClearChannelInterrupts(DmacChannel::Channel2),
        DmacStep::ClearChannelInterrupts(DmacChannel::Channel3),
        DmacStep::ClearChannelInterrupts(DmacChannel::Channel4),
        DmacStep::ClearChannelInterrupts(DmacChannel::Channel5),
        DmacStep::Enable,
    ]);
    r
}

/// The steps of `Dmac::set_channel_param` on an idle channel.
pub fn channel_param_plan(channel: DmacChannel) -> (r: Vec<DmacStep>)
    ensures
        r@ == channel_param_steps(channel),
{
    let mut r: Vec<DmacStep> = Vec::new();
    r.push(DmacStep::WriteCfg(channel));
    r.push(DmacStep::WriteSar(channel));
    r.push(DmacStep::WriteDar(channel));
    r.push(DmacStep::WriteCtl(channel));
    r.push(DmacStep::WriteBlockTs(channel));
    assert(r@ =~= channel_param_steps(channel));
    r
}

/// The steps of `Dmac::set_single_mode` on an idle channel: its interrupts
/// cleared, the channel set up, then the controller and the channel enabled.
pub fn single_mode_plan(channel: DmacChannel) -> (r: Vec<DmacStep>)
    ensures
        r@ == seq![DmacStep::ClearChannelInterrupts(channel)] + channel_param_steps(channel) + seq![
            DmacStep::Enable,
            DmacStep::ChannelOn(channel),
        ],
{
    let mut r: Vec<DmacStep> = Vec::new();
    r.push(DmacStep::ClearChannelInterrupts(channel));
    let mut p = channel_param_plan(channel);
    r.append(&mut p);
    r.push(DmacStep::Enable);
    r.push(DmacStep::ChannelOn(channel));
    assert(r@ =~= seq![DmacStep::ClearChannelInterrupts(channel)] + channel_param_steps(channel)
        + seq![DmacStep::Enable, DmacStep::ChannelOn(channel)]);
    r
}

/// Turns the controller into a `Dmac`.
pub trait DmacExt: Sized {
    /// The registers this value holds.
    spec fn dmac_view(&self) -> DmacRegs;

    /// Hands the registers over to a `Dmac`.
    fn constrain(self) -> (r: Dmac)
        ensures
            r.dmac == self.dmac_view(),
    ;
}

/// The controller's registers.
pub struct DmacRegs {
    pub id: u64,
    pub compver: u64,
    /// Controller enable.
    pub dmac_en: bool,
    /// Interrupt enable.
    pub int_en: bool,
    /// Pending common interrupt bits.
    pub com_int_status: u32,
    /// Bit `i` enables channel `i`.
    pub chen: u32,
    pub channels: Vec<ChannelRegs>,
}

impl DmacExt for DmacRegs {
    open spec fn dmac_view(&self) -> DmacRegs {
        *self
    }

    fn constrain(self) -> (r: Dmac) {
        Dmac { dmac: self }
    }
}

/// The DMA controller.
pub struct Dmac {
    pub dmac: DmacRegs,
}

impl Dmac {
    /// One register set per channel.
    pub open spec fn wf(&self) -> bool {
        self.dmac.channels@.len() == DMAC_CHANNELS
    }

    /// Whether `channel` is enabled, mid-transfer.
    pub open spec fn busy(&self, channel: DmacChannel) -> bool {
        bit_of(self.dmac.chen, ch_nr(channel) as u32)
    }

    /// The controller's identification.
    pub fn id(&self) -> (r: u64)
        ensures
            r == self.dmac.id,
    {
        self.dmac.id
    }

    /// The controller's version.
    pub fn version(&self) -> (r: u64)
        ensures
            r == self.dmac.compver,
    {
        self.dmac.compver
    }

    /// Turns on the controller's clock, then brings it to a clean state:
    /// common and channel interrupts cleared, every channel off, the
    /// controller and its interrupt enabled, in the order `init_plan` gives.
    pub fn init(&mut self, sysctl: &mut Sysctl)
        requires
            old(self).wf(),
        ensures
            final(self).wf(),
            *final(sysctl) == (Sysctl { dma_clk_en: true, ..*old(sysctl) }),
            final(self).dmac.id == old(self).dmac.id,
            final(self).dmac.compver == old(self).dmac.compver,
            final(self).dmac.com_int_status == 0,
            final(self).dmac.chen == 0,
            final(self).dmac.dmac_en,
            final(self).dmac.int_en,
            forall|i: int| 0 <= i < DMAC_CHANNELS ==> #[trigger] final(self).dmac.channels@[i] == (
            ChannelRegs { int_status: 0, ..old(self).dmac.channels@[i] }),
    {
        sysctl.dma_clk_en = true;
        self.clear_common_interrupt();
        self.disable();
        self.dmac.chen = 0;
        let mut i: usize = 0;
        while i < DMAC_CHANNELS
            invariant
                i <= DMAC_CHANNELS,
                self.dmac.channels@.len() == DMAC_CHANNELS,
                self.dmac.id == old(self).dmac.id,
                self.dmac.compver == old(self).dmac.compver,
                self.dmac.com_int_status == 0,
                self.dmac.chen == 0,
                forall|j: int| 0 <= j < i ==> #[trigger] self.dmac.channels@[j] == (ChannelRegs {
                    int_status: 0,
                    ..old(self).dmac.channels@[j]
                }),
                forall|j: int| i <= j < DMAC_CHANNELS ==> #[trigger] self.dmac.channels@[j]
                    == old(self).dmac.channels@[j],
            decreases DMAC_CHANNELS - i,
        {
            let mut ch = self.dmac.channels[i];
            ch.int_status = 0;
            self.dmac.channels.set(i, ch);
            i = i + 1;
        }
        self.enable();
    }

    fn enable(&mut self)
        ensures
            *final(self) == (Dmac { dmac: DmacRegs { dmac_en: true, int_en: true, ..old(self).dmac } }),
    {
        self.dmac.dmac_en = true;
        self.dmac.int_en = true;
    }

    fn disable(&mut self)
        ensures
            *final(self) == (Dmac { dmac: DmacRegs { dmac_en: false, int_en: false, ..old(self).dmac } }),
    {
        self.dmac.dmac_en = false;
        self.dmac.int_en = false;
    }

    fn clear_common_interrupt(&mut self)
        ensures
            *final(self) == (Dmac { dmac: DmacRegs { com_int_status: 0, ..old(self).dmac } }),
    {
        self.dmac.com_int_status = 0;
    }

    /// Enables `channel`.
    pub fn channel_enable(&mut self, channel: DmacChannel)
        ensures
            *final(self) == (Dmac {
                dmac: DmacRegs {
                    chen: with_bit(old(self).dmac.chen, ch_nr(channel) as u32, true),
                    ..old(self).dmac
                },
            }),
    {
        self.dmac.chen = u32_set_bit(self.dmac.chen, true, channel.index() as u32);
    }

    /// Disables `channel`.
    pub fn channel_disable(&mut self, channel: DmacChannel)
        ensures
            *final(self) == (Dmac {
                dmac: DmacRegs {
                    chen: with_bit(old(self).dmac.chen, ch_nr(channel) as u32, false),
                    ..old(self).dmac
                },
            }),
    {
        self.dmac.chen = u32_set_bit(self.dmac.chen, false, channel.index() as u32);
    }

    /// Whether `channel` is enabled, mid-transfer.
    pub fn is_channel_busy(&self, channel: DmacChannel) -> (r: bool)
        ensures
            r == self.busy(channel),
    {
        u32_bit_is_set(self.dmac.chen, channel.index() as u32)
    }

    /// Whether `channel` is idle.
    pub fn is_channel_idle(&self, channel: DmacChannel) -> (r: bool)
        ensures
            r == !self.busy(channel),
    {
        !u32_bit_is_set(self.dmac.chen, channel.index() as u32)
    }

    /// Selects the AXI master of the source, the destination or both of an
    /// idle `channel`; a busy channel is left alone.
    pub fn set_list_master_select(
        &mut self,
        channel: DmacChannel,
        sd: DmacSrcDstSelect,
        sms: Sms,
    ) -> (r: Result<(), DmacError>)
        requires
            old(self).wf(),
        ensures
            final(self).wf(),
            old(self).busy(channel) ==> r == Err::<(), DmacError>(DmacError::ChannelBusy)
                && final(self).dmac.channels@ == old(self).dmac.channels@,
            !old(self).busy(channel) ==> r.is_ok() && ({
                let c = old(self).dmac.channels@[ch_nr(channel)];
                final(self).dmac.channels@ == old(self).dmac.channels@.update(
                    ch_nr(channel),
                    ChannelRegs {
                        ctl: ChannelCtl {
                            sms: if sd != DmacSrcDstSelect::Destination { sms } else { c.ctl.sms },
                            dms: if sd != DmacSrcDstSelect::Source { sms } else { c.ctl.dms },
                            ..c.ctl
                        },
                        ..c
                    },
                )
            }),
            final(self).dmac.chen == old(self).dmac.chen,
            final(self).dmac.dmac_en == old(self).dmac.dmac_en,
            final(self).dmac.int_en == old(self).dmac.int_en,
            final(self).dmac.com_int_status == old(self).dmac.com_int_status,
            final(self).dmac.id == old(self).dmac.id,
            final(self).dmac.compver == old(self).dmac.compver,
    {
        if self.is_channel_busy(channel) {
            Err(DmacError::ChannelBusy)
        } else {
            let i = channel.index();
            let mut ch = self.dmac.channels[i];
            if sd != DmacSrcDstSelect::Destination {
                ch.ctl.sms = sms;
            }
            if sd != DmacSrcDstSelect::Source {
                ch.ctl.dms = sms;
            }
            self.dmac.channels.set(i, ch);
            Ok(())
        }
    }

    fn channel_interrupt_clear(&mut self, channel: DmacChannel)
        requires
            old(self).wf(),
        ensures
            final(self).wf(),
            final(self).dmac.channels@ == old(self).dmac.channels@.update(
                ch_nr(channel),
                ChannelRegs { int_status: 0, ..old(self).dmac.channels@[ch_nr(channel)] },
            ),
            final(self).dmac.chen == old(self).dmac.chen,
            final(self).dmac.dmac_en == old(self).dmac.dmac_en,
            final(self).dmac.int_en == old(self).dmac.int_en,
            final(self).dmac.com_int_status == old(self).dmac.com_int_status,
            final(self).dmac.id == old(self).dmac.id,
            final(self).dmac.compver == old(self).dmac.compver,
    {
        let i = channel.index();
        let mut ch = self.dmac.channels[i];
        ch.int_status = 0;
        self.dmac.channels.set(i, ch);
    }

    /// One poll of a transfer on `channel`: once the channel is idle its
    /// interrupt bits are cleared and `true` comes back; while it is busy
    /// nothing changes and `false` comes back.
    pub fn wait_done(&mut self, channel: DmacChannel) -> (r: bool)
        requires
            old(self).wf(),
        ensures
            final(self).wf(),
            r == !old(self).busy(channel),
            r ==> final(self).dmac.channels@ == old(self).dmac.channels@.update(
                ch_nr(channel),
                ChannelRegs { int_status: 0, ..old(self).dmac.channels@[ch_nr(channel)] },
            ),
            !r ==> final(self).dmac.channels@ == old(self).dmac.channels@,
            final(self).dmac.chen == old(self).dmac.chen,
            final(self).dmac.dmac_en == old(self).dmac.dmac_en,
            final(self).dmac.int_en == old(self).dmac.int_en,
            final(self).dmac.com_int_status == old(self).dmac.com_int_status,
    {
        if self.is_channel_idle(channel) {
            self.channel_interrupt_clear(channel);
            true
        } else {
            false
        }
    }

    /// Sets up an idle `channel` for one block of `block_size` items from
    /// `src` to `dst`: the flow control and handshakes follow from whether
    /// each address reaches memory or a peripheral. A busy channel is left
    /// alone.
    pub fn set_channel_param(
        &mut self,
        channel: DmacChannel,
        src: u64,
        dst: u64,
        src_inc: Inc,
        dst_inc: Inc,
        trans_width: TrWidth,
        burst_size: Msize,
        block_size: u32,
    ) -> (r: Result<(), DmacError>)
        requires
            old(self).wf(),
            block_size >= 1,
        ensures
            final(self).wf(),
            old(self).busy(channel) ==> r == Err::<(), DmacError>(DmacError::ChannelBusy)
                && final(self).dmac.channels@ == old(self).dmac.channels@,
            !old(self).busy(channel) ==> r.is_ok() && final(self).dmac.channels@
                == old(self).dmac.channels@.update(
                ch_nr(channel),
                configured_channel(
                    old(self).dmac.channels@[ch_nr(channel)],
                    ch_nr(channel),
                    src,
                    dst,
                    src_inc,
                    dst_inc,
                    trans_width,
                    burst_size,
                    block_size,
                ),
            ),
            final(self).dmac.chen == old(self).dmac.chen,
            final(self).dmac.dmac_en == old(self).dmac.dmac_en,
            final(self).dmac.int_en == old(self).dmac.int_en,
            final(self).dmac.com_int_status == old(self).dmac.com_int_status,
            final(self).dmac.id == old(self).dmac.id,
            final(self).dmac.compver == old(self).dmac.compver,
    {
        if self.is_channel_busy(channel) {
            return Err(DmacError::ChannelBusy);
        }
        let i = channel.index();
        let mut ch = self.dmac.channels[i];
        let src_type = is_memory(src);
        let dst_type = is_memory(dst);
        let flow_control = match (src_type, dst_type) {
            (MemType::Memory, MemType::Memory) => FlowControl::MEM2MEM_DMA,
            (MemType::Memory, MemType::Peripheral) => FlowControl::MEM2PRF_DMA,
            (MemType::Peripheral, MemType::Memory) => FlowControl::PRF2MEM_DMA,
            (MemType::Peripheral, MemType::Peripheral) => FlowControl::PRF2PRF_DMA,
        };
        // The configuration register goes first, before the addresses and
        // the block size.
        ch.cfg = ChannelCfg {
            tt_fc: flow_control,
            hs_sel_src: match src_type {
                MemType::Memory => Handshake::SOFTWARE,
                MemType::Peripheral => Handshake::HARDWARE,
            },
            hs_sel_dst: match dst_type {
                MemType::Memory => Handshake::SOFTWARE,
                MemType::Peripheral => Handshake::HARDWARE,
            },
            src_per: i as u8,
            dst_per: i as u8,
            src_multblk_type: 0,
            dst_multblk_type: 0,
        };
        ch.sar = src;
        ch.dar = dst;
        ch.ctl = ChannelCtl {
            sms: Sms::AXI_MASTER_1,
            dms: Sms::AXI_MASTER_2,
            sinc: src_inc,
            dinc: dst_inc,
            src_tr_width: trans_width,
            dst_tr_width: trans_width,
            src_msize: burst_size,
            dst_msize: burst_size,
        };
        ch.block_ts = block_size - 1;
        self.dmac.channels.set(i, ch);
        Ok(())
    }

    /// Starts a single-block transfer on an idle `channel`: clears its
    /// interrupts, sets it up as `set_channel_param` does, and enables the
    /// controller and the channel. A busy channel is left alone.
    pub fn set_single_mode(
        &mut self,
        channel: DmacChannel,
        src: u64,
        dst: u64,
        src_inc: Inc,
        dst_inc: Inc,
        trans_width: TrWidth,
        burst_size: Msize,
        block_size: u32,
    ) -> (r: Result<(), DmacError>)
        requires
            old(self).wf(),
            block_size >= 1,
        ensures
            final(self).wf(),
            old(self).busy(channel) ==> r == Err::<(), DmacError>(DmacError::ChannelBusy)
                && final(self).dmac.channels@ == old(self).dmac.channels@
                && final(self).dmac.chen == old(self).dmac.chen
                && final(self).dmac.dmac_en == old(self).dmac.dmac_en
                && final(self).dmac.int_en == old(self).dmac.int_en,
            !old(self).busy(channel) ==> r.is_ok() && final(self).dmac.channels@
                == old(self).dmac.channels@.update(
                ch_nr(channel),
                configured_channel(
                    ChannelRegs { int_status: 0, ..old(self).dmac.channels@[ch_nr(channel)] },
                    ch_nr(channel),
                    src,
                    dst,
                    src_inc,
                    dst_inc,
                    trans_width,
                    burst_size,
                    block_size,
                ),
            ) && final(self).dmac.chen == with_bit(old(self).dmac.chen, ch_nr(channel) as u32, true)
                && final(self).dmac.dmac_en && final(self).dmac.int_en,
            final(self).dmac.com_int_status == old(self).dmac.com_int_status,
            final(self).dmac.id == old(self).dmac.id,
            final(self).dmac.compver == old(self).dmac.compver,
    {
        if self.is_channel_busy(channel) {
            return Err(DmacError::ChannelBusy);
        }
        self.channel_interrupt_clear(channel);
        let _ = self.set_channel_param(
            channel,
            src,
            dst,
            src_inc,
            dst_inc,
            trans_width,
            burst_size,
            block_size,
        );
        self.enable();
        self.channel_enable(channel);
        Ok(())
    }
}

} // verus!
