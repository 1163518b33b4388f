use k210_hal::dmac::{
    is_memory, ChannelCfg, ChannelCtl, ChannelRegs, DmacChannel, DmacError, DmacExt, DmacRegs,
    DmacSrcDstSelect, FlowControl, Handshake, Inc, MemType, Msize, Sms, TrWidth,
};
use k210_hal::sysctl::Sysctl;

fn channel() -> ChannelRegs {
    ChannelRegs {
        cfg: ChannelCfg {
            tt_fc: FlowControl::MEM2MEM_DMA,
            hs_sel_src: Handshake::HARDWARE,
            hs_sel_dst: Handshake::HARDWARE,
            src_per: 0,
            dst_per: 0,
            src_multblk_type: 0,
            dst_multblk_type: 0,
        },
        ctl: ChannelCtl {
            sms: Sms::AXI_MASTER_1,
            dms: Sms::AXI_MASTER_1,
            sinc: Inc::NOCHANGE,
            dinc: Inc::NOCHANGE,
            src_tr_width: TrWidth::WIDTH_8,
            dst_tr_width: TrWidth::WIDTH_8,
            src_msize: Msize::LENGTH_1,
            dst_msize: Msize::LENGTH_1,
        },
        sar: 0,
        dar: 0,
        block_ts: 0,
        int_status: 0,
    }
}

fn regs() -> DmacRegs {
    DmacRegs {
        id: 0x1234,
        compver: 0x5678,
        dmac_en: false,
        int_en: false,
        com_int_status: 0x10f,
        chen: 0,
        channels: vec![channel(); 6],
    }
}

#[test]
fn address_classification() {
    assert_eq!(is_memory(0x8000_0000), MemType::Memory);
    assert_eq!(is_memory(0x805f_ffff), MemType::Memory);
    assert_eq!(is_memory(0x8060_0000), MemType::Peripheral);
    assert_eq!(is_memory(0x4000_0000), MemType::Memory);
    assert_eq!(is_memory(0x407f_ffff), MemType::Memory);
    assert_eq!(is_memory(0x4080_0000), MemType::Peripheral);
    assert_eq!(is_memory(0x5045_0040), MemType::Memory);
    assert_eq!(is_memory(0x5045_0044), MemType::Peripheral);
}

#[test]
fn init_resets_controller() {
    let mut r = regs();
    r.chen = 0b10_1010;
    r.channels[2].int_status = 7;
    let mut dmac = r.constrain();
    let mut sys = Sysctl {
        pll0_clkr: 0,
        pll0_clkf: 0,
        pll0_clkod: 0,
        pll0_bwadj: 0,
        pll0_reset: false,
        pll0_pwrd: false,
        pll0_bypass: false,
        pll0_out_en: false,
        pll_lock0: 0,
        aclk_sel: false,
        aclk_divider_sel: 0,
        apb0_clk_sel: 0,
        apb1_clk_sel: 0,
        apb2_clk_sel: 0,
        spi0_clk: 0,
        spi1_clk: 0,
        apb0_clk_en: false,
        apb2_clk_en: false,
        fpioa_clk_en: false,
        dma_clk_en: false,
    };
    dmac.init(&mut sys);
    assert!(sys.dma_clk_en);
    assert_eq!(dmac.dmac.chen, 0);
    assert_eq!(dmac.dmac.com_int_status, 0);
    assert_eq!(dmac.dmac.channels[2].int_status, 0);
    assert!(dmac.dmac.dmac_en);
    assert!(dmac.dmac.int_en);
    assert_eq!(dmac.id(), 0x1234);
    assert_eq!(dmac.version(), 0x5678);
}

#[test]
fn busy_channel_keeps_its_configuration() {
    let mut dmac = regs().constrain();
    dmac.channel_enable(DmacChannel::Channel2);
    assert!(dmac.is_channel_busy(DmacChannel::Channel2));
    assert!(!dmac.is_channel_idle(DmacChannel::Channel2));
    assert!(dmac.is_channel_idle(DmacChannel::Channel1));
    let before = dmac.dmac.channels.clone();
    let r = dmac.set_channel_param(
        DmacChannel::Channel2,
        0x8000_0000,
        0x5000_0000,
        Inc::INCREMENT,
        Inc::NOCHANGE,
        TrWidth::WIDTH_32,
        Msize::LENGTH_4,
        16,
    );
    assert_eq!(r, Err(DmacError::ChannelBusy));
    assert_eq!(dmac.dmac.channels, before);
    let r = dmac.set_list_master_select(
        DmacChannel::Channel2,
        DmacSrcDstSelect::Source,
        Sms::AXI_MASTER_2,
    );
    assert_eq!(r, Err(DmacError::ChannelBusy));
    assert_eq!(dmac.dmac.channels, before);
    assert!(!dmac.wait_done(DmacChannel::Channel2));
}

#[test]
fn idle_channel_takes_configuration() {
    let mut dmac = regs().constrain();
    let r = dmac.set_channel_param(
        DmacChannel::Channel3,
        0x8000_0000,
        0x5000_0000,
        Inc::INCREMENT,
        Inc::NOCHANGE,
        TrWidth::WIDTH_32,
        Msize::LENGTH_4,
        16,
    );
    assert_eq!(r, Ok(()));
    let ch = dmac.dmac.channels[3];
    assert_eq!(ch.cfg.tt_fc, FlowControl::MEM2PRF_DMA);
    assert_eq!(ch.cfg.hs_sel_src, Handshake::SOFTWARE);
    assert_eq!(ch.cfg.hs_sel_dst, Handshake::HARDWARE);
    assert_eq!(ch.cfg.src_per, 3);
    assert_eq!(ch.sar, 0x8000_0000);
    assert_eq!(ch.dar, 0x5000_0000);
    assert_eq!(ch.ctl.sms, Sms::AXI_MASTER_1);
    assert_eq!(ch.ctl.dms, Sms::AXI_MASTER_2);
    assert_eq!(ch.ctl.sinc, Inc::INCREMENT);
    assert_eq!(ch.ctl.src_tr_width, TrWidth::WIDTH_32);
    assert_eq!(ch.ctl.dst_msize, Msize::LENGTH_4);
    assert_eq!(ch.block_ts, 15);
    assert_eq!(dmac.dmac.channels[2], channel());
}

#[test]
fn flow_control_combinations() {
    let mut dmac = regs().constrain();
    let cases = [
        (0x8000_0000u64, 0x4000_0000u64, FlowControl::MEM2MEM_DMA),
        (0x5000_0000, 0x8000_0000, FlowControl::PRF2MEM_DMA),
        (0x5000_0000, 0x5100_0000, FlowControl::PRF2PRF_DMA),
    ];
    for (src, dst, fc) in cases {
        dmac.set_channel_param(
            DmacChannel::Channel0,
            src,
            dst,
            Inc::INCREMENT,
            Inc::INCREMENT,
            TrWidth::WIDTH_8,
            Msize::LENGTH_1,
            1,
        )
        .unwrap();
        assert_eq!(dmac.dmac.channels[0].cfg.tt_fc, fc);
        assert_eq!(dmac.dmac.channels[0].block_ts, 0);
    }
}

#[test]
fn single_mode_starts_channel() {
    let mut dmac = regs().constrain();
    dmac.dmac.channels[5].int_status = 3;
    let r = dmac.set_single_mode(
        DmacChannel::Channel5,
        0x8000_0000,
        0x8000_1000,
        Inc::INCREMENT,
        Inc::INCREMENT,
        TrWidth::WIDTH_64,
        Msize::LENGTH_8,
        256,
    );
    assert_eq!(r, Ok(()));
    assert!(dmac.is_channel_busy(DmacChannel::Channel5));
    assert_eq!(dmac.dmac.channels[5].int_status, 0);
    assert_eq!(dmac.dmac.channels[5].block_ts, 255);
    assert_eq!(dmac.dmac.channels[5].cfg.tt_fc, FlowControl::MEM2MEM_DMA);
    assert!(dmac.dmac.dmac_en);
    dmac.channel_disable(DmacChannel::Channel5);
    assert!(dmac.wait_done(DmacChannel::Channel5));
}

#[test]
fn single_mode_refuses_busy_channel() {
    let mut dmac = regs().constrain();
    dmac.channel_enable(DmacChannel::Channel4);
    dmac.dmac.channels[4].int_status = 3;
    let before = dmac.dmac.channels.clone();
    let r = dmac.set_single_mode(
        DmacChannel::Channel4,
        0x8000_0000,
        0x8000_1000,
        Inc::INCREMENT,
        Inc::INCREMENT,
        TrWidth::WIDTH_64,
        Msize::LENGTH_8,
        256,
    );
    assert_eq!(r, Err(DmacError::ChannelBusy));
    assert_eq!(dmac.dmac.channels, before);
    assert!(dmac.is_channel_busy(DmacChannel::Channel4));
    assert!(!dmac.dmac.dmac_en);
}

#[test]
fn list_master_select_on_idle_channel() {
    let mut dmac = regs().constrain();
    dmac.set_list_master_select(DmacChannel::Channel1, DmacSrcDstSelect::Destination, Sms::AXI_MASTER_2)
        .unwrap();
    assert_eq!(dmac.dmac.channels[1].ctl.sms, Sms::AXI_MASTER_1);
    assert_eq!(dmac.dmac.channels[1].ctl.dms, Sms::AXI_MASTER_2);
    dmac.set_list_master_select(DmacChannel::Channel1, DmacSrcDstSelect::SourceDestination, Sms::AXI_MASTER_2)
        .unwrap();
    assert_eq!(dmac.dmac.channels[1].ctl.sms, Sms::AXI_MASTER_2);
}
