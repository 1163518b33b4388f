use k210_hal::clock::Clocks;
use k210_hal::dvp::{Dvp, DvpExt, DvpRegs, ImageFormat};
use k210_hal::time::Hertz;

fn dvp() -> Dvp {
    DvpRegs {
        scl_lcnt: 0,
        scl_hcnt: 0,
        clk_div: 0,
        clk_enable: false,
        power_down: true,
        reset: false,
        burst_size_4beats: false,
        gm_mlen_byte4: false,
        href_burst_num: 0,
        line_num: 0,
        format: ImageFormat::RGB,
        rgb_addr: 0,
        display_output_enable: false,
        auto_enable: false,
    }
    .constrain()
}

#[test]
fn sccb_clock() {
    let mut d = dvp();
    d.sccb_clk_init();
    assert_eq!((d.dvp.scl_lcnt, d.dvp.scl_hcnt), (255, 255));
    let clocks = Clocks::new();
    // The fastest SCCB clock that does not exceed 1 MHz.
    assert_eq!(d.sccb_clk_set_rate(Hertz(1_000_000), &clocks), Hertz(994_897));
    assert_eq!(d.dvp.scl_lcnt, 98);
    // A slow rate is held at the largest count.
    assert_eq!(d.sccb_clk_set_rate(Hertz(100_000), &clocks), Hertz(382_352));
    assert_eq!(d.dvp.scl_hcnt, 255);
    // A rate above the source is held at the smallest count.
    assert_eq!(d.sccb_clk_set_rate(Hertz(400_000_000), &clocks), Hertz(97_500_000));
    assert_eq!(d.dvp.scl_lcnt, 1);
}

#[test]
fn camera_clock() {
    let mut d = dvp();
    let clocks = Clocks::new();
    // 24.375 MHz would exceed 24 MHz: the next divider is taken.
    assert_eq!(d.set_xclk_rate(Hertz(24_000_000), &clocks), Hertz(19_500_000));
    assert_eq!(d.dvp.clk_div, 4);
    assert!(d.dvp.clk_enable);
    assert!(!d.dvp.power_down);
    assert!(d.dvp.reset);
    assert_eq!(d.set_xclk_rate(Hertz(200_000_000), &clocks), Hertz(97_500_000));
    assert_eq!(d.dvp.clk_div, 0);
    assert_eq!(d.set_xclk_rate(Hertz(1), &clocks), Hertz(380_859));
    assert_eq!(d.dvp.clk_div, 255);
}

#[test]
fn image_settings() {
    let mut d = dvp();
    d.set_image_size(true, 320, 240);
    assert_eq!(d.dvp.href_burst_num, 10);
    assert!(d.dvp.burst_size_4beats);
    assert!(d.dvp.gm_mlen_byte4);
    assert_eq!(d.dvp.line_num, 240);
    d.set_image_size(false, 320, 240);
    assert_eq!(d.dvp.href_burst_num, 40);
    d.set_image_size(false, 65_535, 1);
    assert_eq!(d.dvp.href_burst_num, 255);
    d.set_image_format(ImageFormat::YUV);
    assert_eq!(d.dvp.format, ImageFormat::YUV);
    d.set_display_addr(Some(0x8040_0000));
    assert_eq!(d.dvp.rgb_addr, 0x8040_0000);
    assert!(d.dvp.display_output_enable);
    d.set_display_addr(None);
    assert!(!d.dvp.display_output_enable);
    d.set_auto(true);
    assert!(d.dvp.auto_enable);
}
