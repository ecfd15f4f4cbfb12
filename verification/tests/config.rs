use esp_cam_bindings::config::{init_result, InitError, PIN_UNSET};
use esp_cam_bindings::{
    FrameBufferLocation, FrameSize, GrabMode, InitConfig, LedcChannel0, LedcTimer0, PixelFormat,
};

fn demo_config() -> InitConfig {
    InitConfig {
        pin_pwdn: 32,
        pin_reset: None,
        pin_xclk: 0,
        pin_sccb_sda: 26,
        pin_sccb_scl: 27,
        pin_d7: 35,
        pin_d6: 34,
        pin_d5: 39,
        pin_d4: 36,
        pin_d3: 21,
        pin_d2: 19,
        pin_d1: 18,
        pin_d0: 5,
        pin_vsync: 25,
        pin_href: 23,
        pin_pclk: 22,
        xclk_freq_hz: 20_000_000,
        ledc_timer: LedcTimer0,
        ledc_channel: LedcChannel0,
        pixel_format: PixelFormat::Jpeg,
        frame_size: FrameSize::Hd,
        jpeg_quality: 5,
        fb_count: 5,
        fb_location: FrameBufferLocation::Autodetect,
        grab_mode: GrabMode::Latest,
        sccb_i2c_port: 0,
    }
}

#[test]
fn pixel_format_codes_match_driver_abi() {
    assert_eq!(PixelFormat::Rgb565.code(), 0);
    assert_eq!(PixelFormat::Yuv422.code(), 1);
    assert_eq!(PixelFormat::Yuv420.code(), 2);
    assert_eq!(PixelFormat::Grayscale.code(), 3);
    assert_eq!(PixelFormat::Jpeg.code(), 4);
    assert_eq!(PixelFormat::Rgb888.code(), 5);
    assert_eq!(PixelFormat::Raw.code(), 6);
    assert_eq!(PixelFormat::Rgb444.code(), 7);
    assert_eq!(PixelFormat::Rgb555.code(), 8);
}

#[test]
fn grab_mode_and_location_codes_match_driver_abi() {
    assert_eq!(GrabMode::WhenEmpty.code(), 0);
    assert_eq!(GrabMode::Latest.code(), 1);
    assert_eq!(FrameBufferLocation::Psram.code(), 0);
    assert_eq!(FrameBufferLocation::Dram.code(), 1);
}

#[test]
fn frame_size_codes_match_driver_abi() {
    assert_eq!(FrameSize::Size96x96.code(), 0);
    assert_eq!(FrameSize::Qqvga.code(), 1);
    assert_eq!(FrameSize::Qcif.code(), 2);
    assert_eq!(FrameSize::Hqvga.code(), 3);
    assert_eq!(FrameSize::Size240x240.code(), 4);
    assert_eq!(FrameSize::Qvga.code(), 5);
    assert_eq!(FrameSize::Cif.code(), 6);
    assert_eq!(FrameSize::Hvga.code(), 7);
    assert_eq!(FrameSize::Vga.code(), 8);
    assert_eq!(FrameSize::Svga.code(), 9);
    assert_eq!(FrameSize::Xga.code(), 10);
    assert_eq!(FrameSize::Hd.code(), 11);
    assert_eq!(FrameSize::Sxga.code(), 12);
    assert_eq!(FrameSize::Uxga.code(), 13);
    assert_eq!(FrameSize::Fhd.code(), 14);
    assert_eq!(FrameSize::Phd.code(), 15);
    assert_eq!(FrameSize::P3mp.code(), 16);
    assert_eq!(FrameSize::Qxga.code(), 17);
    assert_eq!(FrameSize::Qhd.code(), 18);
    assert_eq!(FrameSize::Wqxga.code(), 19);
    assert_eq!(FrameSize::Pfhd.code(), 20);
    assert_eq!(FrameSize::Qsxga.code(), 21);
    assert_eq!(FrameSize::Invalid.code(), 22);
}

#[test]
fn translation_fills_the_whole_record() {
    let cfg = demo_config();
    assert!(cfg.valid());
    let rec = cfg.driver_config(0);
    assert_eq!(rec.pin_pwdn, 32);
    assert_eq!(rec.pin_reset, PIN_UNSET);
    assert_eq!(rec.pin_xclk, 0);
    assert_eq!(rec.pin_sccb_sda, 26);
    assert_eq!(rec.pin_sccb_scl, 27);
    assert_eq!(rec.pin_d7, 35);
    assert_eq!(rec.pin_d6, 34);
    assert_eq!(rec.pin_d5, 39);
    assert_eq!(rec.pin_d4, 36);
    assert_eq!(rec.pin_d3, 21);
    assert_eq!(rec.pin_d2, 19);
    assert_eq!(rec.pin_d1, 18);
    assert_eq!(rec.pin_d0, 5);
    assert_eq!(rec.pin_vsync, 25);
    assert_eq!(rec.pin_href, 23);
    assert_eq!(rec.pin_pclk, 22);
    assert_eq!(rec.xclk_freq_hz, 20_000_000);
    assert_eq!(rec.ledc_timer, 0);
    assert_eq!(rec.ledc_channel, 0);
    assert_eq!(rec.pixel_format, 4);
    assert_eq!(rec.frame_size, 11);
    assert_eq!(rec.jpeg_quality, 5);
    assert_eq!(rec.fb_count, 5);
    assert_eq!(rec.grab_mode, 1);
    assert_eq!(rec.sccb_i2c_port, 0);
}

#[test]
fn absent_reset_pin_becomes_sentinel_present_stays() {
    let mut cfg = demo_config();
    cfg.pin_reset = Some(4);
    let rec = cfg.driver_config(0);
    assert_eq!(rec.pin_reset, 4);
    cfg.pin_reset = None;
    let rec = cfg.driver_config(0);
    assert_eq!(rec.pin_reset, -1);
}

#[test]
fn autodetect_is_resolved_before_the_driver_sees_it() {
    let cfg = demo_config();
    // With no external capacity the record carries the internal region's
    // code; with capacity, the external region's code. Never a third value.
    let rec = cfg.driver_config(0);
    assert_eq!(rec.fb_location, FrameBufferLocation::Dram.code());
    let rec = cfg.driver_config(2 * 1024 * 1024);
    assert_eq!(rec.fb_location, FrameBufferLocation::Psram.code());
}

#[test]
fn explicit_location_is_translated_unchanged() {
    let mut cfg = demo_config();
    cfg.fb_location = FrameBufferLocation::Psram;
    let rec = cfg.driver_config(0);
    assert_eq!(rec.fb_location, FrameBufferLocation::Psram.code());
}

#[test]
fn init_result_zero_is_ok() {
    assert_eq!(init_result(0), Ok(()));
}

#[test]
fn init_result_nonzero_carries_the_code() {
    assert_eq!(init_result(261), Err(InitError { code: 261 }));
    assert_eq!(init_result(-1), Err(InitError { code: -1 }));
}

#[test]
fn valid_accepts_the_demo_wiring() {
    assert!(demo_config().valid());
}

#[test]
fn valid_rejects_a_duplicate_pin() {
    let mut cfg = demo_config();
    cfg.pin_d0 = cfg.pin_vsync;
    assert!(!cfg.valid());
}

#[test]
fn valid_rejects_zero_frame_buffers() {
    let mut cfg = demo_config();
    cfg.fb_count = 0;
    assert!(!cfg.valid());
}

#[test]
fn valid_rejects_the_invalid_frame_size_sentinel() {
    let mut cfg = demo_config();
    cfg.frame_size = FrameSize::Invalid;
    assert!(!cfg.valid());
}

#[test]
fn valid_rejects_a_clock_too_fast_for_the_record() {
    let mut cfg = demo_config();
    cfg.xclk_freq_hz = 0x8000_0000;
    assert!(!cfg.valid());
}
