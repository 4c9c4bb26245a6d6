use lt7683::encoding::{
    bte_color, eighths_minus_one, encode_color, expand_rgb565, high_byte, last_index, low_byte,
    minus_one, refresh_interval, scale_code, text_control,
};
use lt7683::{ColorDepth, DisplayConfig, Register};

#[test]
fn register_map_addresses() {
    assert_eq!(Register::Srr.address(), 0x00);
    assert_eq!(Register::Ccr.address(), 0x01);
    assert_eq!(Register::Mrwdp.address(), 0x04);
    assert_eq!(Register::Dpcr.address(), 0x12);
    assert_eq!(Register::Fgcr.address(), 0xD2);
    assert_eq!(Register::Sdrar.address(), 0xE0);
    assert_eq!(Register::BteCtrl0.address(), 0x90);
    assert_eq!(Register::Dcr1.address(), 0x76);
    assert_eq!(Register::BteHig1.address(), 0xB4);
    assert_eq!(Register::CgramStr0.address(), 0xDB);
    assert_eq!(Register::Gpiod.address(), 0xF6);
}

#[test]
fn color_depth_codes() {
    assert_eq!(ColorDepth::Bpp8.code(), 0x00);
    assert_eq!(ColorDepth::Bpp16.code(), 0x01);
    assert_eq!(ColorDepth::Bpp24.code(), 0x02);
}

#[test]
fn default_config_values() {
    let c = DisplayConfig::new();
    assert_eq!(c.width, 1024);
    assert_eq!(c.height, 600);
    assert_eq!(c.h_back_porch, 160);
    assert_eq!(c.h_front_porch, 160);
    assert_eq!(c.h_sync_width, 70);
    assert_eq!(c.v_back_porch, 23);
    assert_eq!(c.v_front_porch, 12);
    assert_eq!(c.v_sync_width, 10);
    assert_eq!(c.color_depth, ColorDepth::Bpp16);
    assert_eq!(DisplayConfig::default(), c);
}

#[test]
fn color_encoding_per_depth() {
    assert_eq!(encode_color(ColorDepth::Bpp16, 0x0012FFAA), (0x10, 0xFC, 0xA8));
    assert_eq!(encode_color(ColorDepth::Bpp24, 0x0012FFAA), (0x12, 0xFF, 0xAA));
    assert_eq!(encode_color(ColorDepth::Bpp8, 0x0012FFAA), (0x00, 0xE0, 0x80));
    // The top byte is ignored.
    assert_eq!(encode_color(ColorDepth::Bpp24, 0xFF123456), (0x12, 0x34, 0x56));
}

#[test]
fn rgb565_expansion() {
    assert_eq!(expand_rgb565(0xFFFF), (0xF8, 0xFC, 0xF8));
    assert_eq!(expand_rgb565(0xF800), (0xF8, 0x00, 0x00));
    assert_eq!(expand_rgb565(0x07E0), (0x00, 0xFC, 0x00));
    assert_eq!(expand_rgb565(0x001F), (0x00, 0x00, 0xF8));
}

#[test]
fn text_scale_clamping() {
    assert_eq!(scale_code(5), 3);
    assert_eq!(scale_code(0), 0);
    assert_eq!(scale_code(1), 0);
    assert_eq!(scale_code(3), 2);
    assert_eq!(scale_code(255), 3);
    assert_eq!(text_control(5, 0, false), 0x03);
    assert_eq!(text_control(1, 4, false), 0x0C);
    assert_eq!(text_control(2, 2, true), 0x45);
}

#[test]
fn timing_arithmetic() {
    assert_eq!(eighths_minus_one(1024), 127);
    assert_eq!(1024u16 % 8, 0);
    assert_eq!(eighths_minus_one(160), 19);
    assert_eq!(eighths_minus_one(70), 7);
    assert_eq!(eighths_minus_one(4), 255);
    assert_eq!(minus_one(23), 22);
    assert_eq!(minus_one(0), 255);
    assert_eq!(last_index(600), 599);
    assert_eq!(last_index(0), 65535);
}

#[test]
fn little_endian_split() {
    assert_eq!(low_byte(300), 0x2C);
    assert_eq!(high_byte(300), 0x01);
    assert_eq!(low_byte(0xABCD), 0xCD);
    assert_eq!(high_byte(0xABCD), 0xAB);
}

#[test]
fn sdram_refresh_formula() {
    assert_eq!(refresh_interval(100), 779);
    assert_eq!(refresh_interval(1), 5);
    assert_eq!(refresh_interval(1000), 7810);
}

#[test]
fn bte_depth_descriptor() {
    assert_eq!(bte_color(ColorDepth::Bpp8), 0x00);
    assert_eq!(bte_color(ColorDepth::Bpp16), 0x25);
    assert_eq!(bte_color(ColorDepth::Bpp24), 0x4A);
}
