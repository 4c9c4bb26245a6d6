use vstd::prelude::*;

use crate::config::{ColorDepth, DisplayConfig};
use crate::encoding::{
    spec_eighths_minus_one, spec_encode_color, spec_expand_rgb565, spec_high_byte, spec_low_byte,
    spec_minus_one, spec_refresh_interval, spec_text_control, spec_last_index, spec_bte_color,
};
use crate::registers::Register;
use crate::trace::{write_events, writes_trace, Event};

verus! {

/// Memory clock that the PLL settings below produce, in MHz.
pub const MEMORY_CLOCK_MHZ: u32 = 100;

/// Pause that lets the PLLs latch their new settings (10 us).
pub const PLL_LATCH_NS: u32 = 10_000;

/// Pause after the PLLs are switched on (1 ms).
pub const PLL_SETTLE_NS: u32 = 1_000_000;

/// Pause after the SDRAM initialization is started (10 ms).
pub const SDRAM_SETTLE_NS: u32 = 10_000_000;

/// The foreground color registers for `color` at `depth`.
pub open spec fn foreground_writes(depth: ColorDepth, color: u32) -> Seq<(Register, u8)> {
    let c = spec_encode_color(depth, color);
    seq![(Register::Fgcr, c.0), (Register::Fgcg, c.1), (Register::Fgcb, c.2)]
}

/// The background color registers for `color` at `depth`.
pub open spec fn background_writes(depth: ColorDepth, color: u32) -> Seq<(Register, u8)> {
    let c = spec_encode_color(depth, color);
    seq![(Register::Bgcr, c.0), (Register::Bgcg, c.1), (Register::Bgcb, c.2)]
}

/// The foreground color registers for a packed RGB 5:6:5 color.
pub open spec fn foreground_rgb565_writes(color: u16) -> Seq<(Register, u8)> {
    let c = spec_expand_rgb565(color);
    seq![(Register::Fgcr, c.0), (Register::Fgcg, c.1), (Register::Fgcb, c.2)]
}

/// A two-point shape of the drawing engine: the foreground color, point 1,
/// point 2 (each coordinate low byte first), then `start` to run the engine.
pub open spec fn shape_writes(
    depth: ColorDepth,
    x1: u16,
    y1: u16,
    x2: u16,
    y2: u16,
    color: u32,
    start: (Register, u8),
) -> Seq<(Register, u8)> {
    let c = spec_encode_color(depth, color);
    seq![
        (Register::Fgcr, c.0),
        (Register::Fgcg, c.1),
        (Register::Fgcb, c.2),
        (Register::Dlhsr1, spec_low_byte(x1)),
        (Register::Dlhsr2, spec_high_byte(x1)),
        (Register::Dlvsr1, spec_low_byte(y1)),
        (Register::Dlvsr2, spec_high_byte(y1)),
        (Register::Dlher1, spec_low_byte(x2)),
        (Register::Dlher2, spec_high_byte(x2)),
        (Register::Dlver1, spec_low_byte(y2)),
        (Register::Dlver2, spec_high_byte(y2)),
        start,
    ]
}

/// A line from (x1, y1) to (x2, y2): started by Dcr0 = 0x80.
pub open spec fn line_writes(depth: ColorDepth, x1: u16, y1: u16, x2: u16, y2: u16, color: u32) -> Seq<
    (Register, u8),
> {
    shape_writes(depth, x1, y1, x2, y2, color, (Register::Dcr0, 0x80))
}

/// A filled rectangle with corners (x1, y1) and (x2, y2): started by
/// Dcr1 = 0xE0.
pub open spec fn filled_rectangle_writes(
    depth: ColorDepth,
    x1: u16,
    y1: u16,
    x2: u16,
    y2: u16,
    color: u32,
) -> Seq<(Register, u8)> {
    shape_writes(depth, x1, y1, x2, y2, color, (Register::Dcr1, 0xE0))
}

/// The filled rectangle that covers the whole panel of `config`.
pub open spec fn clear_screen_writes(config: DisplayConfig, color: u32) -> Seq<(Register, u8)> {
    filled_rectangle_writes(
        config.color_depth,
        0,
        0,
        spec_last_index(config.width),
        spec_last_index(config.height),
        color,
    )
}

/// The active window: upper-left corner, width and height, each low byte
/// first.
pub open spec fn window_writes(x: u16, y: u16, width: u16, height: u16) -> Seq<(Register, u8)> {
    seq![
        (Register::AwulX1, spec_low_byte(x)),
        (Register::AwulX2, spec_high_byte(x)),
        (Register::AwulY1, spec_low_byte(y)),
        (Register::AwulY2, spec_high_byte(y)),
        (Register::AwWth1, spec_low_byte(width)),
        (Register::AwWth2, spec_high_byte(width)),
        (Register::AwHt1, spec_low_byte(height)),
        (Register::AwHt2, spec_high_byte(height)),
    ]
}

/// The panel timing registers for `config`: horizontal quantities in units
/// of 8 pixels less one (with the remainder of the width and of the back
/// porch), vertical ones in lines less one.
pub open spec fn timing_writes(config: DisplayConfig) -> Seq<(Register, u8)> {
    seq![
        (Register::Hdwr, spec_eighths_minus_one(config.width)),
        (Register::Hdwftr, (config.width % 8) as u8),
        (Register::Hndr, spec_eighths_minus_one(config.h_back_porch)),
        (Register::Hndftr, (config.h_back_porch % 8) as u8),
        (Register::Hstr, spec_eighths_minus_one(config.h_front_porch)),
        (Register::Hpwr, spec_eighths_minus_one(config.h_sync_width)),
        (Register::Vdhr1, spec_low_byte(spec_last_index(config.height))),
        (Register::Vdhr2, spec_high_byte(spec_last_index(config.height))),
        (Register::Vndr1, spec_minus_one(config.v_back_porch)),
        (Register::Vndr2, 0x00),
        (Register::Vstr, spec_minus_one(config.v_front_porch)),
        (Register::Vpwr, spec_minus_one(config.v_sync_width)),
    ]
}

/// The divider and multiplier pairs of the pixel, memory and core clocks,
/// then the PLLs switched off to take them.
pub open spec fn pll_writes() -> Seq<(Register, u8)> {
    seq![
        (Register::Ppllc1, 0x06),
        (Register::Ppllc2, 39),
        (Register::Mpllc1, 0x04),
        (Register::Mpllc2, 39),
        (Register::Cpllc1, 0x04),
        (Register::Cpllc2, 39),
        (Register::Ccr, 0x00),
    ]
}

/// The PLL bring-up: the settings, a 10 us pause, the PLLs switched on, and
/// a 1 ms pause.
pub open spec fn pll_events() -> Seq<Event> {
    writes_trace(pll_writes()) + seq![Event::Pause(PLL_LATCH_NS)] + write_events(
        Register::Ccr,
        0x80,
    ) + seq![Event::Pause(PLL_SETTLE_NS)]
}

/// The SDRAM attributes, CAS latency 3, the refresh interval for the memory
/// clock (low byte first), and the start of its initialization.
pub open spec fn sdram_writes() -> Seq<(Register, u8)> {
    let refresh = spec_refresh_interval(MEMORY_CLOCK_MHZ);
    seq![
        (Register::Sdrar, 0x29),
        (Register::Sdrmd, 0x03),
        (Register::SdrRef1, spec_low_byte(refresh)),
        (Register::SdrRef2, spec_high_byte(refresh)),
        (Register::Sdrcr, 0x01),
    ]
}

/// The SDRAM bring-up: its registers, then a 10 ms pause.
pub open spec fn sdram_events() -> Seq<Event> {
    writes_trace(sdram_writes()) + seq![Event::Pause(SDRAM_SETTLE_NS)]
}

/// TFT 24-bit output with an 8-bit host bus, 16 bpp host access, and
/// graphic mode.
pub open spec fn mode_writes() -> Seq<(Register, u8)> {
    seq![(Register::Ccr, 0x80), (Register::Macr, 0x40), (Register::Icr, 0x00)]
}

/// Bytes per row of the canvas: the width times the bytes of one pixel,
/// kept to 16 bits.
pub open spec fn image_stride(config: DisplayConfig) -> u16 {
    ((config.width as int * (config.color_depth.spec_code() as int + 1)) % 65536) as u16
}

/// The main image and the canvas, both at address 0 with the row stride of
/// the panel.
pub open spec fn image_writes(config: DisplayConfig) -> Seq<(Register, u8)> {
    let stride = image_stride(config);
    seq![
        (Register::Mpwctr, 0x04),
        (Register::Misa1, 0x00),
        (Register::Misa2, 0x00),
        (Register::Misa3, 0x00),
        (Register::Misa4, 0x00),
        (Register::Miw1, spec_low_byte(stride)),
        (Register::Miw2, spec_high_byte(stride)),
        (Register::Cvssa1, 0x00),
        (Register::Cvssa2, 0x00),
        (Register::Cvssa3, 0x00),
        (Register::Cvssa4, 0x00),
        (Register::CvsImwth1, spec_low_byte(stride)),
        (Register::CvsImwth2, spec_high_byte(stride)),
    ]
}

/// The main window: the image and canvas, the active window over the whole
/// panel, and the color depth of the canvas.
pub open spec fn main_window_writes(config: DisplayConfig) -> Seq<(Register, u8)> {
    image_writes(config) + window_writes(0, 0, config.width, config.height) + seq![
        (Register::AwColor, config.color_depth.spec_code()),
    ]
}

/// The accesses of the main window setup.
pub open spec fn main_window_events(config: DisplayConfig) -> Seq<Event> {
    writes_trace(main_window_writes(config))
}

/// Text setup: the internal character ROM, the scale codes (with the
/// transparent-background bit when there is no background color), the
/// background and foreground colors, text mode, and the cursor at (x, y).
pub open spec fn text_setup_writes(
    depth: ColorDepth,
    x: u16,
    y: u16,
    background: Option<u32>,
    foreground: u32,
    scale_x: u8,
    scale_y: u8,
) -> Seq<(Register, u8)> {
    seq![
        (Register::Ccr0, 0x00),
        (Register::Ccr1, spec_text_control(scale_x, scale_y, background is None)),
    ] + match background {
        Some(b) => background_writes(depth, b),
        None => Seq::empty(),
    } + foreground_writes(depth, foreground) + seq![
        (Register::Icr, 0x04),
        (Register::FCurx1, spec_low_byte(x)),
        (Register::FCurx2, spec_high_byte(x)),
        (Register::FCury1, spec_low_byte(y)),
        (Register::FCury2, spec_high_byte(y)),
    ]
}

/// Each byte of the text written to the memory data port.
pub open spec fn text_bytes_writes(bytes: Seq<u8>) -> Seq<(Register, u8)> {
    bytes.map_values(|b: u8| (Register::Mrwdp, b))
}

/// A block-transfer solid fill of the rectangle at (x, y): the color, the
/// destination at canvas address 0 with the panel's width, the rectangle,
/// the fill operation, and the enable.
pub open spec fn solid_fill_writes(
    config: DisplayConfig,
    x: u16,
    y: u16,
    width: u16,
    height: u16,
    color: u32,
) -> Seq<(Register, u8)> {
    let c = spec_encode_color(config.color_depth, color);
    seq![
        (Register::Fgcr, c.0),
        (Register::Fgcg, c.1),
        (Register::Fgcb, c.2),
        (Register::DtStr0, 0x00),
        (Register::DtStr1, 0x00),
        (Register::DtStr2, 0x00),
        (Register::DtStr3, 0x00),
        (Register::DtX0, spec_low_byte(x)),
        (Register::DtX1, spec_high_byte(x)),
        (Register::DtY0, spec_low_byte(y)),
        (Register::DtY1, spec_high_byte(y)),
        (Register::BteColr, spec_bte_color(config.color_depth)),
        (Register::DtWth0, spec_low_byte(config.width)),
        (Register::DtWth1, spec_high_byte(config.width)),
        (Register::BteWth0, spec_low_byte(width)),
        (Register::BteWth1, spec_high_byte(width)),
        (Register::BteHig0, spec_low_byte(height)),
        (Register::BteHig1, spec_high_byte(height)),
        (Register::BteCtrl1, 0x0C),
        (Register::BteCtrl0, 0x10),
    ]
}

/// A block-transfer copy within the canvas: source 0 and destination both at
/// canvas address 0 with the panel's width, their corners, the rectangle,
/// the color depths, the copy operation, and the enable.
pub open spec fn memory_copy_writes(
    config: DisplayConfig,
    src_x: u16,
    src_y: u16,
    dst_x: u16,
    dst_y: u16,
    width: u16,
    height: u16,
) -> Seq<(Register, u8)> {
    seq![
        (Register::S0Str0, 0x00),
        (Register::S0Str1, 0x00),
        (Register::S0Str2, 0x00),
        (Register::S0Str3, 0x00),
        (Register::S0Wth0, spec_low_byte(config.width)),
        (Register::S0Wth1, spec_high_byte(config.width)),
        (Register::S0X0, spec_low_byte(src_x)),
        (Register::S0X1, spec_high_byte(src_x)),
        (Register::S0Y0, spec_low_byte(src_y)),
        (Register::S0Y1, spec_high_byte(src_y)),
        (Register::DtStr0, 0x00),
        (Register::DtStr1, 0x00),
        (Register::DtStr2, 0x00),
        (Register::DtStr3, 0x00),
        (Register::DtWth0, spec_low_byte(config.width)),
        (Register::DtWth1, spec_high_byte(config.width)),
        (Register::DtX0, spec_low_byte(dst_x)),
        (Register::DtX1, spec_high_byte(dst_x)),
        (Register::DtY0, spec_low_byte(dst_y)),
        (Register::DtY1, spec_high_byte(dst_y)),
        (Register::BteWth0, spec_low_byte(width)),
        (Register::BteWth1, spec_high_byte(width)),
        (Register::BteHig0, spec_low_byte(height)),
        (Register::BteHig1, spec_high_byte(height)),
        (Register::BteColr, spec_bte_color(config.color_depth)),
        (Register::BteCtrl1, 0xC2),
        (Register::BteCtrl0, 0x10),
    ]
}

} // verus!
