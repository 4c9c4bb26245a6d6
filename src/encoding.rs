use vstd::prelude::*;

use crate::config::ColorDepth;

verus! {

/// The low byte of a 16-bit value: the first of the two registers that hold it.
pub open spec fn spec_low_byte(v: u16) -> u8 {
    (v % 256) as u8
}

/// The high byte of a 16-bit value: the second of the two registers that hold it.
pub open spec fn spec_high_byte(v: u16) -> u8 {
    (v / 256) as u8
}

#[verifier::when_used_as_spec(spec_low_byte)]
pub fn low_byte(v: u16) -> (r: u8)
    ensures
        r == spec_low_byte(v),
{
    (v % 256) as u8
}

#[verifier::when_used_as_spec(spec_high_byte)]
pub fn high_byte(v: u16) -> (r: u8)
    ensures
        r == spec_high_byte(v),
{
    (v / 256) as u8
}

/// `v - 1` kept to one byte, wrapping below zero.
pub open spec fn spec_minus_one(v: u16) -> u8 {
    ((v - 1) % 256) as u8
}

/// `v / 8 - 1` kept to one byte, wrapping below zero: the chip counts
/// horizontal periods in units of 8 pixels, less one.
pub open spec fn spec_eighths_minus_one(v: u16) -> u8 {
    ((v / 8 - 1) % 256) as u8
}

/// `v - 1` on 16 bits, wrapping below zero: the last coordinate of a span of `v`.
pub open spec fn spec_last_index(v: u16) -> u16 {
    ((v - 1) % 65536) as u16
}

#[verifier::when_used_as_spec(spec_minus_one)]
pub fn minus_one(v: u16) -> (r: u8)
    ensures
        r == spec_minus_one(v),
{
    if v == 0 {
        255
    } else {
        ((v - 1) % 256) as u8
    }
}

#[verifier::when_used_as_spec(spec_eighths_minus_one)]
pub fn eighths_minus_one(v: u16) -> (r: u8)
    ensures
        r == spec_eighths_minus_one(v),
{
    let q: u16 = v / 8;
    if q == 0 {
        255
    } else {
        ((q - 1) % 256) as u8
    }
}

#[verifier::when_used_as_spec(spec_last_index)]
pub fn last_index(v: u16) -> (r: u16)
    ensures
        r == spec_last_index(v),
{
    if v == 0 {
        65535
    } else {
        v - 1
    }
}

/// The red byte of a packed `0x00RRGGBB` color.
pub open spec fn red_of(color: u32) -> u8 {
    ((color / 0x10000) % 0x100) as u8
}

/// The green byte of a packed `0x00RRGGBB` color.
pub open spec fn green_of(color: u32) -> u8 {
    ((color / 0x100) % 0x100) as u8
}

/// The blue byte of a packed `0x00RRGGBB` color.
pub open spec fn blue_of(color: u32) -> u8 {
    (color % 0x100) as u8
}

/// The red, green and blue register bytes for a packed `0x00RRGGBB` color:
/// each channel keeps the high bits that the pixel format stores.
pub open spec fn spec_encode_color(depth: ColorDepth, color: u32) -> (u8, u8, u8) {
    match depth {
        ColorDepth::Bpp8 => (red_of(color) & 0xE0, green_of(color) & 0xE0, blue_of(color) & 0xC0),
        ColorDepth::Bpp16 => (red_of(color) & 0xF8, green_of(color) & 0xFC, blue_of(color) & 0xF8),
        ColorDepth::Bpp24 => (red_of(color), green_of(color), blue_of(color)),
    }
}

/// Splits a packed `0x00RRGGBB` color into the three color-register bytes
/// for the given pixel format; the top byte of `color` is ignored.
pub fn encode_color(depth: ColorDepth, color: u32) -> (r: (u8, u8, u8))
    ensures
        r == spec_encode_color(depth, color),
{
    let red = ((color / 0x10000) % 0x100) as u8;
    let green = ((color / 0x100) % 0x100) as u8;
    let blue = (color % 0x100) as u8;
    match depth {
        ColorDepth::Bpp8 => (red & 0xE0, green & 0xE0, blue & 0xC0),
        ColorDepth::Bpp16 => (red & 0xF8, green & 0xFC, blue & 0xF8),
        ColorDepth::Bpp24 => (red, green, blue),
    }
}

/// The register bytes for a packed RGB 5:6:5 color: each field moved to the
/// top of its byte.
pub open spec fn spec_expand_rgb565(color: u16) -> (u8, u8, u8) {
    (
        ((color / 2048) % 32 * 8) as u8,
        ((color / 32) % 64 * 4) as u8,
        (color % 32 * 8) as u8,
    )
}

/// Expands a packed RGB 5:6:5 color into the three color-register bytes.
pub fn expand_rgb565(color: u16) -> (r: (u8, u8, u8))
    ensures
        r == spec_expand_rgb565(color),
{
    let red = ((color / 2048) % 32 * 8) as u8;
    let green = ((color / 32) % 64 * 4) as u8;
    let blue = (color % 32 * 8) as u8;
    (red, green, blue)
}

/// The 2-bit enlargement code of a text scale factor: `scale - 1`, floored
/// at 0 and capped at 3.
pub open spec fn spec_scale_code(scale: u8) -> u8 {
    if scale <= 1 {
        0
    } else if scale >= 4 {
        3
    } else {
        (scale - 1) as u8
    }
}

#[verifier::when_used_as_spec(spec_scale_code)]
pub fn scale_code(scale: u8) -> (r: u8)
    ensures
        r == spec_scale_code(scale),
        r <= 3,
{
    let reduced: u8 = if scale == 0 {
        0
    } else {
        scale - 1
    };
    if reduced > 3 {
        3
    } else {
        reduced
    }
}

/// The character control byte (Ccr1): the vertical code in bits 2..3, the
/// horizontal code in bits 0..1, and bit 6 set for a transparent background.
pub open spec fn spec_text_control(scale_x: u8, scale_y: u8, transparent: bool) -> u8 {
    (spec_scale_code(scale_y) * 4 + spec_scale_code(scale_x) + if transparent {
        0x40int
    } else {
        0int
    }) as u8
}

#[verifier::when_used_as_spec(spec_text_control)]
pub fn text_control(scale_x: u8, scale_y: u8, transparent: bool) -> (r: u8)
    ensures
        r == spec_text_control(scale_x, scale_y, transparent),
{
    let codes: u8 = scale_code(scale_y) * 4 + scale_code(scale_x);
    if transparent {
        codes + 0x40
    } else {
        codes
    }
}

/// The block-transfer color-depth byte: the depth code repeated at bits 0,
/// 2 and 5 (source 0, source 1 and destination all at one depth).
pub open spec fn spec_bte_color(depth: ColorDepth) -> u8 {
    (depth.spec_code() * 32 + depth.spec_code() * 4 + depth.spec_code()) as u8
}

#[verifier::when_used_as_spec(spec_bte_color)]
pub fn bte_color(depth: ColorDepth) -> (r: u8)
    ensures
        r == spec_bte_color(depth),
{
    let code = depth.code();
    code * 32 + code * 4 + code
}

/// Auto-refresh interval of the SDRAM, in memory-clock cycles: 8192 rows
/// refreshed every 64 ms, less two cycles of margin.
pub open spec fn spec_refresh_interval(mclk_mhz: u32) -> u16 {
    ((64_000_000int / 8192int) / (1000int / mclk_mhz as int) - 2int) as u16
}

/// The SDRAM auto-refresh interval for a memory clock of `mclk_mhz` MHz.
pub fn refresh_interval(mclk_mhz: u32) -> (r: u16)
    requires
        1 <= mclk_mhz <= 1000,
    ensures
        r == spec_refresh_interval(mclk_mhz),
{
    let period_ns: u32 = 1000 / mclk_mhz;
    let row_ns: u32 = 64_000_000 / 8192;
    assert(1 <= period_ns <= 1000) by (nonlinear_arith)
        requires
            1 <= mclk_mhz <= 1000,
            period_ns == 1000int / mclk_mhz as int,
    ;
    assert(row_ns / period_ns >= 7) by (nonlinear_arith)
        requires
            row_ns == 7812,
            1 <= period_ns <= 1000,
    ;
    assert(row_ns / period_ns <= 7812) by (nonlinear_arith)
        requires
            row_ns == 7812,
            1 <= period_ns,
    ;
    (row_ns / period_ns - 2) as u16
}

} // verus!
