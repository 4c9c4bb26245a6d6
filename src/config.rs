use vstd::prelude::*;

verus! {

/// Pixel format of the canvas and of every color handed to the driver.
#[derive(Clone, Copy, Debug, PartialEq, Eq, Structural)]
pub enum ColorDepth {
    /// 8-bit color (RGB 3:3:2).
    Bpp8,
    /// 16-bit color (RGB 5:6:5).
    Bpp16,
    /// 24-bit color (RGB 8:8:8).
    Bpp24,
}

impl ColorDepth {
    /// The code of the depth in the chip's color-depth registers.
    pub open spec fn spec_code(self) -> u8 {
        match self {
            ColorDepth::Bpp8 => 0x00,
            ColorDepth::Bpp16 => 0x01,
            ColorDepth::Bpp24 => 0x02,
        }
    }

    /// The code of the depth, as written into the active-window color register.
    #[verifier::when_used_as_spec(spec_code)]
    pub fn code(self) -> (r: u8)
        ensures
            r == self.spec_code(),
    {
        match self {
            ColorDepth::Bpp8 => 0x00,
            ColorDepth::Bpp16 => 0x01,
            ColorDepth::Bpp24 => 0x02,
        }
    }
}

/// Geometry, timing and pixel format of the panel.
///
/// Horizontal quantities are in pixels, vertical ones in lines. Nothing is
/// validated: values that the chip cannot hold are truncated when they are
/// turned into register values.
#[derive(Clone, Copy, Debug, PartialEq, Eq, Structural)]
pub struct DisplayConfig {
    pub width: u16,
    pub height: u16,
    pub h_back_porch: u16,
    pub h_front_porch: u16,
    pub h_sync_width: u16,
    pub v_back_porch: u16,
    pub v_front_porch: u16,
    pub v_sync_width: u16,
    pub color_depth: ColorDepth,
}

impl DisplayConfig {
    /// The 7-inch 1024x600 panel ER-TFT070A2-6-5633 at 16-bit color.
    pub open spec fn spec_default() -> DisplayConfig {
        DisplayConfig {
            width: 1024,
            height: 600,
            h_back_porch: 160,
            h_front_porch: 160,
            h_sync_width: 70,
            v_back_porch: 23,
            v_front_porch: 12,
            v_sync_width: 10,
            color_depth: ColorDepth::Bpp16,
        }
    }

    /// The configuration of the 7-inch 1024x600 panel ER-TFT070A2-6-5633.
    pub fn new() -> (r: DisplayConfig)
        ensures
            r == DisplayConfig::spec_default(),
    {
        DisplayConfig {
            width: 1024,
            height: 600,
            h_back_porch: 160,
            h_front_porch: 160,
            h_sync_width: 70,
            v_back_porch: 23,
            v_front_porch: 12,
            v_sync_width: 10,
            color_depth: ColorDepth::Bpp16,
        }
    }
}

impl Default for DisplayConfig {
    fn default() -> (r: DisplayConfig)
        ensures
            r == DisplayConfig::spec_default(),
    {
        DisplayConfig::new()
    }
}

} // verus!
