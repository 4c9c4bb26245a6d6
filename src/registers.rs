use vstd::prelude::*;

verus! {

/// A register of the LT7683, named as in the chip's datasheet. The map is
/// sparse: the PWM, serial-flash and interrupt-control groups are not named.
#[derive(Clone, Copy, Debug, PartialEq, Eq, Structural)]
pub enum Register {
    // Configuration registers.
    /// Software reset register.
    Srr,
    /// Chip configuration register.
    Ccr,
    /// Memory access control register.
    Macr,
    /// Input Control Register.
    Icr,
    /// Memory Data Read/Write Port.
    Mrwdp,

    // Pll setting registers.
    /// PCLK PLL Control Register 1.
    Ppllc1,
    /// PCLK PLL Control Register 2.
    Ppllc2,
    /// MCLK PLL Control Register 1.
    Mpllc1,
    /// MCLK PLL Control Register 2.
    Mpllc2,
    /// CCLK PLL Control Register 1.
    Cpllc1,
    /// CCLK PLL Control Register 2.
    Cpllc2,

    // LCD display control registers.
    /// Main/PIP Window Control Register.
    Mpwctr,
    /// PIP Window Color Depth Setting.
    Pipcdep,
    /// Display Configuration Register.
    Dpcr,
    /// Panel Scan Clock and Data Setting Register.
    Pcsr,
    /// Horizontal Display Width Register.
    Hdwr,
    /// Horizontal Display Width Fine Tune Register.
    Hdwftr,
    /// Horizontal Non-Display Period Register.
    Hndr,
    /// Horizontal Non-Display Period Fine Tune Register.
    Hndftr,
    /// HSYNC Start Position Register.
    Hstr,
    /// HSYNC Pulse Width Register.
    Hpwr,
    /// Vertical Display Height Register 1.
    Vdhr1,
    /// Vertical Display Height Register 2.
    Vdhr2,
    /// Vertical Non-Display Period Register 1.
    Vndr1,
    /// Vertical Non-Display Period Register 2.
    Vndr2,
    /// VSYNC Start Position Register.
    Vstr,
    /// VSYNC Pulse Width Register.
    Vpwr,
    /// Main Image Start Address 1.
    Misa1,
    /// Main Image Start Address 2.
    Misa2,
    /// Main Image Start Address 3.
    Misa3,
    /// Main Image Start Address 4.
    Misa4,
    /// Main Image Width 1.
    Miw1,
    /// Main Image Width 2.
    Miw2,
    /// Main Window Upper-Left Corner X-Coordinates 1.
    Mwulx1,
    /// Main Window Upper-Left Corner X-Coordinates 2.
    Mwulx2,
    /// Main Window Upper-Left corner Y-Coordinates 1.
    Mwuly1,
    /// Main Window Upper-Left corner Y-Coordinates 2.
    Mwuly2,
    /// PIP Window 1 or 2 Display Upper-Left Corner X-Coordinates 1.
    Pwdulx1,
    /// PIP Window 1 or 2 Display Upper-Left Corner X-Coordinates 2.
    Pwdulx2,
    /// PIP Window 1 or 2 Display Upper-Left corner Y-Coordinates 1.
    Pwduly1,
    /// PIP Window 1 or 2 Display Upper-Left corner Y-Coordinates 2.
    Pwduly2,
    /// PIP Image 1 or 2 Start Address 1.
    Pisa1,
    /// PIP Image 1 or 2 Start Address 2.
    Pisa2,
    /// PIP Image 1 or 2 Start Address 3.
    Pisa3,
    /// PIP Image 1 or 2 Start Address 4.
    Pisa4,
    /// PIP Image 1 or 2 Width 1.
    Piw1,
    /// PIP Image 1 or 2 Width 2.
    Piw2,
    /// PIP Window Image 1 or 2 Upper-Left Corner X-Coordinates 1.
    Pwiulx1,
    /// PIP Window Image 1 or 2 Upper-Left Corner X-Coordinates 2.
    Pwiulx2,
    /// PIP Window Image 1 or 2 Upper-Left Corner Y-Coordinates 1.
    Pwiuly1,
    /// PIP Window Image 1 or 2 Upper-Left Corner Y-Coordinates 2.
    Pwiuly2,
    /// PIP Window 1 or 2 Width 1.
    Pww1,
    /// PIP Window 1 or 2 Width 2.
    Pww2,
    /// PIP Window 1 or 2 Height 1.
    Pwh1,
    /// PIP Window 1 or 2 Height 2.
    Pwh2,
    /// Graphic / Text Cursor Control Register.
    Gtccr,
    /// Blink Time Control Register.
    Btcr,
    /// Text Cursor Horizontal Size Register.
    Curhs,
    /// Text Cursor Vertical Size Register.
    Curvs,
    /// Graphic Cursor Horizontal Position Register 1.
    Gchp1,
    /// Graphic Cursor Horizontal Position Register 2.
    Gchp2,
    /// Graphic Cursor Vertical Position Register 1.
    Gcvp1,
    /// Graphic Cursor Vertical Position Register 2.
    Gcvp2,
    /// Graphic Cursor Color 0.
    Gcc0,
    /// Graphic Cursor Color 1.
    Gcc1,
    /// Canvas Start Address 1.
    Cvssa1,
    /// Canvas Start Address 2.
    Cvssa2,
    /// Canvas Start Address 3.
    Cvssa3,
    /// Canvas Start Address 4.
    Cvssa4,
    /// Canvas Image Width 1.
    CvsImwth1,
    /// Canvas Image Width 2.
    CvsImwth2,
    /// Active Window Upper-Left Corner X-Coordinates 1.
    AwulX1,
    /// Active Window Upper-Left Corner X-Coordinates 2.
    AwulX2,
    /// Active Window Upper-Left Corner Y-Coordinates 1.
    AwulY1,
    /// Active Window Upper-Left Corner Y-Coordinates 2.
    AwulY2,
    /// Active Window Width 1.
    AwWth1,
    /// Active Window Width 2.
    AwWth2,
    /// Active Window Height 1.
    AwHt1,
    /// Active Window Height 2.
    AwHt2,
    /// Color Depth of Canvas & Active Window.
    AwColor,
    /// Graphic Read/Write X-Coordinate Register 1.
    Curh1,
    /// Graphic Read/Write X-Coordinate Register 2.
    Curh2,
    /// Graphic Read/Write Y-Coordinate Register 1.
    Curv1,
    /// Graphic Read/Write Y-Coordinate Register 2.
    Curv2,
    /// Text Write X-Coordinates Register 1.
    FCurx1,
    /// Text Write X-Coordinates Register 2.
    FCurx2,
    /// Text Write Y-Coordinates Register 1.
    FCury1,
    /// Text Write Y-Coordinates Register 2.
    FCury2,
    /// Draw Line/Triangle Control Register 0.
    Dcr0,
    /// Draw Line/Rectangle/Triangle Point 1 X-Coordinates Register 1.
    Dlhsr1,
    /// Draw Line/Rectangle/Triangle Point 1 X-Coordinates Register 2.
    Dlhsr2,
    /// Draw Line/Rectangle/Triangle Point 1 Y-Coordinates Register 1.
    Dlvsr1,
    /// Draw Line/Rectangle/Triangle Point 1 Y-Coordinates Register 2.
    Dlvsr2,
    /// Draw Line/Rectangle/Triangle Point 2 X-Coordinates Register 1.
    Dlher1,
    /// Draw Line/Rectangle/Triangle Point 2 X-Coordinates Register 2.
    Dlher2,
    /// Draw Line/Rectangle/Triangle Point 2 Y-Coordinates Register 1.
    Dlver1,
    /// Draw Line/Rectangle/Triangle Point 2 Y-Coordinates Register 2.
    Dlver2,
    /// Draw Triangle Point 3 X-Coordinates Register 1.
    Dtph1,
    /// Draw Triangle Point 3 X-Coordinates Register 2.
    Dtph2,
    /// Draw Triangle Point 3 Y-Coordinates Register 1.
    Dtpv1,
    /// Draw Triangle Point 3 Y-Coordinates Register 2.
    Dtpv2,
    /// Draw Circle/Ellipse/Ellipse Curve/Circle Square Control Register 1.
    Dcr1,
    /// Draw Circle/Ellipse/Rounded-Rectangle Major-Radius Register 1.
    EllA1,
    /// Draw Circle/Ellipse/Rounded-Rectangle Major-Radius Register 2.
    EllA2,
    /// Draw Circle/Ellipse/Rounded-rectangle Minor-Radius Register 1.
    EllB1,
    /// Draw Circle/Ellipse/Rounded-rectangle Minor-Radius Register 2.
    EllB2,
    /// Draw Circle/Ellipse/Rounded-Rectangle Center X-Coordinates Register 1.
    Dehr1,
    /// Draw Circle/Ellipse/Rounded-Rectangle Center X-Coordinates Register 2.
    Dehr2,
    /// Draw Circle/Ellipse/Rounded-Rectangle Center Y-Coordinates Register 1.
    Devr1,
    /// Draw Circle/Ellipse/Rounded-Rectangle Center Y-Coordinates Register 2.
    Devr2,
    /// Foreground Color Register - Red.
    Fgcr,
    /// Foreground Color Register - Green.
    Fgcg,
    /// Foreground Color Register - Blue.
    Fgcb,

    // Bit block transfer engine (BTE) control registers.
    /// BTE Control Register 0.
    BteCtrl0,
    /// BTE Control Register 1.
    BteCtrl1,
    /// BTE Color Depth Register.
    BteColr,
    /// Source 0 Memory Start Address 0.
    S0Str0,
    /// Source 0 Memory Start Address 1.
    S0Str1,
    /// Source 0 Memory Start Address 2.
    S0Str2,
    /// Source 0 Memory Start Address 3.
    S0Str3,
    /// Source 0 Image Width 0.
    S0Wth0,
    /// Source 0 Image Width 1.
    S0Wth1,
    /// Source 0 X-Coordinate 0.
    S0X0,
    /// Source 0 X-Coordinate 1.
    S0X1,
    /// Source 0 Y-Coordinate 0.
    S0Y0,
    /// Source 0 Y-Coordinate 1.
    S0Y1,
    /// Source 1 Memory Start Address 0.
    S1Str0,
    /// Source 1 Memory Start Address 1.
    S1Str1,
    /// Source 1 Memory Start Address 2.
    S1Str2,
    /// Source 1 Memory Start Address 3.
    S1Str3,
    /// Source 1 Image Width 0.
    S1Wth0,
    /// Source 1 Image Width 1.
    S1Wth1,
    /// Source 1 X-Coordinate 0.
    S1X0,
    /// Source 1 X-Coordinate 1.
    S1X1,
    /// Source 1 Y-Coordinate 0.
    S1Y0,
    /// Source 1 Y-Coordinate 1.
    S1Y1,
    /// Destination Memory Start Address 0.
    DtStr0,
    /// Destination Memory Start Address 1.
    DtStr1,
    /// Destination Memory Start Address 2.
    DtStr2,
    /// Destination Memory Start Address 3.
    DtStr3,
    /// Destination Image Width 0.
    DtWth0,
    /// Destination Image Width 1.
    DtWth1,
    /// Destination X-Coordinate 0.
    DtX0,
    /// Destination X-Coordinate 1.
    DtX1,
    /// Destination Y-Coordinate 0.
    DtY0,
    /// Destination Y-Coordinate 1.
    DtY1,
    /// BTE Window Width 0.
    BteWth0,
    /// BTE Window Width 1.
    BteWth1,
    /// BTE Window Height 0.
    BteHig0,
    /// BTE Window Height 1.
    BteHig1,

    // Text engine registers.
    /// Character Control Register 0.
    Ccr0,
    /// Character Control Register 1.
    Ccr1,
    /// Character Line gap Setting Register.
    Fldr,
    /// Character to Character Space Setting Register.
    F2fssr,
    /// Background Color Register - Red.
    Bgcr,
    /// Background Color Register - Green.
    Bgcg,
    /// Background Color Register - Blue.
    Bgcb,
    /// CGRAM Start Address 0.
    CgramStr0,

    // Power Management Control Register.
    /// Power Management Register.
    Pmu,

    // Display RAM Control Register.
    /// SDRAM Attribute Register.
    Sdrar,
    /// SDRAM Mode Register & Extended Mode Register.
    Sdrmd,
    /// SDRAM Auto Refresh Interval 1.
    SdrRef1,
    /// SDRAM Auto Refresh Interval 2.
    SdrRef2,
    /// SDRAM Control Register.
    Sdrcr,

    // GPIO Register.
    /// GPIO-A Direction.
    Gpioad,
    /// GPIO-A.
    Gpioa,
    /// GPIO-B.
    Gpiob,
    /// GPIO-C Direction.
    Gpiocd,
    /// GPIO-C.
    Gpioc,
    /// GPIO-D Direction.
    Gpiodd,
    /// GPIO-D.
    Gpiod,
}

impl Register {
    /// The one-byte address of the register in the chip's register space.
    pub open spec fn spec_address(self) -> u8 {
        match self {
            Register::Srr => 0x00,
            Register::Ccr => 0x01,
            Register::Macr => 0x02,
            Register::Icr => 0x03,
            Register::Mrwdp => 0x04,
            Register::Ppllc1 => 0x05,
            Register::Ppllc2 => 0x06,
            Register::Mpllc1 => 0x07,
            Register::Mpllc2 => 0x08,
            Register::Cpllc1 => 0x09,
            Register::Cpllc2 => 0x0A,
            Register::Mpwctr => 0x10,
            Register::Pipcdep => 0x11,
            Register::Dpcr => 0x12,
            Register::Pcsr => 0x13,
            Register::Hdwr => 0x14,
            Register::Hdwftr => 0x15,
            Register::Hndr => 0x16,
            Register::Hndftr => 0x17,
            Register::Hstr => 0x18,
            Register::Hpwr => 0x19,
            Register::Vdhr1 => 0x1A,
            Register::Vdhr2 => 0x1B,
            Register::Vndr1 => 0x1C,
            Register::Vndr2 => 0x1D,
            Register::Vstr => 0x1E,
            Register::Vpwr => 0x1F,
            Register::Misa1 => 0x20,
            Register::Misa2 => 0x21,
            Register::Misa3 => 0x22,
            Register::Misa4 => 0x23,
            Register::Miw1 => 0x24,
            Register::Miw2 => 0x25,
            Register::Mwulx1 => 0x26,
            Register::Mwulx2 => 0x27,
            Register::Mwuly1 => 0x28,
            Register::Mwuly2 => 0x29,
            Register::Pwdulx1 => 0x2A,
            Register::Pwdulx2 => 0x2B,
            Register::Pwduly1 => 0x2C,
            Register::Pwduly2 => 0x2D,
            Register::Pisa1 => 0x2E,
            Register::Pisa2 => 0x2F,
            Register::Pisa3 => 0x30,
            Register::Pisa4 => 0x31,
            Register::Piw1 => 0x32,
            Register::Piw2 => 0x33,
            Register::Pwiulx1 => 0x34,
            Register::Pwiulx2 => 0x35,
            Register::Pwiuly1 => 0x36,
            Register::Pwiuly2 => 0x37,
            Register::Pww1 => 0x38,
            Register::Pww2 => 0x39,
            Register::Pwh1 => 0x3A,
            Register::Pwh2 => 0x3B,
            Register::Gtccr => 0x3C,
            Register::Btcr => 0x3D,
            Register::Curhs => 0x3E,
            Register::Curvs => 0x3F,
            Register::Gchp1 => 0x40,
            Register::Gchp2 => 0x41,
            Register::Gcvp1 => 0x42,
            Register::Gcvp2 => 0x43,
            Register::Gcc0 => 0x44,
            Register::Gcc1 => 0x45,
            Register::Cvssa1 => 0x50,
            Register::Cvssa2 => 0x51,
            Register::Cvssa3 => 0x52,
            Register::Cvssa4 => 0x53,
            Register::CvsImwth1 => 0x54,
            Register::CvsImwth2 => 0x55,
            Register::AwulX1 => 0x56,
            Register::AwulX2 => 0x57,
            Register::AwulY1 => 0x58,
            Register::AwulY2 => 0x59,
            Register::AwWth1 => 0x5A,
            Register::AwWth2 => 0x5B,
            Register::AwHt1 => 0x5C,
            Register::AwHt2 => 0x5D,
            Register::AwColor => 0x5E,
            Register::Curh1 => 0x5F,
            Register::Curh2 => 0x60,
            Register::Curv1 => 0x61,
            Register::Curv2 => 0x62,
            Register::FCurx1 => 0x63,
            Register::FCurx2 => 0x64,
            Register::FCury1 => 0x65,
            Register::FCury2 => 0x66,
            Register::Dcr0 => 0x67,
            Register::Dlhsr1 => 0x68,
            Register::Dlhsr2 => 0x69,
            Register::Dlvsr1 => 0x6A,
            Register::Dlvsr2 => 0x6B,
            Register::Dlher1 => 0x6C,
            Register::Dlher2 => 0x6D,
            Register::Dlver1 => 0x6E,
            Register::Dlver2 => 0x6F,
            Register::Dtph1 => 0x70,
            Register::Dtph2 => 0x71,
            Register::Dtpv1 => 0x72,
            Register::Dtpv2 => 0x73,
            Register::Dcr1 => 0x76,
            Register::EllA1 => 0x77,
            Register::EllA2 => 0x78,
            Register::EllB1 => 0x79,
            Register::EllB2 => 0x7A,
            Register::Dehr1 => 0x7B,
            Register::Dehr2 => 0x7C,
            Register::Devr1 => 0x7D,
            Register::Devr2 => 0x7E,
            Register::Fgcr => 0xD2,
            Register::Fgcg => 0xD3,
            Register::Fgcb => 0xD4,
            Register::BteCtrl0 => 0x90,
            Register::BteCtrl1 => 0x91,
            Register::BteColr => 0x92,
            Register::S0Str0 => 0x93,
            Register::S0Str1 => 0x94,
            Register::S0Str2 => 0x95,
            Register::S0Str3 => 0x96,
            Register::S0Wth0 => 0x97,
            Register::S0Wth1 => 0x98,
            Register::S0X0 => 0x99,
            Register::S0X1 => 0x9A,
            Register::S0Y0 => 0x9B,
            Register::S0Y1 => 0x9C,
            Register::S1Str0 => 0x9D,
            Register::S1Str1 => 0x9E,
            Register::S1Str2 => 0x9F,
            Register::S1Str3 => 0xA0,
            Register::S1Wth0 => 0xA1,
            Register::S1Wth1 => 0xA2,
            Register::S1X0 => 0xA3,
            Register::S1X1 => 0xA4,
            Register::S1Y0 => 0xA5,
            Register::S1Y1 => 0xA6,
            Register::DtStr0 => 0xA7,
            Register::DtStr1 => 0xA8,
            Register::DtStr2 => 0xA9,
            Register::DtStr3 => 0xAA,
            Register::DtWth0 => 0xAB,
            Register::DtWth1 => 0xAC,
            Register::DtX0 => 0xAD,
            Register::DtX1 => 0xAE,
            Register::DtY0 => 0xAF,
            Register::DtY1 => 0xB0,
            Register::BteWth0 => 0xB1,
            Register::BteWth1 => 0xB2,
            Register::BteHig0 => 0xB3,
            Register::BteHig1 => 0xB4,
            Register::Ccr0 => 0xCC,
            Register::Ccr1 => 0xCD,
            Register::Fldr => 0xD0,
            Register::F2fssr => 0xD1,
            Register::Bgcr => 0xD5,
            Register::Bgcg => 0xD6,
            Register::Bgcb => 0xD7,
            Register::CgramStr0 => 0xDB,
            Register::Pmu => 0xDF,
            Register::Sdrar => 0xE0,
            Register::Sdrmd => 0xE1,
            Register::SdrRef1 => 0xE2,
            Register::SdrRef2 => 0xE3,
            Register::Sdrcr => 0xE4,
            Register::Gpioad => 0xF0,
            Register::Gpioa => 0xF1,
            Register::Gpiob => 0xF2,
            Register::Gpiocd => 0xF3,
            Register::Gpioc => 0xF4,
            Register::Gpiodd => 0xF5,
            Register::Gpiod => 0xF6,
        }
    }

    /// The one-byte address that selects this register in a command access.
    #[verifier::when_used_as_spec(spec_address)]
    pub fn address(self) -> (r: u8)
        ensures
            r == self.spec_address(),
    {
        match self {
            Register::Srr => 0x00,
            Register::Ccr => 0x01,
            Register::Macr => 0x02,
            Register::Icr => 0x03,
            Register::Mrwdp => 0x04,
            Register::Ppllc1 => 0x05,
            Register::Ppllc2 => 0x06,
            Register::Mpllc1 => 0x07,
            Register::Mpllc2 => 0x08,
            Register::Cpllc1 => 0x09,
            Register::Cpllc2 => 0x0A,
            Register::Mpwctr => 0x10,
            Register::Pipcdep => 0x11,
            Register::Dpcr => 0x12,
            Register::Pcsr => 0x13,
            Register::Hdwr => 0x14,
            Register::Hdwftr => 0x15,
            Register::Hndr => 0x16,
            Register::Hndftr => 0x17,
            Register::Hstr => 0x18,
            Register::Hpwr => 0x19,
            Register::Vdhr1 => 0x1A,
            Register::Vdhr2 => 0x1B,
            Register::Vndr1 => 0x1C,
            Register::Vndr2 => 0x1D,
            Register::Vstr => 0x1E,
            Register::Vpwr => 0x1F,
            Register::Misa1 => 0x20,
            Register::Misa2 => 0x21,
            Register::Misa3 => 0x22,
            Register::Misa4 => 0x23,
            Register::Miw1 => 0x24,
            Register::Miw2 => 0x25,
            Register::Mwulx1 => 0x26,
            Register::Mwulx2 => 0x27,
            Register::Mwuly1 => 0x28,
            Register::Mwuly2 => 0x29,
            Register::Pwdulx1 => 0x2A,
            Register::Pwdulx2 => 0x2B,
            Register::Pwduly1 => 0x2C,
            Register::Pwduly2 => 0x2D,
            Register::Pisa1 => 0x2E,
            Register::Pisa2 => 0x2F,
            Register::Pisa3 => 0x30,
            Register::Pisa4 => 0x31,
            Register::Piw1 => 0x32,
            Register::Piw2 => 0x33,
            Register::Pwiulx1 => 0x34,
            Register::Pwiulx2 => 0x35,
            Register::Pwiuly1 => 0x36,
            Register::Pwiuly2 => 0x37,
            Register::Pww1 => 0x38,
            Register::Pww2 => 0x39,
            Register::Pwh1 => 0x3A,
            Register::Pwh2 => 0x3B,
            Register::Gtccr => 0x3C,
            Register::Btcr => 0x3D,
            Register::Curhs => 0x3E,
            Register::Curvs => 0x3F,
            Register::Gchp1 => 0x40,
            Register::Gchp2 => 0x41,
            Register::Gcvp1 => 0x42,
            Register::Gcvp2 => 0x43,
            Register::Gcc0 => 0x44,
            Register::Gcc1 => 0x45,
            Register::Cvssa1 => 0x50,
            Register::Cvssa2 => 0x51,
            Register::Cvssa3 => 0x52,
            Register::Cvssa4 => 0x53,
            Register::CvsImwth1 => 0x54,
            Register::CvsImwth2 => 0x55,
            Register::AwulX1 => 0x56,
            Register::AwulX2 => 0x57,
            Register::AwulY1 => 0x58,
            Register::AwulY2 => 0x59,
            Register::AwWth1 => 0x5A,
            Register::AwWth2 => 0x5B,
            Register::AwHt1 => 0x5C,
            Register::AwHt2 => 0x5D,
            Register::AwColor => 0x5E,
            Register::Curh1 => 0x5F,
            Register::Curh2 => 0x60,
            Register::Curv1 => 0x61,
            Register::Curv2 => 0x62,
            Register::FCurx1 => 0x63,
            Register::FCurx2 => 0x64,
            Register::FCury1 => 0x65,
            Register::FCury2 => 0x66,
            Register::Dcr0 => 0x67,
            Register::Dlhsr1 => 0x68,
            Register::Dlhsr2 => 0x69,
            Register::Dlvsr1 => 0x6A,
            Register::Dlvsr2 => 0x6B,
            Register::Dlher1 => 0x6C,
            Register::Dlher2 => 0x6D,
            Register::Dlver1 => 0x6E,
            Register::Dlver2 => 0x6F,
            Register::Dtph1 => 0x70,
            Register::Dtph2 => 0x71,
            Register::Dtpv1 => 0x72,
            Register::Dtpv2 => 0x73,
            Register::Dcr1 => 0x76,
            Register::EllA1 => 0x77,
            Register::EllA2 => 0x78,
            Register::EllB1 => 0x79,
            Register::EllB2 => 0x7A,
            Register::Dehr1 => 0x7B,
            Register::Dehr2 => 0x7C,
            Register::Devr1 => 0x7D,
            Register::Devr2 => 0x7E,
            Register::Fgcr => 0xD2,
            Register::Fgcg => 0xD3,
            Register::Fgcb => 0xD4,
            Register::BteCtrl0 => 0x90,
            Register::BteCtrl1 => 0x91,
            Register::BteColr => 0x92,
            Register::S0Str0 => 0x93,
            Register::S0Str1 => 0x94,
            Register::S0Str2 => 0x95,
            Register::S0Str3 => 0x96,
            Register::S0Wth0 => 0x97,
            Register::S0Wth1 => 0x98,
            Register::S0X0 => 0x99,
            Register::S0X1 => 0x9A,
            Register::S0Y0 => 0x9B,
            Register::S0Y1 => 0x9C,
            Register::S1Str0 => 0x9D,
            Register::S1Str1 => 0x9E,
            Register::S1Str2 => 0x9F,
            Register::S1Str3 => 0xA0,
            Register::S1Wth0 => 0xA1,
            Register::S1Wth1 => 0xA2,
            Register::S1X0 => 0xA3,
            Register::S1X1 => 0xA4,
            Register::S1Y0 => 0xA5,
            Register::S1Y1 => 0xA6,
            Register::DtStr0 => 0xA7,
            Register::DtStr1 => 0xA8,
            Register::DtStr2 => 0xA9,
            Register::DtStr3 => 0xAA,
            Register::DtWth0 => 0xAB,
            Register::DtWth1 => 0xAC,
            Register::DtX0 => 0xAD,
            Register::DtX1 => 0xAE,
            Register::DtY0 => 0xAF,
            Register::DtY1 => 0xB0,
            Register::BteWth0 => 0xB1,
            Register::BteWth1 => 0xB2,
            Register::BteHig0 => 0xB3,
            Register::BteHig1 => 0xB4,
            Register::Ccr0 => 0xCC,
            Register::Ccr1 => 0xCD,
            Register::Fldr => 0xD0,
            Register::F2fssr => 0xD1,
            Register::Bgcr => 0xD5,
            Register::Bgcg => 0xD6,
            Register::Bgcb => 0xD7,
            Register::CgramStr0 => 0xDB,
            Register::Pmu => 0xDF,
            Register::Sdrar => 0xE0,
            Register::Sdrmd => 0xE1,
            Register::SdrRef1 => 0xE2,
            Register::SdrRef2 => 0xE3,
            Register::Sdrcr => 0xE4,
            Register::Gpioad => 0xF0,
            Register::Gpioa => 0xF1,
            Register::Gpiob => 0xF2,
            Register::Gpiocd => 0xF3,
            Register::Gpioc => 0xF4,
            Register::Gpiodd => 0xF5,
            Register::Gpiod => 0xF6,
        }
    }
}

} // verus!
