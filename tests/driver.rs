use std::cell::RefCell;
use std::collections::VecDeque;
use std::rc::Rc;

use embedded_hal::delay::DelayNs;
use embedded_hal::digital::{ErrorType, OutputPin};
use lt7683::{ColorDepth, DisplayConfig, Interface, Log, Register, LT7683};

#[derive(Debug, Clone, Copy, PartialEq)]
enum Step {
    Command(u8),
    Data(u8),
    ReadData,
    ReadStatus,
    Reset(bool),
    Pause(u32),
}

#[derive(Default)]
struct Chip {
    steps: Vec<Step>,
    statuses: VecDeque<u8>,
    idle_status: u8,
    data: VecDeque<u8>,
    fail_after: Option<usize>,
}

type Shared = Rc<RefCell<Chip>>;

struct Recorder(Shared);

impl Recorder {
    fn access(&mut self, step: Step) -> Result<(), &'static str> {
        let mut chip = self.0.borrow_mut();
        if let Some(n) = chip.fail_after {
            let accesses = chip
                .steps
                .iter()
                .filter(|s| !matches!(s, Step::Reset(_) | Step::Pause(_)))
                .count();
            if accesses >= n {
                return Err("bus fault");
            }
        }
        chip.steps.push(step);
        Ok(())
    }
}

impl Interface for Recorder {
    type Error = &'static str;
    fn write_command(&mut self, reg: Register, _log: &mut Log) -> Result<(), &'static str> {
        self.access(Step::Command(reg.address()))
    }
    fn write_data(&mut self, data: u8, _log: &mut Log) -> Result<(), &'static str> {
        self.access(Step::Data(data))
    }
    fn read_data(&mut self, _log: &mut Log) -> Result<u8, &'static str> {
        self.access(Step::ReadData)?;
        Ok(self.0.borrow_mut().data.pop_front().unwrap_or(0))
    }
    fn read_status(&mut self, _log: &mut Log) -> Result<u8, &'static str> {
        self.access(Step::ReadStatus)?;
        let mut chip = self.0.borrow_mut();
        let idle = chip.idle_status;
        Ok(chip.statuses.pop_front().unwrap_or(idle))
    }
}

struct ResetPin(Shared);

impl ErrorType for ResetPin {
    type Error = core::convert::Infallible;
}

impl OutputPin for ResetPin {
    fn set_low(&mut self) -> Result<(), Self::Error> {
        self.0.borrow_mut().steps.push(Step::Reset(false));
        Ok(())
    }
    fn set_high(&mut self) -> Result<(), Self::Error> {
        self.0.borrow_mut().steps.push(Step::Reset(true));
        Ok(())
    }
}

struct Clock(Shared);

impl DelayNs for Clock {
    fn delay_ns(&mut self, ns: u32) {
        self.0.borrow_mut().steps.push(Step::Pause(ns));
    }
}

fn display(config: DisplayConfig) -> (Shared, LT7683<Recorder, ResetPin>, Clock) {
    let chip: Shared = Rc::new(RefCell::new(Chip::default()));
    let d = LT7683::new(Recorder(chip.clone()), ResetPin(chip.clone()), config);
    (chip.clone(), d, Clock(chip))
}

fn writes(pairs: &[(Register, u8)]) -> Vec<Step> {
    pairs
        .iter()
        .flat_map(|(r, v)| [Step::Command(r.address()), Step::Data(*v)])
        .collect()
}

fn with_depth(depth: ColorDepth) -> DisplayConfig {
    let mut c = DisplayConfig::new();
    c.color_depth = depth;
    c
}

#[test]
fn draw_line_coordinate_encoding() {
    let (chip, mut d, _) = display(DisplayConfig::new());
    d.draw_line(10, 20, 300, 400, 0x00FFFFFF).unwrap();
    let mut expected = writes(&[
        (Register::Fgcr, 0xF8),
        (Register::Fgcg, 0xFC),
        (Register::Fgcb, 0xF8),
        (Register::Dlhsr1, 10),
        (Register::Dlhsr2, 0),
        (Register::Dlvsr1, 20),
        (Register::Dlvsr2, 0),
        (Register::Dlher1, 0x2C),
        (Register::Dlher2, 0x01),
        (Register::Dlver1, 0x90),
        (Register::Dlver2, 0x01),
        (Register::Dcr0, 0x80),
    ]);
    expected.push(Step::ReadStatus);
    assert_eq!(chip.borrow().steps, expected);
}

#[test]
fn draw_waits_while_engine_busy() {
    let (chip, mut d, _) = display(DisplayConfig::new());
    chip.borrow_mut().statuses = VecDeque::from(vec![0x08, 0x0C, 0x04]);
    d.draw_filled_rectangle(1, 2, 3, 4, 0).unwrap();
    let steps = chip.borrow().steps.clone();
    assert_eq!(steps[22], Step::Command(Register::Dcr1.address()));
    assert_eq!(steps[23], Step::Data(0xE0));
    assert_eq!(&steps[24..], &[Step::ReadStatus, Step::ReadStatus, Step::ReadStatus]);
}

#[test]
fn clear_screen_is_full_panel_rectangle() {
    let (chip_a, mut a, _) = display(DisplayConfig::new());
    a.clear_screen(0x00123456).unwrap();
    let (chip_b, mut b, _) = display(DisplayConfig::new());
    b.draw_filled_rectangle(0, 0, 1023, 599, 0x00123456).unwrap();
    assert_eq!(chip_a.borrow().steps, chip_b.borrow().steps);
    assert_eq!(chip_a.borrow().steps[15], Step::Data(0xFF));
    assert_eq!(chip_a.borrow().steps[17], Step::Data(0x03));
}

#[test]
fn foreground_color_at_each_depth() {
    for (depth, rgb) in [
        (ColorDepth::Bpp16, [0x10, 0xFC, 0xA8]),
        (ColorDepth::Bpp24, [0x12, 0xFF, 0xAA]),
        (ColorDepth::Bpp8, [0x00, 0xE0, 0x80]),
    ] {
        let (chip, mut d, _) = display(with_depth(depth));
        d.set_foreground_color(0x0012FFAA).unwrap();
        assert_eq!(
            chip.borrow().steps,
            writes(&[(Register::Fgcr, rgb[0]), (Register::Fgcg, rgb[1]), (Register::Fgcb, rgb[2])])
        );
    }
}

#[test]
fn background_color_registers() {
    let (chip, mut d, _) = display(with_depth(ColorDepth::Bpp24));
    d.set_background_color(0x00ABCDEF).unwrap();
    assert_eq!(
        chip.borrow().steps,
        writes(&[(Register::Bgcr, 0xAB), (Register::Bgcg, 0xCD), (Register::Bgcb, 0xEF)])
    );
}

#[test]
fn foreground_color_from_rgb565() {
    let (chip, mut d, _) = display(DisplayConfig::new());
    d.set_foreground_color_rgb565(0xF81F).unwrap();
    assert_eq!(
        chip.borrow().steps,
        writes(&[(Register::Fgcr, 0xF8), (Register::Fgcg, 0x00), (Register::Fgcb, 0xF8)])
    );
}

#[test]
fn text_scale_written_to_ccr1() {
    let (chip, mut d, _) = display(DisplayConfig::new());
    d.write_text_scaled("A", 5, 6, Some(0), 0x00FFFFFF, 5, 0).unwrap();
    let steps = chip.borrow().steps.clone();
    assert_eq!(&steps[0..4], &writes(&[(Register::Ccr0, 0x00), (Register::Ccr1, 0x03)])[..]);
}

#[test]
fn text_without_background_is_transparent() {
    let (chip, mut d, _) = display(DisplayConfig::new());
    d.write_text("AB", 0x0102, 7, None, 0x00FFFFFF).unwrap();
    assert_eq!(
        chip.borrow().steps,
        writes(&[
            (Register::Ccr0, 0x00),
            (Register::Ccr1, 0x40),
            (Register::Fgcr, 0xF8),
            (Register::Fgcg, 0xFC),
            (Register::Fgcb, 0xF8),
            (Register::Icr, 0x04),
            (Register::FCurx1, 0x02),
            (Register::FCurx2, 0x01),
            (Register::FCury1, 7),
            (Register::FCury2, 0),
            (Register::Mrwdp, b'A'),
            (Register::Mrwdp, b'B'),
        ])
    );
}

#[test]
fn text_with_background_sets_its_color() {
    let (chip, mut d, _) = display(with_depth(ColorDepth::Bpp24));
    d.write_text("", 0, 0, Some(0x00112233), 0x00445566).unwrap();
    let steps = chip.borrow().steps.clone();
    assert_eq!(steps.len(), 26);
    assert_eq!(
        &steps[2..10],
        &writes(&[(Register::Ccr1, 0x00), (Register::Bgcr, 0x11), (Register::Bgcg, 0x22), (Register::Bgcb, 0x33)])[..]
    );
}

#[test]
fn sdram_wait_gives_up_after_hundred_reads() {
    let (chip, mut d, mut clock) = display(DisplayConfig::new());
    chip.borrow_mut().idle_status = 0xFB;
    assert_eq!(d.wait_sdram_ready(&mut clock), Ok(false));
    let steps = chip.borrow().steps.clone();
    assert_eq!(steps.len(), 200);
    for k in 0..100 {
        assert_eq!(steps[2 * k], Step::ReadStatus);
        assert_eq!(steps[2 * k + 1], Step::Pause(10_000_000));
    }
}

#[test]
fn sdram_wait_stops_when_ready() {
    let (chip, mut d, mut clock) = display(DisplayConfig::new());
    chip.borrow_mut().statuses = VecDeque::from(vec![0x00, 0x00, 0x04]);
    assert_eq!(d.wait_sdram_ready(&mut clock), Ok(true));
    assert_eq!(
        chip.borrow().steps,
        vec![
            Step::ReadStatus,
            Step::Pause(10_000_000),
            Step::ReadStatus,
            Step::Pause(10_000_000),
            Step::ReadStatus
        ]
    );
}

#[test]
fn sdram_ready_bit() {
    let (chip, mut d, _) = display(DisplayConfig::new());
    chip.borrow_mut().statuses = VecDeque::from(vec![0x04, 0xFB]);
    assert_eq!(d.is_sdram_ready(), Ok(true));
    assert_eq!(d.is_sdram_ready(), Ok(false));
}

#[test]
fn software_reset_polls_until_done() {
    let (chip, mut d, mut clock) = display(DisplayConfig::new());
    chip.borrow_mut().data = VecDeque::from(vec![0x01, 0x01, 0x00]);
    d.software_reset(&mut clock).unwrap();
    let srr = Step::Command(0x00);
    assert_eq!(
        chip.borrow().steps,
        vec![
            srr,
            Step::Data(0x01),
            srr,
            Step::ReadData,
            Step::Pause(1_000_000),
            srr,
            Step::ReadData,
            Step::Pause(1_000_000),
            srr,
            Step::ReadData
        ]
    );
}

#[test]
fn software_reset_gives_up_silently() {
    let (chip, mut d, mut clock) = display(DisplayConfig::new());
    chip.borrow_mut().data = VecDeque::from(vec![0x01; 200]);
    assert_eq!(d.software_reset(&mut clock), Ok(()));
    let reads = chip.borrow().steps.iter().filter(|s| **s == Step::ReadData).count();
    assert_eq!(reads, 100);
}

#[test]
fn display_timing_registers() {
    let (chip, mut d, _) = display(DisplayConfig::new());
    d.configure_display_timing().unwrap();
    assert_eq!(
        chip.borrow().steps,
        writes(&[
            (Register::Hdwr, 127),
            (Register::Hdwftr, 0),
            (Register::Hndr, 19),
            (Register::Hndftr, 0),
            (Register::Hstr, 19),
            (Register::Hpwr, 7),
            (Register::Vdhr1, 0x57),
            (Register::Vdhr2, 0x02),
            (Register::Vndr1, 22),
            (Register::Vndr2, 0),
            (Register::Vstr, 11),
            (Register::Vpwr, 9),
        ])
    );
}

#[test]
fn active_window_little_endian() {
    let (chip, mut d, _) = display(DisplayConfig::new());
    d.set_active_window(0x0102, 0x0304, 1024, 600).unwrap();
    assert_eq!(
        chip.borrow().steps,
        writes(&[
            (Register::AwulX1, 0x02),
            (Register::AwulX2, 0x01),
            (Register::AwulY1, 0x04),
            (Register::AwulY2, 0x03),
            (Register::AwWth1, 0x00),
            (Register::AwWth2, 0x04),
            (Register::AwHt1, 0x58),
            (Register::AwHt2, 0x02),
        ])
    );
}

#[test]
fn main_window_uses_byte_stride() {
    let (chip, mut d, _) = display(DisplayConfig::new());
    d.configure_main_window().unwrap();
    let steps = chip.borrow().steps.clone();
    assert_eq!(&steps[10..14], &writes(&[(Register::Miw1, 0x00), (Register::Miw2, 0x08)])[..]);
    assert_eq!(&steps[22..26], &writes(&[(Register::CvsImwth1, 0x00), (Register::CvsImwth2, 0x08)])[..]);
    assert_eq!(&steps[steps.len() - 2..], &writes(&[(Register::AwColor, 0x01)])[..]);
}

#[test]
fn pll_bring_up() {
    let (chip, mut d, mut clock) = display(DisplayConfig::new());
    d.configure_pll(&mut clock).unwrap();
    let mut expected = writes(&[
        (Register::Ppllc1, 0x06),
        (Register::Ppllc2, 39),
        (Register::Mpllc1, 0x04),
        (Register::Mpllc2, 39),
        (Register::Cpllc1, 0x04),
        (Register::Cpllc2, 39),
        (Register::Ccr, 0x00),
    ]);
    expected.push(Step::Pause(10_000));
    expected.extend(writes(&[(Register::Ccr, 0x80)]));
    expected.push(Step::Pause(1_000_000));
    assert_eq!(chip.borrow().steps, expected);
}

#[test]
fn sdram_bring_up() {
    let (chip, mut d, mut clock) = display(DisplayConfig::new());
    d.configure_sdram(&mut clock).unwrap();
    let mut expected = writes(&[
        (Register::Sdrar, 0x29),
        (Register::Sdrmd, 0x03),
        (Register::SdrRef1, 0x0B),
        (Register::SdrRef2, 0x03),
        (Register::Sdrcr, 0x01),
    ]);
    expected.push(Step::Pause(10_000_000));
    assert_eq!(chip.borrow().steps, expected);
}

#[test]
fn init_display_sequence() {
    let (chip, mut d, mut clock) = display(DisplayConfig::new());
    chip.borrow_mut().idle_status = 0x04;
    d.init_display(&mut clock).unwrap();
    let steps = chip.borrow().steps.clone();
    assert_eq!(
        &steps[0..4],
        &[Step::Reset(false), Step::Pause(10_000_000), Step::Reset(true), Step::Pause(100_000_000)]
    );
    assert_eq!(&steps[4..8], &[Step::Command(0x00), Step::Data(0x01), Step::Command(0x00), Step::ReadData]);
    assert_eq!(&steps[steps.len() - 2..], &writes(&[(Register::Dpcr, 0xC0)])[..]);
    let pcsr = writes(&[(Register::Pcsr, 0xC0)]);
    assert!(steps.windows(2).any(|w| w == &pcsr[..]));
}

#[test]
fn color_bar_test_ends_with_pattern() {
    let (chip, mut d, mut clock) = display(DisplayConfig::new());
    d.init_color_bar_test(&mut clock).unwrap();
    let steps = chip.borrow().steps.clone();
    assert_eq!(&steps[steps.len() - 2..], &writes(&[(Register::Dpcr, 0xE0)])[..]);
    let sdrar = Step::Command(Register::Sdrar.address());
    assert!(!steps.contains(&sdrar));
}

#[test]
fn bte_solid_fill_sequence() {
    let (chip, mut d, _) = display(DisplayConfig::new());
    chip.borrow_mut().data = VecDeque::from(vec![0x10, 0x00]);
    d.bte_solid_fill(8, 9, 100, 50, 0x00FF0000).unwrap();
    let steps = chip.borrow().steps.clone();
    assert_eq!(&steps[22..24], &writes(&[(Register::BteColr, 0x25)])[..]);
    assert_eq!(&steps[36..40], &writes(&[(Register::BteCtrl1, 0x0C), (Register::BteCtrl0, 0x10)])[..]);
    let poll = [Step::Command(0x90), Step::ReadData];
    assert_eq!(&steps[40..42], &poll[..]);
    assert_eq!(&steps[42..44], &poll[..]);
    assert_eq!(&steps[44..], &writes(&[(Register::BteCtrl0, 0x00)])[..]);
}

#[test]
fn bte_memory_copy_sequence() {
    let (chip, mut d, _) = display(DisplayConfig::new());
    d.bte_memory_copy(1, 2, 300, 4, 5, 6).unwrap();
    let steps = chip.borrow().steps.clone();
    assert_eq!(&steps[12..20], &writes(&[(Register::S0X0, 1), (Register::S0X1, 0), (Register::S0Y0, 2), (Register::S0Y1, 0)])[..]);
    assert_eq!(&steps[32..36], &writes(&[(Register::DtX0, 0x2C), (Register::DtX1, 0x01)])[..]);
    assert_eq!(&steps[50..54], &writes(&[(Register::BteCtrl1, 0xC2), (Register::BteCtrl0, 0x10)])[..]);
}

#[test]
fn text_cursor_controls() {
    let (chip, mut d, _) = display(DisplayConfig::new());
    d.set_text_cursor_blink_period(0).unwrap();
    d.enable_text_cursor().unwrap();
    assert_eq!(chip.borrow().steps, writes(&[(Register::Btcr, 0x00), (Register::Gtccr, 0x03)]));
}

#[test]
fn read_register_selects_then_reads() {
    let (chip, mut d, _) = display(DisplayConfig::new());
    chip.borrow_mut().data = VecDeque::from(vec![0x42]);
    assert_eq!(d.read_register(Register::Ccr), Ok(0x42));
    assert_eq!(chip.borrow().steps, vec![Step::Command(0x01), Step::ReadData]);
}

#[test]
fn transport_error_is_passed_through() {
    let (chip, mut d, _) = display(DisplayConfig::new());
    chip.borrow_mut().fail_after = Some(5);
    assert_eq!(d.draw_line(0, 0, 1, 1, 0), Err("bus fault"));
    assert_eq!(chip.borrow().steps.len(), 5);
}

#[test]
fn config_is_kept() {
    let (_, d, _) = display(with_depth(ColorDepth::Bpp8));
    assert_eq!(d.config().color_depth, ColorDepth::Bpp8);
    assert_eq!(d.config().width, 1024);
}
