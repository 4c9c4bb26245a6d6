use std::cell::RefCell;
use std::rc::Rc;

use embedded_hal::delay::DelayNs;
use embedded_hal::digital::{ErrorType, OutputPin};
use embedded_hal::spi::{self, ErrorKind, Operation, SpiDevice};
use lt7683::{DisplayConfig, Fault, Interface, Log, ParallelBus, ParallelInterface, Register, SpiInterface, LT7683};

#[derive(Default)]
struct SpiRecord {
    frames: Vec<Vec<u8>>,
    reply: Vec<u8>,
    fail: Option<ErrorKind>,
}

struct MockSpi(Rc<RefCell<SpiRecord>>);

impl spi::ErrorType for MockSpi {
    type Error = ErrorKind;
}

impl SpiDevice for MockSpi {
    fn transaction(&mut self, operations: &mut [Operation<'_, u8>]) -> Result<(), ErrorKind> {
        let mut rec = self.0.borrow_mut();
        if let Some(kind) = rec.fail {
            return Err(kind);
        }
        for op in operations.iter_mut() {
            match op {
                Operation::Write(bytes) => rec.frames.push(bytes.to_vec()),
                Operation::TransferInPlace(buf) => {
                    rec.frames.push(buf.to_vec());
                    let reply = rec.reply.clone();
                    buf.copy_from_slice(&reply[..buf.len()]);
                }
                _ => panic!("unexpected SPI operation"),
            }
        }
        Ok(())
    }
}

struct SpiLink(SpiInterface<MockSpi>);

impl Interface for SpiLink {
    type Error = ErrorKind;
    fn write_command(&mut self, reg: Register, _log: &mut Log) -> Result<(), ErrorKind> {
        self.0.write_command(reg)
    }
    fn write_data(&mut self, data: u8, _log: &mut Log) -> Result<(), ErrorKind> {
        self.0.write_data(data)
    }
    fn read_data(&mut self, _log: &mut Log) -> Result<u8, ErrorKind> {
        self.0.read_data()
    }
    fn read_status(&mut self, _log: &mut Log) -> Result<u8, ErrorKind> {
        self.0.read_status()
    }
}

fn spi() -> (Rc<RefCell<SpiRecord>>, SpiInterface<MockSpi>) {
    let rec = Rc::new(RefCell::new(SpiRecord::default()));
    (rec.clone(), SpiInterface::new(MockSpi(rec)))
}

#[test]
fn spi_write_command_frame() {
    let (rec, mut link) = spi();
    link.write_command(Register::Srr).unwrap();
    link.write_command(Register::Fgcr).unwrap();
    assert_eq!(rec.borrow().frames, vec![vec![0x00, 0x00], vec![0x00, 0xD2]]);
}

#[test]
fn spi_write_data_frame() {
    let (rec, mut link) = spi();
    link.write_data(0x01).unwrap();
    assert_eq!(rec.borrow().frames, vec![vec![0x80, 0x01]]);
}

#[test]
fn spi_read_data_returns_second_byte() {
    let (rec, mut link) = spi();
    rec.borrow_mut().reply = vec![0xEE, 0x07];
    assert_eq!(link.read_data(), Ok(0x07));
    assert_eq!(rec.borrow().frames, vec![vec![0xC0, 0x00]]);
}

#[test]
fn spi_read_status_frame() {
    let (rec, mut link) = spi();
    rec.borrow_mut().reply = vec![0x00, 0x04];
    assert_eq!(link.read_status(), Ok(0x04));
    assert_eq!(rec.borrow().frames, vec![vec![0x40, 0x00]]);
}

#[test]
fn spi_failure_reports_its_kind() {
    let (rec, mut link) = spi();
    rec.borrow_mut().fail = Some(ErrorKind::ModeFault);
    assert_eq!(link.write_data(0x01), Err(ErrorKind::ModeFault));
    assert_eq!(link.read_status(), Err(ErrorKind::ModeFault));
}

#[derive(Debug, Clone, Copy, PartialEq)]
enum Line {
    Rs(bool),
    Wr(bool),
    Rd(bool),
    Cs(bool),
    Reset(bool),
    Drive(u8),
    Input,
    Output,
    Sample,
    Pause(u32),
}

type Lines = Rc<RefCell<Vec<Line>>>;

struct Pin(Lines, fn(bool) -> Line);

impl ErrorType for Pin {
    type Error = core::convert::Infallible;
}

impl OutputPin for Pin {
    fn set_low(&mut self) -> Result<(), Self::Error> {
        self.0.borrow_mut().push((self.1)(false));
        Ok(())
    }
    fn set_high(&mut self) -> Result<(), Self::Error> {
        self.0.borrow_mut().push((self.1)(true));
        Ok(())
    }
}

struct Delay(Lines);

impl DelayNs for Delay {
    fn delay_ns(&mut self, ns: u32) {
        self.0.borrow_mut().push(Line::Pause(ns));
    }
}

struct Bus(Lines, u8);

impl ParallelBus for Bus {
    type Error = ();
    fn write(&mut self, value: u8, _log: &mut Log) {
        self.0.borrow_mut().push(Line::Drive(value));
    }
    fn read(&mut self, _log: &mut Log) -> Result<u8, ()> {
        self.0.borrow_mut().push(Line::Sample);
        Ok(self.1)
    }
    fn set_input(&mut self, _log: &mut Log) {
        self.0.borrow_mut().push(Line::Input);
    }
    fn set_output(&mut self, _log: &mut Log) {
        self.0.borrow_mut().push(Line::Output);
    }
}

type Parallel = ParallelInterface<Bus, Pin, Pin, Pin, Pin, Delay>;

fn parallel(sample: u8) -> (Lines, Parallel) {
    let lines: Lines = Rc::new(RefCell::new(Vec::new()));
    let link = ParallelInterface::new(
        Bus(lines.clone(), sample),
        Pin(lines.clone(), Line::Rs),
        Pin(lines.clone(), Line::Wr),
        Pin(lines.clone(), Line::Rd),
        Pin(lines.clone(), Line::Cs),
        Delay(lines.clone()),
    )
    .unwrap();
    (lines, link)
}

struct ParallelLink(Parallel);

impl Interface for ParallelLink {
    type Error = Fault<()>;
    fn write_command(&mut self, reg: Register, _log: &mut Log) -> Result<(), Fault<()>> {
        self.0.write_command(reg)
    }
    fn write_data(&mut self, data: u8, _log: &mut Log) -> Result<(), Fault<()>> {
        self.0.write_data(data)
    }
    fn read_data(&mut self, _log: &mut Log) -> Result<u8, Fault<()>> {
        self.0.read_data()
    }
    fn read_status(&mut self, _log: &mut Log) -> Result<u8, Fault<()>> {
        self.0.read_status()
    }
}

fn write_cycle(rs: bool, byte: u8) -> Vec<Line> {
    vec![
        Line::Rs(rs),
        Line::Rd(true),
        Line::Drive(byte),
        Line::Pause(10),
        Line::Wr(false),
        Line::Pause(150),
        Line::Wr(true),
    ]
}

#[test]
fn parallel_new_asserts_chip_select() {
    let (lines, _link) = parallel(0);
    assert_eq!(*lines.borrow(), vec![Line::Wr(true), Line::Rd(true), Line::Cs(false)]);
}

#[test]
fn parallel_write_command_cycle() {
    let (lines, mut link) = parallel(0);
    lines.borrow_mut().clear();
    link.write_command(Register::Dpcr).unwrap();
    assert_eq!(*lines.borrow(), write_cycle(false, 0x12));
}

#[test]
fn parallel_read_status_cycle() {
    let (lines, mut link) = parallel(0x5A);
    lines.borrow_mut().clear();
    assert_eq!(link.read_status(), Ok(0x5A));
    assert_eq!(
        *lines.borrow(),
        vec![
            Line::Rs(false),
            Line::Wr(true),
            Line::Input,
            Line::Rd(false),
            Line::Pause(150),
            Line::Sample,
            Line::Rd(true),
            Line::Output,
        ]
    );
}

#[test]
fn parallel_read_data_uses_data_mode() {
    let (lines, mut link) = parallel(0x33);
    lines.borrow_mut().clear();
    assert_eq!(link.read_data(), Ok(0x33));
    assert_eq!(lines.borrow()[0], Line::Rs(true));
}

#[test]
fn write_register_over_spi() {
    let (rec, link) = spi();
    let reset_lines: Lines = Rc::new(RefCell::new(Vec::new()));
    let mut display = LT7683::new(SpiLink(link), Pin(reset_lines, Line::Reset), DisplayConfig::new());
    display.write_register(Register::Srr, 0x01).unwrap();
    assert_eq!(rec.borrow().frames, vec![vec![0x00, 0x00], vec![0x80, 0x01]]);
}

#[test]
fn write_register_over_parallel() {
    let (lines, link) = parallel(0);
    let mut display = LT7683::new(ParallelLink(link), Pin(lines.clone(), Line::Reset), DisplayConfig::new());
    lines.borrow_mut().clear();
    display.write_register(Register::Srr, 0x01).unwrap();
    let mut expected = write_cycle(false, 0x00);
    expected.extend(write_cycle(true, 0x01));
    assert_eq!(*lines.borrow(), expected);
}

#[test]
fn hardware_reset_pulse() {
    let (lines, link) = parallel(0);
    let mut display = LT7683::new(ParallelLink(link), Pin(lines.clone(), Line::Reset), DisplayConfig::new());
    let mut delay = Delay(lines.clone());
    lines.borrow_mut().clear();
    display.hardware_reset(&mut delay).unwrap();
    assert_eq!(
        *lines.borrow(),
        vec![Line::Reset(false), Line::Pause(10_000_000), Line::Reset(true), Line::Pause(100_000_000)]
    );
}

struct BrokenPin;

impl ErrorType for BrokenPin {
    type Error = embedded_hal::digital::ErrorKind;
}

impl OutputPin for BrokenPin {
    fn set_low(&mut self) -> Result<(), Self::Error> {
        Err(embedded_hal::digital::ErrorKind::Other)
    }
    fn set_high(&mut self) -> Result<(), Self::Error> {
        Err(embedded_hal::digital::ErrorKind::Other)
    }
}

#[test]
fn parallel_new_reports_pin_failure() {
    let lines: Lines = Rc::new(RefCell::new(Vec::new()));
    let link = ParallelInterface::new(
        Bus(lines.clone(), 0),
        Pin(lines.clone(), Line::Rs),
        BrokenPin,
        Pin(lines.clone(), Line::Rd),
        Pin(lines.clone(), Line::Cs),
        Delay(lines.clone()),
    );
    assert!(matches!(link, Err(Fault::Pin(embedded_hal::digital::ErrorKind::Other))));
    assert!(lines.borrow().is_empty());
}

#[test]
fn hardware_reset_reports_pin_failure() {
    let lines: Lines = Rc::new(RefCell::new(Vec::new()));
    let (_, link) = parallel(0);
    let mut display = LT7683::new(ParallelLink(link), BrokenPin, DisplayConfig::new());
    let mut delay = Delay(lines.clone());
    assert_eq!(
        display.hardware_reset(&mut delay),
        Err(Fault::Pin(embedded_hal::digital::ErrorKind::Other))
    );
    assert!(lines.borrow().is_empty());
}
