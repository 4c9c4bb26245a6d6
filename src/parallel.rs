use vstd::prelude::*;

use embedded_hal::delay::DelayNs;
use embedded_hal::digital::OutputPin;

use crate::hal::{drive_pin, pause_ns};
use crate::interface::{Fault, ParallelBus};
use crate::registers::Register;
use crate::trace::{Event, Line, Log};

verus! {

/// Setup time between driving the bus and the strobe edge, in nanoseconds.
pub const SETUP_NS: u32 = 10;

/// Width of a WR or RD strobe pulse, in nanoseconds.
pub const STROBE_NS: u32 = 150;

/// A write cycle: RS set (`rs` high for data), RD high, `byte` on the bus,
/// and a WR pulse low then high.
pub open spec fn write_cycle(rs: bool, byte: u8) -> Seq<Event> {
    seq![
        Event::Pin(Line::Rs, rs),
        Event::Pin(Line::Rd, true),
        Event::Drive(byte),
        Event::Pause(SETUP_NS),
        Event::Pin(Line::Wr, false),
        Event::Pause(STROBE_NS),
        Event::Pin(Line::Wr, true),
    ]
}

/// The steps of a read cycle up to the sample: RS set, WR high, the bus
/// turned to input, and RD low.
pub open spec fn read_cycle_start(rs: bool) -> Seq<Event> {
    seq![
        Event::Pin(Line::Rs, rs),
        Event::Pin(Line::Wr, true),
        Event::Input,
        Event::Pin(Line::Rd, false),
        Event::Pause(STROBE_NS),
    ]
}

/// The steps that close a read cycle: RD high, the bus back to output.
pub open spec fn read_cycle_end() -> Seq<Event> {
    seq![Event::Pin(Line::Rd, true), Event::Output]
}

/// A read cycle that sampled `v`.
pub open spec fn read_cycle(rs: bool, v: u8) -> Seq<Event> {
    read_cycle_start(rs).push(Event::Sample(v)) + read_cycle_end()
}

/// `after` is `before` followed by the first `k` steps of `cycle` and then
/// the failure of step `k`. Nothing follows the failure.
pub open spec fn cycle_cut_short(before: Seq<Event>, after: Seq<Event>, cycle: Seq<Event>) -> bool {
    exists|k: int| 0 <= k < cycle.len() && after == before + cycle.take(k) + seq![Event::Failed]
}

/// The 8080-style 8-bit parallel link: RS selects command or data, WR and RD
/// are active-low strobes, and CS stays asserted while the transport lives.
pub struct ParallelInterface<DATA, RS, WR, RD, CS, DELAY> {
    /// DB0 to DB7.
    data: DATA,
    /// Register select (A0): high for data, low for command and status.
    rs: RS,
    /// Active-low write strobe.
    wr: WR,
    /// Active-low read strobe.
    rd: RD,
    /// Active-low chip enable.
    cs: CS,
    delay: DELAY,
    wire: Log,
}

impl<DATA, RS, WR, RD, CS, DELAY> ParallelInterface<DATA, RS, WR, RD, CS, DELAY> {
    /// The steps taken on the link so far, in order.
    pub closed spec fn wire(&self) -> Seq<Event> {
        self.wire.events()
    }
}

impl<DATA: ParallelBus, RS: OutputPin, WR: OutputPin, RD: OutputPin, CS: OutputPin, DELAY: DelayNs> ParallelInterface<
    DATA,
    RS,
    WR,
    RD,
    CS,
    DELAY,
> {
    /// Takes the bus and the control lines, leaves both strobes inactive and
    /// asserts chip select. Fails with the kind of the first pin that could
    /// not be driven.
    pub fn new(data: DATA, rs: RS, wr: WR, rd: RD, cs: CS, delay: DELAY) -> (r: Result<
        Self,
        Fault<DATA::Error>,
    >)
        ensures
            r matches Ok(link) ==> link.wire() == seq![
                Event::Pin(Line::Wr, true),
                Event::Pin(Line::Rd, true),
                Event::Pin(Line::Cs, false),
            ],
            r matches Err(f) ==> f is Pin,
    {
        let mut link = ParallelInterface { data, rs, wr, rd, cs, delay, wire: Log::new() };
        if let Err(kind) = drive_pin(&mut link.wr, Line::Wr, true, &mut link.wire) {
            return Err(Fault::Pin(kind));
        }
        if let Err(kind) = drive_pin(&mut link.rd, Line::Rd, true, &mut link.wire) {
            return Err(Fault::Pin(kind));
        }
        if let Err(kind) = drive_pin(&mut link.cs, Line::Cs, false, &mut link.wire) {
            return Err(Fault::Pin(kind));
        }
        proof {
            assert(link.wire.events() =~= seq![
                Event::Pin(Line::Wr, true),
                Event::Pin(Line::Rd, true),
                Event::Pin(Line::Cs, false),
            ]);
        }
        Ok(link)
    }

    fn set_line(&mut self, line: Line, high: bool) -> (r: Result<(), Fault<DATA::Error>>)
        requires
            line == Line::Rs || line == Line::Wr || line == Line::Rd,
        ensures
            r is Ok ==> final(self).wire() == old(self).wire().push(Event::Pin(line, high)),
            r is Err ==> final(self).wire() == old(self).wire().push(Event::Failed),
    {
        let driven = match line {
            Line::Rs => drive_pin(&mut self.rs, Line::Rs, high, &mut self.wire),
            Line::Wr => drive_pin(&mut self.wr, Line::Wr, high, &mut self.wire),
            _ => drive_pin(&mut self.rd, Line::Rd, high, &mut self.wire),
        };
        match driven {
            Ok(()) => Ok(()),
            Err(kind) => Err(Fault::Pin(kind)),
        }
    }

    fn pause(&mut self, ns: u32)
        ensures
            final(self).wire() == old(self).wire().push(Event::Pause(ns)),
    {
        pause_ns(&mut self.delay, ns, &mut self.wire);
    }

    fn write_cycle(&mut self, rs: bool, byte: u8) -> (r: Result<(), Fault<DATA::Error>>)
        ensures
            r is Ok ==> final(self).wire() == old(self).wire() + write_cycle(rs, byte),
            r is Err ==> cycle_cut_short(old(self).wire(), final(self).wire(), write_cycle(rs, byte)),
    {
        let ghost start = self.wire.events();
        let ghost c = write_cycle(rs, byte);
        if let Err(e) = self.set_line(Line::Rs, rs) {
            assert(self.wire.events() =~= start + c.take(0) + seq![Event::Failed]);
            return Err(e);
        }
        if let Err(e) = self.set_line(Line::Rd, true) {
            assert(self.wire.events() =~= start + c.take(1) + seq![Event::Failed]);
            return Err(e);
        }
        self.data.write(byte, &mut self.wire);
        self.pause(SETUP_NS);
        if let Err(e) = self.set_line(Line::Wr, false) {
            assert(self.wire.events() =~= start + c.take(4) + seq![Event::Failed]);
            return Err(e);
        }
        self.pause(STROBE_NS);
        if let Err(e) = self.set_line(Line::Wr, true) {
            assert(self.wire.events() =~= start + c.take(6) + seq![Event::Failed]);
            return Err(e);
        }
        assert(self.wire.events() =~= start + c);
        Ok(())
    }

    fn read_cycle(&mut self, rs: bool) -> (r: Result<u8, Fault<DATA::Error>>)
        ensures
            r matches Ok(v) ==> final(self).wire() == old(self).wire() + read_cycle(rs, v),
            r is Err ==> exists|v: u8|
                cycle_cut_short(old(self).wire(), final(self).wire(), read_cycle(rs, v)),
    {
        let ghost start = self.wire.events();
        if let Err(e) = self.set_line(Line::Rs, rs) {
            assert(self.wire.events() =~= start + read_cycle(rs, 0).take(0) + seq![Event::Failed]);
            return Err(e);
        }
        if let Err(e) = self.set_line(Line::Wr, true) {
            assert(self.wire.events() =~= start + read_cycle(rs, 0).take(1) + seq![Event::Failed]);
            return Err(e);
        }
        self.data.set_input(&mut self.wire);
        if let Err(e) = self.set_line(Line::Rd, false) {
            assert(self.wire.events() =~= start + read_cycle(rs, 0).take(3) + seq![Event::Failed]);
            return Err(e);
        }
        self.pause(STROBE_NS);
        let v = match self.data.read(&mut self.wire) {
            Ok(v) => v,
            Err(e) => {
                assert(self.wire.events() =~= start + read_cycle(rs, 0).take(5) + seq![Event::Failed]);
                return Err(Fault::Link(e));
            },
        };
        if let Err(e) = self.set_line(Line::Rd, true) {
            assert(self.wire.events() =~= start + read_cycle(rs, v).take(6) + seq![Event::Failed]);
            return Err(e);
        }
        self.data.set_output(&mut self.wire);
        assert(self.wire.events() =~= start + read_cycle(rs, v));
        Ok(v)
    }

    /// Selects `reg`: RS low, RD high, the address on the bus, a WR pulse.
    pub fn write_command(&mut self, reg: Register) -> (r: Result<(), Fault<DATA::Error>>)
        ensures
            r is Ok ==> final(self).wire() == old(self).wire() + write_cycle(false, reg.spec_address()),
            r is Err ==> cycle_cut_short(
                old(self).wire(),
                final(self).wire(),
                write_cycle(false, reg.spec_address()),
            ),
    {
        self.write_cycle(false, reg.address())
    }

    /// Writes `data`: RS high, RD high, the byte on the bus, a WR pulse.
    pub fn write_data(&mut self, data: u8) -> (r: Result<(), Fault<DATA::Error>>)
        ensures
            r is Ok ==> final(self).wire() == old(self).wire() + write_cycle(true, data),
            r is Err ==> cycle_cut_short(old(self).wire(), final(self).wire(), write_cycle(true, data)),
    {
        self.write_cycle(true, data)
    }

    /// Reads the selected register: RS high, WR high, the bus to input, RD
    /// pulsed low around the sample, RD high, the bus back to output.
    pub fn read_data(&mut self) -> (r: Result<u8, Fault<DATA::Error>>)
        ensures
            r matches Ok(v) ==> final(self).wire() == old(self).wire() + read_cycle(true, v),
            r is Err ==> exists|v: u8|
                cycle_cut_short(old(self).wire(), final(self).wire(), read_cycle(true, v)),
    {
        self.read_cycle(true)
    }

    /// Reads the status register: as `read_data`, with RS low.
    pub fn read_status(&mut self) -> (r: Result<u8, Fault<DATA::Error>>)
        ensures
            r matches Ok(v) ==> final(self).wire() == old(self).wire() + read_cycle(false, v),
            r is Err ==> exists|v: u8|
                cycle_cut_short(old(self).wire(), final(self).wire(), read_cycle(false, v)),
    {
        self.read_cycle(false)
    }
}

} // verus!
