use vstd::prelude::*;

use crate::registers::Register;

verus! {

/// A control line of the chip.
#[derive(Clone, Copy, Debug, PartialEq, Eq, Structural)]
pub enum Line {
    /// Active-low hardware reset.
    Reset,
    /// Register select (A0) of the parallel bus.
    Rs,
    /// Active-low write strobe of the parallel bus.
    Wr,
    /// Active-low read strobe of the parallel bus.
    Rd,
    /// Active-low chip enable of the parallel bus.
    Cs,
}

/// One step of the traffic with the chip.
#[derive(Clone, Copy, Debug, PartialEq, Eq, Structural)]
pub enum Event {
    /// A register address written in command mode.
    Command(u8),
    /// A byte written in data mode.
    Data(u8),
    /// A byte read in data mode.
    DataRead(u8),
    /// The status register read, with the value seen.
    Status(u8),
    /// A control line driven high (`true`) or low (`false`).
    Pin(Line, bool),
    /// A pause of at least this many nanoseconds.
    Pause(u32),
    /// A byte driven onto the parallel data bus.
    Drive(u8),
    /// The parallel data bus turned around to input.
    Input,
    /// The parallel data bus turned around to output.
    Output,
    /// A byte sampled from the parallel data bus.
    Sample(u8),
    /// A step that failed: the transport, the bus or a pin reported an error.
    Failed,
}

/// A record of the steps taken with the chip. Code outside this module
/// cannot add to it: steps enter it only through the contracts of the calls
/// that perform them (driving a pin, pausing, the methods of `Interface` and
/// `ParallelBus`).
pub struct Log {
    events: Ghost<Seq<Event>>,
}

impl Log {
    /// The steps recorded so far, in order.
    pub closed spec fn events(&self) -> Seq<Event> {
        self.events@
    }

    pub(crate) fn new() -> (r: Log)
        ensures
            r.events() == Seq::<Event>::empty(),
    {
        Log { events: Ghost(Seq::empty()) }
    }
}

/// The two accesses that store `value` into `reg`.
pub open spec fn write_events(reg: Register, value: u8) -> Seq<Event> {
    seq![Event::Command(reg.spec_address()), Event::Data(value)]
}

/// The accesses of a run of register writes, in order.
pub open spec fn writes_trace(writes: Seq<(Register, u8)>) -> Seq<Event>
    decreases writes.len(),
{
    if writes.len() == 0 {
        Seq::empty()
    } else {
        writes_trace(writes.drop_last()) + write_events(writes.last().0, writes.last().1)
    }
}

/// `after` is `before` followed by the first `i` writes of `writes`, then
/// the failure of write `i`: in its command access, or in its data access
/// after the command went through. Nothing follows the failure.
pub open spec fn writes_cut_short(
    before: Seq<Event>,
    after: Seq<Event>,
    writes: Seq<(Register, u8)>,
) -> bool {
    exists|i: int|
        0 <= i < writes.len() && (after == before + writes_trace(writes.take(i)) + seq![Event::Failed]
            || after == before + writes_trace(writes.take(i)) + seq![
            Event::Command(writes[i].0.spec_address()),
            Event::Failed,
        ])
}

/// `after` is `before` with more steps after it, the last of them a failure.
pub open spec fn stopped(before: Seq<Event>, after: Seq<Event>) -> bool {
    &&& before.len() < after.len()
    &&& forall|i: int| 0 <= i < before.len() ==> #[trigger] after[i] == before[i]
    &&& after.last() == Event::Failed
}

/// The accesses of one reading of the status register.
pub open spec fn status_probe() -> spec_fn(u8) -> Seq<Event> {
    |s: u8| seq![Event::Status(s)]
}

/// The accesses of one reading of register `reg`.
pub open spec fn register_probe(reg: Register) -> spec_fn(u8) -> Seq<Event> {
    |v: u8| seq![Event::Command(reg.spec_address()), Event::DataRead(v)]
}

/// The trace of a run of readings that each saw a value still to be waited
/// on: every reading is followed by `gap`.
pub open spec fn rounds(probe: spec_fn(u8) -> Seq<Event>, seen: Seq<u8>, gap: Seq<Event>) -> Seq<
    Event,
>
    decreases seen.len(),
{
    if seen.len() == 0 {
        Seq::empty()
    } else {
        rounds(probe, seen.drop_last(), gap) + probe(seen.last()) + gap
    }
}

/// `t` is the trace of a wait cut short by a failed reading: readings made
/// by `probe`, each with `gap` after it, all still to be waited on.
pub open spec fn polled_then_failed(
    t: Seq<Event>,
    probe: spec_fn(u8) -> Seq<Event>,
    gap: Seq<Event>,
    waiting: spec_fn(u8) -> bool,
    seen: Seq<u8>,
) -> bool {
    &&& forall|i: int| 0 <= i < seen.len() ==> #[trigger] waiting(seen[i])
    &&& t == rounds(probe, seen, gap)
}

/// `t` is the trace of a wait: readings made by `probe`, with `gap` after
/// each one that still `waiting` holds of, ended either by a reading that it
/// does not hold of (`last` is that value) or by `limit` such readings
/// (`last` is `None`).
pub open spec fn polled(
    t: Seq<Event>,
    probe: spec_fn(u8) -> Seq<Event>,
    gap: Seq<Event>,
    waiting: spec_fn(u8) -> bool,
    limit: int,
    seen: Seq<u8>,
    last: Option<u8>,
) -> bool {
    &&& forall|i: int| 0 <= i < seen.len() ==> #[trigger] waiting(seen[i])
    &&& match last {
        Some(v) => !waiting(v) && seen.len() < limit && t == rounds(probe, seen, gap) + probe(v),
        None => seen.len() == limit && t == rounds(probe, seen, gap),
    }
}

/// Status bit 3: the drawing engine is busy.
pub open spec fn draw_busy() -> spec_fn(u8) -> bool {
    |s: u8| s & 0x08 != 0
}

/// Status bit 2 clear: the SDRAM is not ready yet.
pub open spec fn sdram_not_ready() -> spec_fn(u8) -> bool {
    |s: u8| s & 0x04 == 0
}

/// Bit 0 of the software reset register: the reset is still in progress.
pub open spec fn resetting() -> spec_fn(u8) -> bool {
    |v: u8| v & 0x01 != 0
}

/// Bit 4 of block-transfer control register 0: the engine is still busy.
pub open spec fn bte_busy() -> spec_fn(u8) -> bool {
    |v: u8| v & 0x10 != 0
}

} // verus!
