use vstd::prelude::*;

use crate::registers::Register;
use crate::trace::{Event, Log};

verus! {

/// Register access to the chip over a physical link: what the driver needs
/// of a transport. Each access either succeeds or hands back the transport's
/// own error.
///
/// Each method takes the caller's record of the traffic and states what it
/// adds there: the access when it succeeded, a failure mark when it did not.
/// The driver's contracts rest on these clauses, so an impl must meet them. `SpiInterface` and `ParallelInterface` offer the four
/// methods with their wire-level contracts; a program joins one of them to
/// the driver with an impl of this trait that forwards to it.
pub trait Interface {
    type Error;

    /// Selects `reg` for the next data access.
    fn write_command(&mut self, reg: Register, log: &mut Log) -> (r: Result<(), Self::Error>)
        ensures
            r is Ok ==> final(log).events() == old(log).events().push(
                Event::Command(reg.spec_address()),
            ),
            r is Err ==> final(log).events() == old(log).events().push(Event::Failed),
    ;

    /// Writes one byte to the selected register.
    fn write_data(&mut self, data: u8, log: &mut Log) -> (r: Result<(), Self::Error>)
        ensures
            r is Ok ==> final(log).events() == old(log).events().push(Event::Data(data)),
            r is Err ==> final(log).events() == old(log).events().push(Event::Failed),
    ;

    /// Reads one byte from the selected register.
    fn read_data(&mut self, log: &mut Log) -> (r: Result<u8, Self::Error>)
        ensures
            r matches Ok(v) ==> final(log).events() == old(log).events().push(Event::DataRead(v)),
            r is Err ==> final(log).events() == old(log).events().push(Event::Failed),
    ;

    /// Reads the status register.
    fn read_status(&mut self, log: &mut Log) -> (r: Result<u8, Self::Error>)
        ensures
            r matches Ok(v) ==> final(log).events() == old(log).events().push(Event::Status(v)),
            r is Err ==> final(log).events() == old(log).events().push(Event::Failed),
    ;
}

/// The 8-bit bidirectional data bus of the parallel link (DB0 to DB7).
///
/// Each method takes the caller's record of the traffic and states what it
/// adds there; an impl must meet these clauses.
pub trait ParallelBus {
    type Error;

    /// Drives `value` onto the bus.
    fn write(&mut self, value: u8, log: &mut Log)
        ensures
            final(log).events() == old(log).events().push(Event::Drive(value)),
    ;

    /// Samples the bus.
    fn read(&mut self, log: &mut Log) -> (r: Result<u8, Self::Error>)
        ensures
            r matches Ok(v) ==> final(log).events() == old(log).events().push(Event::Sample(v)),
            r is Err ==> final(log).events() == old(log).events().push(Event::Failed),
    ;

    /// Turns the bus around to input.
    fn set_input(&mut self, log: &mut Log)
        ensures
            final(log).events() == old(log).events().push(Event::Input),
    ;

    /// Turns the bus around to output.
    fn set_output(&mut self, log: &mut Log)
        ensures
            final(log).events() == old(log).events().push(Event::Output),
    ;
}

/// A failure of a transport or of the driver: the error of the link itself,
/// passed on unchanged, or a control pin that could not be driven.
#[derive(Debug, PartialEq, Eq)]
pub enum Fault<E> {
    /// The link (the interface, or the parallel data bus) failed.
    Link(E),
    /// A control pin failed, with the kind that it reported.
    Pin(embedded_hal::digital::ErrorKind),
}

} // verus!
