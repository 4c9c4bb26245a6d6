use vstd::prelude::*;

use embedded_hal::delay::DelayNs;
use embedded_hal::digital::{Error, OutputPin, PinState};
use embedded_hal::spi::ErrorKind;

use crate::trace::{Event, Line, Log};

verus! {

/// The kind of a failure that an SPI device reports
/// (embedded_hal::spi::ErrorKind): the error type of the SPI transport.
#[verifier::external_type_specification]
#[verifier::external_body]
pub struct ExErrorKind(ErrorKind);

/// The kind of a failure that an output pin reports
/// (embedded_hal::digital::ErrorKind).
#[verifier::external_type_specification]
#[verifier::external_body]
pub struct ExPinErrorKind(embedded_hal::digital::ErrorKind);

/// Relies on embedded_hal::digital::OutputPin::set_state: drives `pin`, the
/// control line `line`, to the level given (`true` is high). `log` records
/// the step when the pin reports success, and a failure otherwise; a failure
/// is reported by its kind.
#[verifier::external_body]
pub(crate) fn drive_pin<P: OutputPin>(pin: &mut P, line: Line, high: bool, log: &mut Log) -> (r:
    Result<(), embedded_hal::digital::ErrorKind>)
    ensures
        r is Ok ==> final(log).events() == old(log).events().push(Event::Pin(line, high)),
        r is Err ==> final(log).events() == old(log).events().push(Event::Failed),
{
    match pin.set_state(PinState::from(high)) {
        Ok(()) => Ok(()),
        Err(e) => Err(e.kind()),
    }
}

/// Relies on embedded_hal::delay::DelayNs::delay_ns: blocks for at least `ns`
/// nanoseconds; `log` records the pause.
#[verifier::external_body]
pub(crate) fn pause_ns<D: DelayNs>(delay: &mut D, ns: u32, log: &mut Log)
    ensures
        final(log).events() == old(log).events().push(Event::Pause(ns)),
{
    delay.delay_ns(ns)
}

} // verus!
