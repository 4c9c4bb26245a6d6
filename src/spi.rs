use vstd::prelude::*;

use embedded_hal::spi::{Error, ErrorKind, SpiDevice};

use crate::registers::Register;

verus! {

/// First byte of a frame that writes a register address.
pub const COMMAND_WRITE: u8 = 0x00;

/// First byte of a frame that writes a data byte.
pub const DATA_WRITE: u8 = 0x80;

/// First byte of a frame that reads a data byte.
pub const DATA_READ: u8 = 0xC0;

/// First byte of a frame that reads the status register.
pub const STATUS_READ: u8 = 0x40;

/// The frame that selects `reg`.
pub open spec fn command_frame(reg: Register) -> Seq<u8> {
    seq![COMMAND_WRITE, reg.spec_address()]
}

/// The frame that writes `data` to the selected register.
pub open spec fn data_frame(data: u8) -> Seq<u8> {
    seq![DATA_WRITE, data]
}

/// The frame that reads the selected register.
pub open spec fn data_read_frame() -> Seq<u8> {
    seq![DATA_READ, 0x00u8]
}

/// The frame that reads the status register.
pub open spec fn status_read_frame() -> Seq<u8> {
    seq![STATUS_READ, 0x00u8]
}

/// The 4-wire SPI link: every access is one two-byte transaction, an access
/// mode byte and then the address, the data, or a filler byte.
pub struct SpiInterface<SPI> {
    spi: SPI,
    sent: Ghost<Seq<Seq<u8>>>,
    received: Ghost<Seq<Seq<u8>>>,
}

impl<SPI> SpiInterface<SPI> {
    /// The frames handed to the device so far, in order.
    pub closed spec fn sent(&self) -> Seq<Seq<u8>> {
        self.sent@
    }

    /// The replies of the read transactions that succeeded, in order.
    pub closed spec fn received(&self) -> Seq<Seq<u8>> {
        self.received@
    }
}

/// Relies on embedded_hal::spi::SpiDevice::write: sends the two bytes of
/// `frame` in one transaction with chip select held; the frame is recorded as
/// sent, and a failure is reported by its kind.
#[verifier::external_body]
fn spi_write<SPI: SpiDevice>(link: &mut SpiInterface<SPI>, frame: [u8; 2]) -> (r: Result<
    (),
    ErrorKind,
>)
    ensures
        final(link).sent() == old(link).sent().push(frame@),
        final(link).received() == old(link).received(),
{
    match link.spi.write(&frame) {
        Ok(()) => Ok(()),
        Err(e) => Err(e.kind()),
    }
}

/// Relies on embedded_hal::spi::SpiDevice::transfer_in_place: sends the two
/// bytes of `frame` in one full-duplex transaction and returns the two bytes
/// received meanwhile; the frame is recorded as sent, the reply as received,
/// and a failure is reported by its kind.
#[verifier::external_body]
fn spi_transfer<SPI: SpiDevice>(link: &mut SpiInterface<SPI>, frame: [u8; 2]) -> (r: Result<
    [u8; 2],
    ErrorKind,
>)
    ensures
        final(link).sent() == old(link).sent().push(frame@),
        r matches Ok(reply) ==> final(link).received() == old(link).received().push(reply@),
        r is Err ==> final(link).received() == old(link).received(),
{
    let mut buf = frame;
    match link.spi.transfer_in_place(&mut buf) {
        Ok(()) => Ok(buf),
        Err(e) => Err(e.kind()),
    }
}

impl<SPI: SpiDevice> SpiInterface<SPI> {
    fn exchange(&mut self, frame: [u8; 2]) -> (r: Result<u8, ErrorKind>)
        ensures
            final(self).sent() == old(self).sent().push(frame@),
            r is Ok ==> final(self).received().len() == old(self).received().len() + 1
                && final(self).received().drop_last() == old(self).received()
                && r->Ok_0 == final(self).received().last()[1],
            r is Err ==> final(self).received() == old(self).received(),
    {
        match spi_transfer(self, frame) {
            Ok(reply) => {
                proof {
                    assert(self.received@.drop_last() =~= old(self).received@);
                }
                Ok(reply[1])
            },
            Err(e) => Err(e),
        }
    }

    /// Wraps an SPI device that owns the chip-select line.
    pub fn new(spi: SPI) -> (r: Self)
        ensures
            r.sent() == Seq::<Seq<u8>>::empty(),
            r.received() == Seq::<Seq<u8>>::empty(),
    {
        SpiInterface { spi, sent: Ghost(Seq::empty()), received: Ghost(Seq::empty()) }
    }

    /// Hands the SPI device back.
    pub fn release(self) -> SPI {
        self.spi
    }

    /// Sends the frame `[0x00, address]` that selects `reg`.
    pub fn write_command(&mut self, reg: Register) -> (r: Result<(), ErrorKind>)
        ensures
            final(self).sent() == old(self).sent().push(command_frame(reg)),
            final(self).received() == old(self).received(),
    {
        let frame: [u8; 2] = [COMMAND_WRITE, reg.address()];
        proof {
            assert(frame@ =~= command_frame(reg));
        }
        spi_write(self, frame)
    }

    /// Sends the frame `[0x80, data]`.
    pub fn write_data(&mut self, data: u8) -> (r: Result<(), ErrorKind>)
        ensures
            final(self).sent() == old(self).sent().push(data_frame(data)),
            final(self).received() == old(self).received(),
    {
        let frame: [u8; 2] = [DATA_WRITE, data];
        proof {
            assert(frame@ =~= data_frame(data));
        }
        spi_write(self, frame)
    }

    /// Exchanges `[0xC0, 0x00]` and returns the second byte received.
    pub fn read_data(&mut self) -> (r: Result<u8, ErrorKind>)
        ensures
            final(self).sent() == old(self).sent().push(data_read_frame()),
            r is Ok ==> final(self).received().len() == old(self).received().len() + 1
                && final(self).received().drop_last() == old(self).received()
                && r->Ok_0 == final(self).received().last()[1],
            r is Err ==> final(self).received() == old(self).received(),
    {
        let frame: [u8; 2] = [DATA_READ, 0x00];
        proof {
            assert(frame@ =~= data_read_frame());
        }
        self.exchange(frame)
    }

    /// Exchanges `[0x40, 0x00]` and returns the second byte received.
    pub fn read_status(&mut self) -> (r: Result<u8, ErrorKind>)
        ensures
            final(self).sent() == old(self).sent().push(status_read_frame()),
            r is Ok ==> final(self).received().len() == old(self).received().len() + 1
                && final(self).received().drop_last() == old(self).received()
                && r->Ok_0 == final(self).received().last()[1],
            r is Err ==> final(self).received() == old(self).received(),
    {
        let frame: [u8; 2] = [STATUS_READ, 0x00];
        proof {
            assert(frame@ =~= status_read_frame());
        }
        self.exchange(frame)
    }
}

} // verus!
