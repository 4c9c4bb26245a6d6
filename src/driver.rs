use vstd::prelude::*;
use vstd::string::StringSliceAdditionalSpecFns;

use embedded_hal::delay::DelayNs;
use embedded_hal::digital::OutputPin;

use crate::config::DisplayConfig;
use crate::config::ColorDepth;
use crate::encoding::{
    bte_color, eighths_minus_one, encode_color, expand_rgb565, high_byte, last_index, low_byte,
    minus_one, refresh_interval, text_control,
};
use crate::sequences::{
    background_writes, clear_screen_writes, filled_rectangle_writes, foreground_rgb565_writes,
    foreground_writes, image_stride, line_writes, main_window_events, main_window_writes,
    memory_copy_writes, mode_writes, pll_events, pll_writes, sdram_events, sdram_writes,
    shape_writes, solid_fill_writes, text_bytes_writes, text_setup_writes, timing_writes,
    window_writes, MEMORY_CLOCK_MHZ, PLL_LATCH_NS, PLL_SETTLE_NS, SDRAM_SETTLE_NS,
};
use crate::hal::{drive_pin, pause_ns};
use crate::interface::{Fault, Interface};
use crate::registers::Register;
use crate::trace::{
    bte_busy, draw_busy, polled, polled_then_failed, register_probe, resetting, rounds, sdram_not_ready, status_probe,
    stopped, write_events, writes_cut_short, writes_trace, Event, Line, Log,
};

verus! {

/// How long the reset line is held low, in nanoseconds (10 ms).
pub const RESET_PULSE_NS: u32 = 10_000_000;

/// How long the chip is left to boot after reset, in nanoseconds (100 ms).
pub const BOOT_SETTLE_NS: u32 = 100_000_000;

/// The accesses of a hardware reset: the line low, a pause, the line high,
/// and the boot pause.
pub open spec fn hardware_reset_events() -> Seq<Event> {
    seq![
        Event::Pin(Line::Reset, false),
        Event::Pause(RESET_PULSE_NS),
        Event::Pin(Line::Reset, true),
        Event::Pause(BOOT_SETTLE_NS),
    ]
}

/// Readings of the waits on the drawing and block-transfer engines: these
/// waits have no timeout of their own, and the count of readings is the only
/// bound (2^64 - 1 readings, far beyond the life of any panel).
pub const POLL_LIMIT: u64 = 0xFFFF_FFFF_FFFF_FFFF;

/// Readings of the status register while waiting for the SDRAM.
pub const SDRAM_POLLS: u64 = 100;

/// Pause after each reading that shows the SDRAM not ready (10 ms).
pub const SDRAM_POLL_NS: u32 = 10_000_000;

/// Readings of the software reset register while the reset runs.
pub const RESET_POLLS: u64 = 100;

/// Pause after each reading that shows the reset still running (1 ms).
pub const RESET_POLL_NS: u32 = 1_000_000;

/// `t` is the trace of a wait on the drawing engine: status readings until
/// the busy bit is clear.
pub open spec fn draw_wait(t: Seq<Event>) -> bool {
    exists|seen: Seq<u8>, last: Option<u8>|
        polled(t, status_probe(), Seq::empty(), draw_busy(), POLL_LIMIT as int, seen, last)
}

/// `t` is the trace of a wait on the block-transfer engine: readings of its
/// control register until the busy bit is clear.
pub open spec fn bte_wait(t: Seq<Event>) -> bool {
    exists|seen: Seq<u8>, last: Option<u8>|
        polled(
            t,
            register_probe(Register::BteCtrl0),
            Seq::empty(),
            bte_busy(),
            POLL_LIMIT as int,
            seen,
            last,
        )
}

/// `tail` is how an access to `reg` failed: in its command, or in its data
/// access after the command went through.
pub open spec fn failed_access(reg: Register, tail: Seq<Event>) -> bool {
    tail == seq![Event::Failed] || tail == seq![Event::Command(reg.spec_address()), Event::Failed]
}

/// `t` is the trace of readings of the block-transfer control register
/// that all showed the engine busy.
pub open spec fn bte_busy_readings(t: Seq<Event>) -> bool {
    exists|seen: Seq<u8>|
        polled_then_failed(t, register_probe(Register::BteCtrl0), Seq::empty(), bte_busy(), seen)
}

/// `t` is the trace of a wait on the block-transfer engine that failed:
/// readings that all showed it busy, then a failed reading; or the whole
/// wait, then a failed write of 0 to the control register.
pub open spec fn bte_wait_failed(t: Seq<Event>) -> bool {
    exists|before: Seq<Event>, tail: Seq<Event>|
        failed_access(Register::BteCtrl0, tail) && t == before + tail && (bte_busy_readings(before)
            || bte_wait(before))
}

/// `t` is the trace of a wait for the SDRAM: the status readings `seen`
/// that showed it not ready, each followed by a 10 ms pause, and then the
/// reading `last` that showed it ready, or none after 100 readings.
pub open spec fn sdram_wait(t: Seq<Event>, seen: Seq<u8>, last: Option<u8>) -> bool {
    polled(
        t,
        status_probe(),
        seq![Event::Pause(SDRAM_POLL_NS)],
        sdram_not_ready(),
        SDRAM_POLLS as int,
        seen,
        last,
    )
}

/// `t` is the trace of a wait for the software reset: up to 100 readings of
/// the reset register, a 1 ms pause after each one with bit 0 still set.
pub open spec fn reset_wait(t: Seq<Event>) -> bool {
    exists|seen: Seq<u8>, last: Option<u8>|
        polled(
            t,
            register_probe(Register::Srr),
            seq![Event::Pause(RESET_POLL_NS)],
            resetting(),
            RESET_POLLS as int,
            seen,
            last,
        )
}

/// Driver for the LT7683 TFT controller: owns the transport, the active-low
/// reset line and the panel configuration.
///
/// Every operation is a fixed sequence of register accesses, at times with a
/// wait on a status bit; the trace records the accesses made so far.
pub struct LT7683<I, RES> {
    interface: I,
    reset: RES,
    config: DisplayConfig,
    log: Log,
}

impl<I, RES> LT7683<I, RES> {
    /// The accesses made so far, in order.
    pub closed spec fn trace(&self) -> Seq<Event> {
        self.log.events()
    }

    /// The panel configuration the driver was built with.
    pub closed spec fn spec_config(&self) -> DisplayConfig {
        self.config
    }

    /// The panel configuration the driver was built with.
    #[verifier::when_used_as_spec(spec_config)]
    pub fn config(&self) -> (r: DisplayConfig)
        ensures
            r == self.spec_config(),
    {
        self.config
    }
}

impl<I: Interface, RES: OutputPin> LT7683<I, RES> {
    /// Takes the transport, the reset line and the configuration. Nothing is
    /// sent to the chip until one of the operations is called.
    pub fn new(interface: I, reset: RES, config: DisplayConfig) -> (r: Self)
        ensures
            r.spec_config() == config,
            r.trace() == Seq::<Event>::empty(),
    {
        LT7683 { interface, reset, config, log: Log::new() }
    }

    fn pause<D: DelayNs>(&mut self, delay: &mut D, ns: u32)
        ensures
            final(self).spec_config() == old(self).spec_config(),
            final(self).trace() == old(self).trace().push(Event::Pause(ns)),
    {
        pause_ns(delay, ns, &mut self.log);
    }

    fn drive_reset(&mut self, high: bool) -> (r: Result<(), Fault<I::Error>>)
        ensures
            final(self).spec_config() == old(self).spec_config(),
            r is Ok ==> final(self).trace() == old(self).trace().push(Event::Pin(Line::Reset, high)),
            r matches Err(f) ==> f is Pin && final(self).trace() == old(self).trace().push(
                Event::Failed,
            ),
    {
        match drive_pin(&mut self.reset, Line::Reset, high, &mut self.log) {
            Ok(()) => Ok(()),
            Err(kind) => Err(Fault::Pin(kind)),
        }
    }

    /// Pulses the reset line low for 10 ms, then waits 100 ms for the chip
    /// to boot. Fails with the kind that the reset pin reports, at the first
    /// level it could not drive.
    pub fn hardware_reset<D: DelayNs>(&mut self, delay: &mut D) -> (r: Result<(), Fault<I::Error>>)
        ensures
            final(self).spec_config() == old(self).spec_config(),
            r is Ok ==> final(self).trace() == old(self).trace() + hardware_reset_events(),
            r matches Err(f) ==> f is Pin && (final(self).trace() == old(self).trace() + seq![
                Event::Failed,
            ] || final(self).trace() == old(self).trace() + hardware_reset_events().take(2)
                + seq![Event::Failed]),
    {
        self.drive_reset(false)?;
        self.pause(delay, RESET_PULSE_NS);
        if let Err(f) = self.drive_reset(true) {
            assert(self.log.events() =~= old(self).log.events() + hardware_reset_events().take(2)
                + seq![Event::Failed]);
            return Err(f);
        }
        self.pause(delay, BOOT_SETTLE_NS);
        proof {
            assert(self.log.events() =~= old(self).log.events() + hardware_reset_events());
        }
        Ok(())
    }

    /// Selects `reg` for the next data access.
    pub fn write_command(&mut self, reg: Register) -> (r: Result<(), I::Error>)
        ensures
            final(self).spec_config() == old(self).spec_config(),
            r is Ok ==> final(self).trace() == old(self).trace().push(
                Event::Command(reg.spec_address()),
            ),
            r is Err ==> final(self).trace() == old(self).trace().push(Event::Failed),
    {
        self.interface.write_command(reg, &mut self.log)
    }

    /// Writes `data` to the selected register.
    pub fn write_data(&mut self, data: u8) -> (r: Result<(), I::Error>)
        ensures
            final(self).spec_config() == old(self).spec_config(),
            r is Ok ==> final(self).trace() == old(self).trace().push(Event::Data(data)),
            r is Err ==> final(self).trace() == old(self).trace().push(Event::Failed),
    {
        self.interface.write_data(data, &mut self.log)
    }

    /// Reads one byte from the selected register.
    pub fn read_data(&mut self) -> (r: Result<u8, I::Error>)
        ensures
            final(self).spec_config() == old(self).spec_config(),
            r is Ok ==> final(self).trace() == old(self).trace().push(Event::DataRead(r->Ok_0)),
            r is Err ==> final(self).trace() == old(self).trace().push(Event::Failed),
    {
        self.interface.read_data(&mut self.log)
    }

    /// Reads the status register. Bits, from 7 down: memory busy, BTE busy,
    /// DMA busy, text engine busy, drawing engine busy, SDRAM ready, reserved,
    /// operation mode.
    pub fn read_status(&mut self) -> (r: Result<u8, I::Error>)
        ensures
            final(self).spec_config() == old(self).spec_config(),
            r is Ok ==> final(self).trace() == old(self).trace().push(Event::Status(r->Ok_0)),
            r is Err ==> final(self).trace() == old(self).trace().push(Event::Failed),
    {
        self.interface.read_status(&mut self.log)
    }

    /// Stores `data` into `reg`: the command access, then the data access.
    pub fn write_register(&mut self, reg: Register, data: u8) -> (r: Result<(), I::Error>)
        ensures
            final(self).spec_config() == old(self).spec_config(),
            r is Ok ==> final(self).trace() == old(self).trace() + write_events(reg, data),
            r is Err ==> final(self).trace() == old(self).trace().push(Event::Failed) || final(self).trace()
                == old(self).trace() + seq![Event::Command(reg.spec_address()), Event::Failed],
    {
        self.write_command(reg)?;
        if let Err(e) = self.write_data(data) {
            assert(self.log.events() =~= old(self).log.events() + seq![
                Event::Command(reg.spec_address()),
                Event::Failed,
            ]);
            return Err(e);
        }
        proof {
            assert(self.log.events() =~= old(self).log.events() + write_events(reg, data));
        }
        Ok(())
    }

    /// Reads `reg`: the command access, then a data read.
    pub fn read_register(&mut self, reg: Register) -> (r: Result<u8, I::Error>)
        ensures
            final(self).spec_config() == old(self).spec_config(),
            r is Ok ==> final(self).trace() == old(self).trace() + register_probe(reg)(r->Ok_0),
            r is Err ==> final(self).trace() == old(self).trace().push(Event::Failed) || final(self).trace()
                == old(self).trace() + seq![Event::Command(reg.spec_address()), Event::Failed],
    {
        self.write_command(reg)?;
        let v = match self.read_data() {
            Ok(v) => v,
            Err(e) => {
                assert(self.log.events() =~= old(self).log.events() + seq![
                    Event::Command(reg.spec_address()),
                    Event::Failed,
                ]);
                return Err(e);
            },
        };
        proof {
            assert(self.log.events() =~= old(self).log.events() + register_probe(reg)(v));
        }
        Ok(v)
    }

    /// Stores each value into its register, in order; stops at the first
    /// access that fails.
    fn write_registers(&mut self, writes: &[(Register, u8)]) -> (r: Result<(), I::Error>)
        ensures
            final(self).spec_config() == old(self).spec_config(),
            r is Ok ==> final(self).trace() == old(self).trace() + writes_trace(writes@),
            r is Err ==> writes_cut_short(old(self).trace(), final(self).trace(), writes@),
    {
        let ghost start = self.log.events();
        let mut i: usize = 0;
        while i < writes.len()
            invariant
                0 <= i <= writes@.len(),
                self.config == old(self).config,
                start == old(self).log.events(),
                self.log.events() == start + writes_trace(writes@.take(i as int)),
            decreases writes.len() - i,
        {
            let (reg, value) = writes[i];
            let ghost done = writes@.take(i as int);
            proof {
                assert(writes@.take(i as int + 1).drop_last() =~= done);
                assert(writes@[i as int] == (reg, value));
            }
            if let Err(e) = self.write_command(reg) {
                assert(writes_cut_short(start, self.log.events(), writes@)) by {
                    assert(self.log.events() =~= start + writes_trace(writes@.take(i as int)) + seq![
                        Event::Failed,
                    ]);
                }
                return Err(e);
            }
            if let Err(e) = self.write_data(value) {
                assert(writes_cut_short(start, self.log.events(), writes@)) by {
                    assert(self.log.events() =~= start + writes_trace(writes@.take(i as int)) + seq![
                        Event::Command(writes@[i as int].0.spec_address()),
                        Event::Failed,
                    ]);
                }
                return Err(e);
            }
            proof {
                assert(self.log.events() =~= start + writes_trace(writes@.take(i as int + 1)));
            }
            i += 1;
        }
        proof {
            assert(writes@.take(writes@.len() as int) =~= writes@);
        }
        Ok(())
    }
}

impl<I: Interface, RES: OutputPin> LT7683<I, RES> {
    /// Waits until the drawing engine is idle: reads the status register
    /// until bit 3 is clear. There is no timeout: the only bound is
    /// `POLL_LIMIT` readings, after which it returns `Ok` though the bit is
    /// still set (at one reading per microsecond that is over 500,000 years).
    pub fn wait_busy_draw(&mut self) -> (r: Result<(), I::Error>)
        ensures
            final(self).spec_config() == old(self).spec_config(),
            r is Ok ==> exists|t: Seq<Event>|
                final(self).trace() == old(self).trace() + t && draw_wait(t),
            r is Err ==> exists|t: Seq<Event>, seen: Seq<u8>|
                final(self).trace() == old(self).trace() + t + seq![Event::Failed] && polled_then_failed(
                    t,
                    status_probe(),
                    Seq::empty(),
                    draw_busy(),
                    seen,
                ),
    {
        let ghost start = self.log.events();
        let ghost mut seen: Seq<u8> = Seq::empty();
        let mut polls: u64 = 0;
        while polls < POLL_LIMIT
            invariant
                polls == seen.len(),
                self.config == old(self).config,
                start == old(self).log.events(),
                self.log.events() == start + rounds(status_probe(), seen, Seq::empty()),
                forall|i: int| 0 <= i < seen.len() ==> #[trigger] draw_busy()(seen[i]),
            decreases POLL_LIMIT - polls,
        {
            let status = match self.read_status() {
                Ok(s) => s,
                Err(e) => {
                    proof {
                        let t = rounds(status_probe(), seen, Seq::empty());
                        assert(polled_then_failed(t, status_probe(), Seq::empty(), draw_busy(), seen));
                        assert(self.log.events() =~= start + t + seq![Event::Failed]);
                    }
                    return Err(e);
                },
            };
            if status & 0x08 == 0 {
                proof {
                    let t = rounds(status_probe(), seen, Seq::empty()) + status_probe()(status);
                    assert(self.log.events() =~= start + t);
                    assert(polled(t, status_probe(), Seq::empty(), draw_busy(), POLL_LIMIT as int, seen, Some(status)));
                    assert(draw_wait(t));
                }
                return Ok(());
            }
            proof {
                assert(seen.push(status).drop_last() =~= seen);
                assert(self.log.events() =~= start + rounds(status_probe(), seen.push(status), Seq::empty()));
                seen = seen.push(status);
            }
            polls += 1;
        }
        proof {
            let t = rounds(status_probe(), seen, Seq::empty());
            assert(polled(t, status_probe(), Seq::empty(), draw_busy(), POLL_LIMIT as int, seen, None));
            assert(draw_wait(t));
            assert(self.log.events() == start + t);
        }
        Ok(())
    }

    /// Waits until the block-transfer engine is idle: reads its control
    /// register until bit 4 is clear, then writes 0 to it. There is no
    /// timeout: the only bound is `POLL_LIMIT` readings, after which it goes
    /// on as if the bit had cleared.
    pub fn wait_bte_complete(&mut self) -> (r: Result<(), I::Error>)
        ensures
            final(self).spec_config() == old(self).spec_config(),
            r is Ok ==> exists|t: Seq<Event>|
                final(self).trace() == old(self).trace() + t + write_events(Register::BteCtrl0, 0x00)
                    && bte_wait(t),
            r is Err ==> exists|t: Seq<Event>|
                final(self).trace() == old(self).trace() + t && bte_wait_failed(t),
    {
        let ghost start = self.log.events();
        let ghost mut seen: Seq<u8> = Seq::empty();
        let ghost probe = register_probe(Register::BteCtrl0);
        let mut polls: u64 = 0;
        let mut last: Option<u8> = None;
        while polls < POLL_LIMIT && last.is_none()
            invariant
                polls == seen.len(),
                polls <= POLL_LIMIT,
                last is Some ==> polls < POLL_LIMIT,
                probe == register_probe(Register::BteCtrl0),
                self.config == old(self).config,
                start == old(self).log.events(),
                last is None ==> self.log.events() == start + rounds(probe, seen, Seq::empty()),
                last matches Some(v) ==> !bte_busy()(v) && self.log.events() == start + rounds(probe, seen, Seq::empty()) + probe(v),
                forall|i: int| 0 <= i < seen.len() ==> #[trigger] bte_busy()(seen[i]),
            decreases POLL_LIMIT - polls, if last is None { 1int } else { 0int },
        {
            let value = match self.read_register(Register::BteCtrl0) {
                Ok(v) => v,
                Err(e) => {
                    proof {
                        let t = rounds(probe, seen, Seq::empty());
                        assert(polled_then_failed(t, probe, Seq::empty(), bte_busy(), seen));
                        assert(bte_busy_readings(t));
                        let tail = if self.log.events() =~= start + t + seq![Event::Failed] {
                            seq![Event::Failed]
                        } else {
                            seq![Event::Command(Register::BteCtrl0.spec_address()), Event::Failed]
                        };
                        assert(self.log.events() =~= start + (t + tail));
                        assert(failed_access(Register::BteCtrl0, tail));
                        assert(bte_wait_failed(t + tail));
                    }
                    return Err(e);
                },
            };
            if value & 0x10 == 0 {
                last = Some(value);
            } else {
                proof {
                    assert(seen.push(value).drop_last() =~= seen);
                    assert(self.log.events() =~= start + rounds(probe, seen.push(value), Seq::empty()));
                    seen = seen.push(value);
                }
                polls += 1;
            }
        }
        let ghost t = match last {
            Some(v) => rounds(probe, seen, Seq::empty()) + probe(v),
            None => rounds(probe, seen, Seq::empty()),
        };
        proof {
            assert(polled(t, probe, Seq::empty(), bte_busy(), POLL_LIMIT as int, seen, last));
            assert(bte_wait(t));
            assert(self.log.events() =~= start + t);
        }
        match self.write_register(Register::BteCtrl0, 0x00) {
            Ok(()) => {
                assert(self.log.events() == start + t + write_events(Register::BteCtrl0, 0x00));
                Ok(())
            },
            Err(e) => {
                proof {
                    let tail = if self.log.events() =~= start + t + seq![Event::Failed] {
                        seq![Event::Failed]
                    } else {
                        seq![Event::Command(Register::BteCtrl0.spec_address()), Event::Failed]
                    };
                    assert(self.log.events() =~= start + (t + tail));
                    assert(failed_access(Register::BteCtrl0, tail) && t + tail == t + tail && bte_wait(t));
                    assert(bte_wait_failed(t + tail));
                }
                Err(e)
            },
        }
    }

    /// Reads the status register and tells whether bit 2, SDRAM ready, is set.
    pub fn is_sdram_ready(&mut self) -> (r: Result<bool, I::Error>)
        ensures
            final(self).spec_config() == old(self).spec_config(),
            r is Ok ==> exists|s: u8|
                final(self).trace() == old(self).trace().push(Event::Status(s)) && r->Ok_0 == (s
                    & 0x04 != 0),
            r is Err ==> final(self).trace() == old(self).trace().push(Event::Failed),
    {
        let status = self.read_status()?;
        Ok(status & 0x04 != 0)
    }

    /// Waits for the SDRAM: up to 100 status readings, 10 ms apart, until one
    /// shows it ready. Returns whether it became ready; running out of
    /// readings is not an error.
    pub fn wait_sdram_ready<D: DelayNs>(&mut self, delay: &mut D) -> (r: Result<bool, I::Error>)
        ensures
            final(self).spec_config() == old(self).spec_config(),
            r is Ok ==> exists|t: Seq<Event>, seen: Seq<u8>, last: Option<u8>|
                final(self).trace() == old(self).trace() + t && sdram_wait(t, seen, last) && r->Ok_0
                    == last is Some,
            r is Err ==> exists|t: Seq<Event>, seen: Seq<u8>|
                final(self).trace() == old(self).trace() + t + seq![Event::Failed] && seen.len()
                    < SDRAM_POLLS && polled_then_failed(
                    t,
                    status_probe(),
                    seq![Event::Pause(SDRAM_POLL_NS)],
                    sdram_not_ready(),
                    seen,
                ),
    {
        let ghost start = self.log.events();
        let ghost mut seen: Seq<u8> = Seq::empty();
        let ghost gap = seq![Event::Pause(SDRAM_POLL_NS)];
        let mut polls: u64 = 0;
        while polls < SDRAM_POLLS
            invariant
                polls == seen.len(),
                polls <= SDRAM_POLLS,
                gap == seq![Event::Pause(SDRAM_POLL_NS)],
                self.config == old(self).config,
                start == old(self).log.events(),
                self.log.events() == start + rounds(status_probe(), seen, gap),
                forall|i: int| 0 <= i < seen.len() ==> #[trigger] sdram_not_ready()(seen[i]),
            decreases SDRAM_POLLS - polls,
        {
            let status = match self.read_status() {
                Ok(s) => s,
                Err(e) => {
                    proof {
                        let t = rounds(status_probe(), seen, gap);
                        assert(polled_then_failed(t, status_probe(), gap, sdram_not_ready(), seen));
                        assert(self.log.events() =~= start + t + seq![Event::Failed]);
                    }
                    return Err(e);
                },
            };
            if status & 0x04 != 0 {
                proof {
                    let t = rounds(status_probe(), seen, gap) + status_probe()(status);
                    assert(self.log.events() =~= start + t);
                    assert(polled(t, status_probe(), gap, sdram_not_ready(), SDRAM_POLLS as int, seen, Some(status)));
                    assert(sdram_wait(t, seen, Some(status)));
                }
                return Ok(true);
            }
            self.pause(delay, SDRAM_POLL_NS);
            proof {
                assert(seen.push(status).drop_last() =~= seen);
                assert(self.log.events() =~= start + rounds(status_probe(), seen.push(status), gap));
                seen = seen.push(status);
            }
            polls += 1;
        }
        proof {
            let t = rounds(status_probe(), seen, gap);
            assert(polled(t, status_probe(), gap, sdram_not_ready(), SDRAM_POLLS as int, seen, None));
            assert(sdram_wait(t, seen, None));
            assert(self.log.events() == start + t);
        }
        Ok(false)
    }

    /// Software reset: writes 1 to the reset register, then reads it up to 100
    /// times, 1 ms apart, until bit 0 is clear. Running out of readings is not
    /// an error.
    pub fn software_reset<D: DelayNs>(&mut self, delay: &mut D) -> (r: Result<(), I::Error>)
        ensures
            final(self).spec_config() == old(self).spec_config(),
            r is Ok ==> exists|t: Seq<Event>|
                final(self).trace() == old(self).trace() + write_events(Register::Srr, 0x01) + t
                    && reset_wait(t),
            r is Err ==> final(self).trace() == old(self).trace().push(Event::Failed)
                || final(self).trace() == old(self).trace() + seq![
                Event::Command(Register::Srr.spec_address()),
                Event::Failed,
            ] || exists|t: Seq<Event>, seen: Seq<u8>, tail: Seq<Event>|
                final(self).trace() == old(self).trace() + write_events(Register::Srr, 0x01) + t
                    + tail && seen.len() < RESET_POLLS && polled_then_failed(
                    t,
                    register_probe(Register::Srr),
                    seq![Event::Pause(RESET_POLL_NS)],
                    resetting(),
                    seen,
                ) && (tail == seq![Event::Failed] || tail == seq![
                    Event::Command(Register::Srr.spec_address()),
                    Event::Failed,
                ]),
    {
        self.write_register(Register::Srr, 0x01)?;
        let ghost start = self.log.events();
        let ghost mut seen: Seq<u8> = Seq::empty();
        let ghost gap = seq![Event::Pause(RESET_POLL_NS)];
        let ghost probe = register_probe(Register::Srr);
        let mut polls: u64 = 0;
        while polls < RESET_POLLS
            invariant
                polls == seen.len(),
                polls <= RESET_POLLS,
                gap == seq![Event::Pause(RESET_POLL_NS)],
                probe == register_probe(Register::Srr),
                self.config == old(self).config,
                start == old(self).log.events() + write_events(Register::Srr, 0x01),
                self.log.events() == start + rounds(probe, seen, gap),
                forall|i: int| 0 <= i < seen.len() ==> #[trigger] resetting()(seen[i]),
            decreases RESET_POLLS - polls,
        {
            let value = match self.read_register(Register::Srr) {
                Ok(v) => v,
                Err(e) => {
                    proof {
                        let t = rounds(probe, seen, gap);
                        assert(polled_then_failed(t, probe, gap, resetting(), seen));
                        let pre = old(self).log.events() + write_events(Register::Srr, 0x01) + t;
                        if self.log.events() =~= pre + seq![Event::Failed] {
                            assert(self.log.events() == pre + seq![Event::Failed]);
                        } else {
                            assert(self.log.events() =~= pre + seq![
                                Event::Command(Register::Srr.spec_address()),
                                Event::Failed,
                            ]);
                        }
                    }
                    return Err(e);
                },
            };
            if value & 0x01 == 0 {
                proof {
                    let t = rounds(probe, seen, gap) + probe(value);
                    assert(self.log.events() =~= start + t);
                    assert(polled(t, probe, gap, resetting(), RESET_POLLS as int, seen, Some(value)));
                    assert(reset_wait(t));
                }
                return Ok(());
            }
            self.pause(delay, RESET_POLL_NS);
            proof {
                assert(seen.push(value).drop_last() =~= seen);
                assert(self.log.events() =~= start + rounds(probe, seen.push(value), gap));
                seen = seen.push(value);
            }
            polls += 1;
        }
        proof {
            let t = rounds(probe, seen, gap);
            assert(polled(t, probe, gap, resetting(), RESET_POLLS as int, seen, None));
            assert(reset_wait(t));
            assert(self.log.events() == start + t);
        }
        Ok(())
    }
}

impl<I: Interface, RES: OutputPin> LT7683<I, RES> {
    /// Sets the foreground color from a packed `0x00RRGGBB` value, keeping
    /// of each channel the bits that the configured depth stores.
    pub fn set_foreground_color(&mut self, color: u32) -> (r: Result<(), I::Error>)
        ensures
            final(self).spec_config() == old(self).spec_config(),
            r is Ok ==> final(self).trace() == old(self).trace() + writes_trace(
                foreground_writes(old(self).spec_config().color_depth, color),
            ),
            r is Err ==> writes_cut_short(
                old(self).trace(),
                final(self).trace(),
                foreground_writes(old(self).spec_config().color_depth, color),
            ),
    {
        let (red, green, blue) = encode_color(self.config.color_depth, color);
        let writes = [(Register::Fgcr, red), (Register::Fgcg, green), (Register::Fgcb, blue)];
        proof {
            assert(writes@ =~= foreground_writes(self.config.color_depth, color));
        }
        self.write_registers(&writes)
    }

    /// Sets the foreground color from a packed RGB 5:6:5 value, each field
    /// moved to the top of its register.
    pub fn set_foreground_color_rgb565(&mut self, color: u16) -> (r: Result<(), I::Error>)
        ensures
            final(self).spec_config() == old(self).spec_config(),
            r is Ok ==> final(self).trace() == old(self).trace() + writes_trace(
                foreground_rgb565_writes(color),
            ),
            r is Err ==> writes_cut_short(
                old(self).trace(),
                final(self).trace(),
                foreground_rgb565_writes(color),
            ),
    {
        let (red, green, blue) = expand_rgb565(color);
        let writes = [(Register::Fgcr, red), (Register::Fgcg, green), (Register::Fgcb, blue)];
        proof {
            assert(writes@ =~= foreground_rgb565_writes(color));
        }
        self.write_registers(&writes)
    }

    /// Sets the text background color from a packed `0x00RRGGBB` value.
    pub fn set_background_color(&mut self, color: u32) -> (r: Result<(), I::Error>)
        ensures
            final(self).spec_config() == old(self).spec_config(),
            r is Ok ==> final(self).trace() == old(self).trace() + writes_trace(
                background_writes(old(self).spec_config().color_depth, color),
            ),
            r is Err ==> writes_cut_short(
                old(self).trace(),
                final(self).trace(),
                background_writes(old(self).spec_config().color_depth, color),
            ),
    {
        let (red, green, blue) = encode_color(self.config.color_depth, color);
        let writes = [(Register::Bgcr, red), (Register::Bgcg, green), (Register::Bgcb, blue)];
        proof {
            assert(writes@ =~= background_writes(self.config.color_depth, color));
        }
        self.write_registers(&writes)
    }

    /// Sets the active window: upper-left corner (x, y), width and height.
    pub fn set_active_window(&mut self, x: u16, y: u16, width: u16, height: u16) -> (r: Result<
        (),
        I::Error,
    >)
        ensures
            final(self).spec_config() == old(self).spec_config(),
            r is Ok ==> final(self).trace() == old(self).trace() + writes_trace(
                window_writes(x, y, width, height),
            ),
            r is Err ==> writes_cut_short(
                old(self).trace(),
                final(self).trace(),
                window_writes(x, y, width, height),
            ),
    {
        let writes = [
            (Register::AwulX1, low_byte(x)),
            (Register::AwulX2, high_byte(x)),
            (Register::AwulY1, low_byte(y)),
            (Register::AwulY2, high_byte(y)),
            (Register::AwWth1, low_byte(width)),
            (Register::AwWth2, high_byte(width)),
            (Register::AwHt1, low_byte(height)),
            (Register::AwHt2, high_byte(height)),
        ];
        proof {
            assert(writes@ =~= window_writes(x, y, width, height));
        }
        self.write_registers(&writes)
    }

    fn draw_shape(
        &mut self,
        x1: u16,
        y1: u16,
        x2: u16,
        y2: u16,
        color: u32,
        start: (Register, u8),
    ) -> (r: Result<(), I::Error>)
        ensures
            final(self).spec_config() == old(self).spec_config(),
            r is Ok ==> exists|t: Seq<Event>|
                final(self).trace() == old(self).trace() + writes_trace(
                    shape_writes(old(self).spec_config().color_depth, x1, y1, x2, y2, color, start),
                ) + t && draw_wait(t),
            r is Err ==> writes_cut_short(old(self).trace(), final(self).trace(), shape_writes(old(self).spec_config().color_depth, x1, y1, x2, y2, color, start)) || exists|
                t: Seq<Event>,
                seen: Seq<u8>,
            |
                final(self).trace() == old(self).trace() + writes_trace(shape_writes(old(self).spec_config().color_depth, x1, y1, x2, y2, color, start)) + t + seq![
                    Event::Failed,
                ] && polled_then_failed(t, status_probe(), Seq::empty(), draw_busy(), seen),
    {
        let (red, green, blue) = encode_color(self.config.color_depth, color);
        let writes = [
            (Register::Fgcr, red),
            (Register::Fgcg, green),
            (Register::Fgcb, blue),
            (Register::Dlhsr1, low_byte(x1)),
            (Register::Dlhsr2, high_byte(x1)),
            (Register::Dlvsr1, low_byte(y1)),
            (Register::Dlvsr2, high_byte(y1)),
            (Register::Dlher1, low_byte(x2)),
            (Register::Dlher2, high_byte(x2)),
            (Register::Dlver1, low_byte(y2)),
            (Register::Dlver2, high_byte(y2)),
            start,
        ];
        let ghost expected = shape_writes(self.config.color_depth, x1, y1, x2, y2, color, start);
        proof {
            assert(writes@ =~= expected);
        }
        self.write_registers(&writes)?;
        self.wait_busy_draw()
    }

    /// Draws a line from (x1, y1) to (x2, y2) in `color` with the drawing
    /// engine, then waits for the engine to finish.
    pub fn draw_line(&mut self, x1: u16, y1: u16, x2: u16, y2: u16, color: u32) -> (r: Result<
        (),
        I::Error,
    >)
        ensures
            final(self).spec_config() == old(self).spec_config(),
            r is Ok ==> exists|t: Seq<Event>|
                final(self).trace() == old(self).trace() + writes_trace(
                    line_writes(old(self).spec_config().color_depth, x1, y1, x2, y2, color),
                ) + t && draw_wait(t),
            r is Err ==> writes_cut_short(old(self).trace(), final(self).trace(), line_writes(old(self).spec_config().color_depth, x1, y1, x2, y2, color)) || exists|
                t: Seq<Event>,
                seen: Seq<u8>,
            |
                final(self).trace() == old(self).trace() + writes_trace(line_writes(old(self).spec_config().color_depth, x1, y1, x2, y2, color)) + t + seq![
                    Event::Failed,
                ] && polled_then_failed(t, status_probe(), Seq::empty(), draw_busy(), seen),
    {
        self.draw_shape(x1, y1, x2, y2, color, (Register::Dcr0, 0x80))
    }

    /// Draws a filled rectangle with corners (x1, y1) and (x2, y2) in `color`
    /// with the drawing engine, then waits for the engine to finish.
    pub fn draw_filled_rectangle(
        &mut self,
        x1: u16,
        y1: u16,
        x2: u16,
        y2: u16,
        color: u32,
    ) -> (r: Result<(), I::Error>)
        ensures
            final(self).spec_config() == old(self).spec_config(),
            r is Ok ==> exists|t: Seq<Event>|
                final(self).trace() == old(self).trace() + writes_trace(
                    filled_rectangle_writes(
                        old(self).spec_config().color_depth,
                        x1,
                        y1,
                        x2,
                        y2,
                        color,
                    ),
                ) + t && draw_wait(t),
            r is Err ==> writes_cut_short(old(self).trace(), final(self).trace(), filled_rectangle_writes(
                    old(self).spec_config().color_depth,
                    x1,
                    y1,
                    x2,
                    y2,
                    color,
                )) || exists|
                t: Seq<Event>,
                seen: Seq<u8>,
            |
                final(self).trace() == old(self).trace() + writes_trace(filled_rectangle_writes(
                    old(self).spec_config().color_depth,
                    x1,
                    y1,
                    x2,
                    y2,
                    color,
                )) + t + seq![
                    Event::Failed,
                ] && polled_then_failed(t, status_probe(), Seq::empty(), draw_busy(), seen),
    {
        self.draw_shape(x1, y1, x2, y2, color, (Register::Dcr1, 0xE0))
    }

    /// Fills the whole panel with `color`: the filled rectangle from (0, 0)
    /// to (width - 1, height - 1).
    pub fn clear_screen(&mut self, color: u32) -> (r: Result<(), I::Error>)
        ensures
            final(self).spec_config() == old(self).spec_config(),
            r is Ok ==> exists|t: Seq<Event>|
                final(self).trace() == old(self).trace() + writes_trace(
                    clear_screen_writes(old(self).spec_config(), color),
                ) + t && draw_wait(t),
            r is Err ==> writes_cut_short(old(self).trace(), final(self).trace(), clear_screen_writes(old(self).spec_config(), color)) || exists|
                t: Seq<Event>,
                seen: Seq<u8>,
            |
                final(self).trace() == old(self).trace() + writes_trace(clear_screen_writes(old(self).spec_config(), color)) + t + seq![
                    Event::Failed,
                ] && polled_then_failed(t, status_probe(), Seq::empty(), draw_busy(), seen),
    {
        let right = last_index(self.config.width);
        let bottom = last_index(self.config.height);
        self.draw_filled_rectangle(0, 0, right, bottom, color)
    }
}

impl<I: Interface, RES: OutputPin> LT7683<I, RES> {
    /// Programs the PLLs of the pixel, memory and core clocks, then switches
    /// them off and on again to take the settings.
    pub fn configure_pll<D: DelayNs>(&mut self, delay: &mut D) -> (r: Result<(), I::Error>)
        ensures
            final(self).spec_config() == old(self).spec_config(),
            r is Ok ==> final(self).trace() == old(self).trace() + pll_events(),
            r is Err ==> writes_cut_short(old(self).trace(), final(self).trace(), pll_writes())
                || final(self).trace() == old(self).trace() + writes_trace(pll_writes()) + seq![
                Event::Pause(PLL_LATCH_NS),
                Event::Failed,
            ] || final(self).trace() == old(self).trace() + writes_trace(pll_writes()) + seq![
                Event::Pause(PLL_LATCH_NS),
                Event::Command(Register::Ccr.spec_address()),
                Event::Failed,
            ],
    {
        let writes = [
            (Register::Ppllc1, 0x06u8),
            (Register::Ppllc2, 39u8),
            (Register::Mpllc1, 0x04u8),
            (Register::Mpllc2, 39u8),
            (Register::Cpllc1, 0x04u8),
            (Register::Cpllc2, 39u8),
            (Register::Ccr, 0x00u8),
        ];
        proof {
            assert(writes@ =~= pll_writes());
        }
        self.write_registers(&writes)?;
        self.pause(delay, PLL_LATCH_NS);
        if let Err(e) = self.write_register(Register::Ccr, 0x80) {
            assert(self.log.events() =~= old(self).log.events() + writes_trace(pll_writes()) + seq![
                Event::Pause(PLL_LATCH_NS),
                Event::Failed,
            ] || self.log.events() =~= old(self).log.events() + writes_trace(pll_writes()) + seq![
                Event::Pause(PLL_LATCH_NS),
                Event::Command(Register::Ccr.spec_address()),
                Event::Failed,
            ]);
            return Err(e);
        }
        self.pause(delay, PLL_SETTLE_NS);
        proof {
            assert(self.log.events() =~= old(self).log.events() + pll_events());
        }
        Ok(())
    }

    /// Programs the SDRAM (attributes, CAS latency, refresh interval for the
    /// memory clock), starts its initialization and waits 10 ms.
    pub fn configure_sdram<D: DelayNs>(&mut self, delay: &mut D) -> (r: Result<(), I::Error>)
        ensures
            final(self).spec_config() == old(self).spec_config(),
            r is Ok ==> final(self).trace() == old(self).trace() + sdram_events(),
            r is Err ==> writes_cut_short(old(self).trace(), final(self).trace(), sdram_writes()),
    {
        let refresh = refresh_interval(MEMORY_CLOCK_MHZ);
        let writes = [
            (Register::Sdrar, 0x29u8),
            (Register::Sdrmd, 0x03u8),
            (Register::SdrRef1, low_byte(refresh)),
            (Register::SdrRef2, high_byte(refresh)),
            (Register::Sdrcr, 0x01u8),
        ];
        proof {
            assert(writes@ =~= sdram_writes());
        }
        self.write_registers(&writes)?;
        self.pause(delay, SDRAM_SETTLE_NS);
        Ok(())
    }

    /// Programs the panel timing registers from the configuration.
    pub fn configure_display_timing(&mut self) -> (r: Result<(), I::Error>)
        ensures
            final(self).spec_config() == old(self).spec_config(),
            r is Ok ==> final(self).trace() == old(self).trace() + writes_trace(
                timing_writes(old(self).spec_config()),
            ),
            r is Err ==> writes_cut_short(
                old(self).trace(),
                final(self).trace(),
                timing_writes(old(self).spec_config()),
            ),
    {
        let c = self.config;
        let last_line = last_index(c.height);
        let writes = [
            (Register::Hdwr, eighths_minus_one(c.width)),
            (Register::Hdwftr, (c.width % 8) as u8),
            (Register::Hndr, eighths_minus_one(c.h_back_porch)),
            (Register::Hndftr, (c.h_back_porch % 8) as u8),
            (Register::Hstr, eighths_minus_one(c.h_front_porch)),
            (Register::Hpwr, eighths_minus_one(c.h_sync_width)),
            (Register::Vdhr1, low_byte(last_line)),
            (Register::Vdhr2, high_byte(last_line)),
            (Register::Vndr1, minus_one(c.v_back_porch)),
            (Register::Vndr2, 0x00u8),
            (Register::Vstr, minus_one(c.v_front_porch)),
            (Register::Vpwr, minus_one(c.v_sync_width)),
        ];
        proof {
            assert(writes@ =~= timing_writes(c));
        }
        self.write_registers(&writes)
    }

    /// Sets up the main image and the canvas at address 0 with the panel's
    /// row stride, the active window over the whole panel, and the canvas
    /// color depth.
    pub fn configure_main_window(&mut self) -> (r: Result<(), I::Error>)
        ensures
            final(self).spec_config() == old(self).spec_config(),
            r is Ok ==> final(self).trace() == old(self).trace() + main_window_events(
                old(self).spec_config(),
            ),
            r is Err ==> writes_cut_short(
                old(self).trace(),
                final(self).trace(),
                main_window_writes(old(self).spec_config()),
            ),
    {
        let c = self.config;
        let pixels = c.width as u32;
        let bytes: u32 = match c.color_depth {
            ColorDepth::Bpp8 => pixels,
            ColorDepth::Bpp16 => pixels * 2,
            ColorDepth::Bpp24 => pixels * 3,
        };
        assert(bytes == c.width as int * (c.color_depth.spec_code() as int + 1)) by {
            match c.color_depth {
                ColorDepth::Bpp8 => assert(bytes == c.width as int * 1),
                ColorDepth::Bpp16 => assert(bytes == c.width as int * 2),
                ColorDepth::Bpp24 => assert(bytes == c.width as int * 3),
            }
        }
        let stride = (bytes % 65536) as u16;
        let writes = [
            (Register::Mpwctr, 0x04u8),
            (Register::Misa1, 0x00u8),
            (Register::Misa2, 0x00u8),
            (Register::Misa3, 0x00u8),
            (Register::Misa4, 0x00u8),
            (Register::Miw1, low_byte(stride)),
            (Register::Miw2, high_byte(stride)),
            (Register::Cvssa1, 0x00u8),
            (Register::Cvssa2, 0x00u8),
            (Register::Cvssa3, 0x00u8),
            (Register::Cvssa4, 0x00u8),
            (Register::CvsImwth1, low_byte(stride)),
            (Register::CvsImwth2, high_byte(stride)),
            (Register::AwulX1, 0x00u8),
            (Register::AwulX2, 0x00u8),
            (Register::AwulY1, 0x00u8),
            (Register::AwulY2, 0x00u8),
            (Register::AwWth1, low_byte(c.width)),
            (Register::AwWth2, high_byte(c.width)),
            (Register::AwHt1, low_byte(c.height)),
            (Register::AwHt2, high_byte(c.height)),
            (Register::AwColor, c.color_depth.code()),
        ];
        proof {
            assert(writes@ =~= main_window_writes(c));
        }
        self.write_registers(&writes)
    }

    /// Full bring-up: hardware and software reset, PLLs, SDRAM (waiting for
    /// it as long as 100 readings allow, and going on either way), host and
    /// output modes, panel timing, sync polarity, main window, display on.
    #[verifier::spinoff_prover]
    #[verifier::rlimit(100)]
    pub fn init_display<D: DelayNs>(&mut self, delay: &mut D) -> (r: Result<(), Fault<I::Error>>)
        ensures
            final(self).spec_config() == old(self).spec_config(),
            r is Ok ==> exists|t1: Seq<Event>, t2: Seq<Event>, seen: Seq<u8>, last: Option<u8>|
                reset_wait(t1) && sdram_wait(t2, seen, last) && final(self).trace() == old(
                    self,
                ).trace() + hardware_reset_events() + write_events(Register::Srr, 0x01) + t1
                    + pll_events() + sdram_events() + t2 + writes_trace(mode_writes())
                    + writes_trace(timing_writes(old(self).spec_config())) + write_events(
                    Register::Pcsr,
                    0xC0,
                ) + main_window_events(old(self).spec_config()) + write_events(
                    Register::Dpcr,
                    0xC0,
                ),
            r is Err ==> stopped(old(self).trace(), final(self).trace()),
    {
        self.hardware_reset(delay)?;
        let ghost after_reset = self.log.events();
        if let Err(e) = self.software_reset(delay) {
            return Err(Fault::Link(e));
        }
        let ghost t1 = choose|t: Seq<Event>|
            self.log.events() == after_reset + write_events(Register::Srr, 0x01) + t && reset_wait(t);
        if let Err(e) = self.configure_pll(delay) {
            return Err(Fault::Link(e));
        }
        if let Err(e) = self.configure_sdram(delay) {
            return Err(Fault::Link(e));
        }
        let ghost before_wait = self.log.events();
        if let Err(e) = self.wait_sdram_ready(delay) {
            return Err(Fault::Link(e));
        }
        let ghost (t2, seen, last) = choose|t: Seq<Event>, seen: Seq<u8>, last: Option<u8>|
            self.log.events() == before_wait + t && sdram_wait(t, seen, last);
        let modes = [(Register::Ccr, 0x80u8), (Register::Macr, 0x40u8), (Register::Icr, 0x00u8)];
        proof {
            assert(modes@ =~= mode_writes());
        }
        if let Err(e) = self.write_registers(&modes) {
            return Err(Fault::Link(e));
        }
        if let Err(e) = self.configure_display_timing() {
            return Err(Fault::Link(e));
        }
        if let Err(e) = self.write_register(Register::Pcsr, 0xC0) {
            return Err(Fault::Link(e));
        }
        if let Err(e) = self.configure_main_window() {
            return Err(Fault::Link(e));
        }
        if let Err(e) = self.write_register(Register::Dpcr, 0xC0) {
            return Err(Fault::Link(e));
        }
        proof {
            assert(reset_wait(t1) && sdram_wait(t2, seen, last));
        }
        Ok(())
    }

    /// Short bring-up for checking clocks and timing without the SDRAM:
    /// resets, PLLs, modes, panel timing, sync polarity, then the display on
    /// with the chip's color-bar test pattern.
    #[verifier::spinoff_prover]
    #[verifier::rlimit(40)]
    pub fn init_color_bar_test<D: DelayNs>(&mut self, delay: &mut D) -> (r: Result<(), Fault<I::Error>>)
        ensures
            final(self).spec_config() == old(self).spec_config(),
            r is Ok ==> exists|t1: Seq<Event>|
                reset_wait(t1) && final(self).trace() == old(self).trace() + hardware_reset_events()
                    + write_events(Register::Srr, 0x01) + t1 + pll_events() + writes_trace(
                    mode_writes(),
                ) + writes_trace(timing_writes(old(self).spec_config())) + write_events(
                    Register::Pcsr,
                    0xC0,
                ) + write_events(Register::Dpcr, 0xE0),
            r is Err ==> stopped(old(self).trace(), final(self).trace()),
    {
        self.hardware_reset(delay)?;
        let ghost after_reset = self.log.events();
        if let Err(e) = self.software_reset(delay) {
            return Err(Fault::Link(e));
        }
        let ghost t1 = choose|t: Seq<Event>|
            self.log.events() == after_reset + write_events(Register::Srr, 0x01) + t && reset_wait(t);
        if let Err(e) = self.configure_pll(delay) {
            return Err(Fault::Link(e));
        }
        let modes = [(Register::Ccr, 0x80u8), (Register::Macr, 0x40u8), (Register::Icr, 0x00u8)];
        proof {
            assert(modes@ =~= mode_writes());
        }
        if let Err(e) = self.write_registers(&modes) {
            return Err(Fault::Link(e));
        }
        if let Err(e) = self.configure_display_timing() {
            return Err(Fault::Link(e));
        }
        if let Err(e) = self.write_register(Register::Pcsr, 0xC0) {
            return Err(Fault::Link(e));
        }
        if let Err(e) = self.write_register(Register::Dpcr, 0xE0) {
            return Err(Fault::Link(e));
        }
        proof {
            assert(reset_wait(t1));
        }
        Ok(())
    }

    /// Writes `text` at (x, y) with the internal font, enlarged `scale_x`
    /// times across and `scale_y` times down (each clamped to 1..=4); without
    /// a background color the canvas shows through. Every byte of the text is
    /// one character.
    pub fn write_text_scaled(
        &mut self,
        text: &str,
        x: u16,
        y: u16,
        background: Option<u32>,
        foreground: u32,
        scale_x: u8,
        scale_y: u8,
    ) -> (r: Result<(), I::Error>)
        ensures
            final(self).spec_config() == old(self).spec_config(),
            r is Ok ==> final(self).trace() == old(self).trace() + writes_trace(
                text_setup_writes(
                    old(self).spec_config().color_depth,
                    x,
                    y,
                    background,
                    foreground,
                    scale_x,
                    scale_y,
                ),
            ) + writes_trace(text_bytes_writes(text.spec_bytes())),
            r is Err ==> writes_cut_short(old(self).trace(), final(self).trace(), text_setup_writes(
                    old(self).spec_config().color_depth,
                    x,
                    y,
                    background,
                    foreground,
                    scale_x,
                    scale_y,
                )) || writes_cut_short(
                old(self).trace() + writes_trace(text_setup_writes(
                    old(self).spec_config().color_depth,
                    x,
                    y,
                    background,
                    foreground,
                    scale_x,
                    scale_y,
                )),
                final(self).trace(),
                text_bytes_writes(text.spec_bytes()),
            ),
    {
        let depth = self.config.color_depth;
        let control = text_control(scale_x, scale_y, background.is_none());
        let (fr, fg, fb) = encode_color(depth, foreground);
        let ghost setup = text_setup_writes(depth, x, y, background, foreground, scale_x, scale_y);
        match background {
            Some(color) => {
                let (br, bg, bb) = encode_color(depth, color);
                let writes = [
                    (Register::Ccr0, 0x00u8),
                    (Register::Ccr1, control),
                    (Register::Bgcr, br),
                    (Register::Bgcg, bg),
                    (Register::Bgcb, bb),
                    (Register::Fgcr, fr),
                    (Register::Fgcg, fg),
                    (Register::Fgcb, fb),
                    (Register::Icr, 0x04u8),
                    (Register::FCurx1, low_byte(x)),
                    (Register::FCurx2, high_byte(x)),
                    (Register::FCury1, low_byte(y)),
                    (Register::FCury2, high_byte(y)),
                ];
                proof {
                    assert(writes@ =~= setup);
                }
                self.write_registers(&writes)?;
            },
            None => {
                let writes = [
                    (Register::Ccr0, 0x00u8),
                    (Register::Ccr1, control),
                    (Register::Fgcr, fr),
                    (Register::Fgcg, fg),
                    (Register::Fgcb, fb),
                    (Register::Icr, 0x04u8),
                    (Register::FCurx1, low_byte(x)),
                    (Register::FCurx2, high_byte(x)),
                    (Register::FCury1, low_byte(y)),
                    (Register::FCury2, high_byte(y)),
                ];
                proof {
                    assert(writes@ =~= setup);
                }
                self.write_registers(&writes)?;
            },
        }
        let bytes = text.as_bytes();
        let ghost mid = self.log.events();
        let mut i: usize = 0;
        while i < bytes.len()
            invariant
                0 <= i <= bytes@.len(),
                bytes@ == text.spec_bytes(),
                depth == old(self).config.color_depth,
                setup == text_setup_writes(depth, x, y, background, foreground, scale_x, scale_y),
                mid == old(self).log.events() + writes_trace(setup),
                self.config == old(self).config,
                self.log.events() == mid + writes_trace(text_bytes_writes(bytes@.take(i as int))),
            decreases bytes.len() - i,
        {
            let b = bytes[i];
            if let Err(e) = self.write_register(Register::Mrwdp, b) {
                proof {
                    let all = text_bytes_writes(bytes@);
                    assert(all.take(i as int) =~= text_bytes_writes(bytes@.take(i as int)));
                    assert(all[i as int] == (Register::Mrwdp, b));
                    let done = writes_trace(all.take(i as int));
                    if self.log.events() =~= mid + done + seq![Event::Failed] {
                        assert(writes_cut_short(mid, self.log.events(), all));
                    } else {
                        assert(self.log.events() =~= mid + done + seq![
                            Event::Command(all[i as int].0.spec_address()),
                            Event::Failed,
                        ]);
                        assert(writes_cut_short(mid, self.log.events(), all));
                    }
                    assert(all == text_bytes_writes(text.spec_bytes()));
                    assert(writes_cut_short(
                        old(self).log.events() + writes_trace(setup),
                        self.log.events(),
                        text_bytes_writes(text.spec_bytes()),
                    ));
                }
                return Err(e);
            }
            proof {
                let w = text_bytes_writes(bytes@.take(i as int + 1));
                assert(w.drop_last() =~= text_bytes_writes(bytes@.take(i as int)));
                assert(w.last() == (Register::Mrwdp, b));
                assert(writes_trace(w) == writes_trace(w.drop_last()) + write_events(Register::Mrwdp, b));
                assert(self.log.events() =~= mid + writes_trace(w));
            }
            i += 1;
        }
        proof {
            assert(bytes@.take(bytes@.len() as int) =~= bytes@);
        }
        Ok(())
    }

    /// Writes `text` at (x, y) at the font's own size.
    pub fn write_text(
        &mut self,
        text: &str,
        x: u16,
        y: u16,
        background: Option<u32>,
        foreground: u32,
    ) -> (r: Result<(), I::Error>)
        ensures
            final(self).spec_config() == old(self).spec_config(),
            r is Ok ==> final(self).trace() == old(self).trace() + writes_trace(
                text_setup_writes(
                    old(self).spec_config().color_depth,
                    x,
                    y,
                    background,
                    foreground,
                    1,
                    1,
                ),
            ) + writes_trace(text_bytes_writes(text.spec_bytes())),
            r is Err ==> writes_cut_short(old(self).trace(), final(self).trace(), text_setup_writes(
                    old(self).spec_config().color_depth,
                    x,
                    y,
                    background,
                    foreground,
                    1,
                    1,
                )) || writes_cut_short(
                old(self).trace() + writes_trace(text_setup_writes(
                    old(self).spec_config().color_depth,
                    x,
                    y,
                    background,
                    foreground,
                    1,
                    1,
                )),
                final(self).trace(),
                text_bytes_writes(text.spec_bytes()),
            ),
    {
        self.write_text_scaled(text, x, y, background, foreground, 1, 1)
    }

    /// Fills the rectangle at (x, y) of the given size with `color` using the
    /// block-transfer engine, then waits for it and switches it off.
    pub fn bte_solid_fill(&mut self, x: u16, y: u16, width: u16, height: u16, color: u32) -> (r:
        Result<(), I::Error>)
        ensures
            final(self).spec_config() == old(self).spec_config(),
            r is Ok ==> exists|t: Seq<Event>|
                final(self).trace() == old(self).trace() + writes_trace(
                    solid_fill_writes(old(self).spec_config(), x, y, width, height, color),
                ) + t + write_events(Register::BteCtrl0, 0x00) && bte_wait(t),
            r is Err ==> writes_cut_short(old(self).trace(), final(self).trace(), solid_fill_writes(old(self).spec_config(), x, y, width, height, color)) || exists|
                t: Seq<Event>,
            |
                final(self).trace() == old(self).trace() + writes_trace(solid_fill_writes(old(self).spec_config(), x, y, width, height, color)) + t && bte_wait_failed(t),
    {
        let c = self.config;
        let (red, green, blue) = encode_color(c.color_depth, color);
        let depths = bte_color(c.color_depth);
        let writes = [
            (Register::Fgcr, red),
            (Register::Fgcg, green),
            (Register::Fgcb, blue),
            (Register::DtStr0, 0x00u8),
            (Register::DtStr1, 0x00u8),
            (Register::DtStr2, 0x00u8),
            (Register::DtStr3, 0x00u8),
            (Register::DtX0, low_byte(x)),
            (Register::DtX1, high_byte(x)),
            (Register::DtY0, low_byte(y)),
            (Register::DtY1, high_byte(y)),
            (Register::BteColr, depths),
            (Register::DtWth0, low_byte(c.width)),
            (Register::DtWth1, high_byte(c.width)),
            (Register::BteWth0, low_byte(width)),
            (Register::BteWth1, high_byte(width)),
            (Register::BteHig0, low_byte(height)),
            (Register::BteHig1, high_byte(height)),
            (Register::BteCtrl1, 0x0Cu8),
            (Register::BteCtrl0, 0x10u8),
        ];
        proof {
            assert(writes@ =~= solid_fill_writes(c, x, y, width, height, color));
        }
        self.write_registers(&writes)?;
        self.wait_bte_complete()
    }

    /// Copies the rectangle of the given size at (src_x, src_y) of the canvas
    /// to (dst_x, dst_y) using the block-transfer engine, then waits for it
    /// and switches it off.
    pub fn bte_memory_copy(
        &mut self,
        src_x: u16,
        src_y: u16,
        dst_x: u16,
        dst_y: u16,
        width: u16,
        height: u16,
    ) -> (r: Result<(), I::Error>)
        ensures
            final(self).spec_config() == old(self).spec_config(),
            r is Ok ==> exists|t: Seq<Event>|
                final(self).trace() == old(self).trace() + writes_trace(
                    memory_copy_writes(
                        old(self).spec_config(),
                        src_x,
                        src_y,
                        dst_x,
                        dst_y,
                        width,
                        height,
                    ),
                ) + t + write_events(Register::BteCtrl0, 0x00) && bte_wait(t),
            r is Err ==> writes_cut_short(old(self).trace(), final(self).trace(), memory_copy_writes(
                    old(self).spec_config(),
                    src_x,
                    src_y,
                    dst_x,
                    dst_y,
                    width,
                    height,
                )) || exists|
                t: Seq<Event>,
            |
                final(self).trace() == old(self).trace() + writes_trace(memory_copy_writes(
                    old(self).spec_config(),
                    src_x,
                    src_y,
                    dst_x,
                    dst_y,
                    width,
                    height,
                )) + t && bte_wait_failed(t),
    {
        let c = self.config;
        let depths = bte_color(c.color_depth);
        let writes = [
            (Register::S0Str0, 0x00u8),
            (Register::S0Str1, 0x00u8),
            (Register::S0Str2, 0x00u8),
            (Register::S0Str3, 0x00u8),
            (Register::S0Wth0, low_byte(c.width)),
            (Register::S0Wth1, high_byte(c.width)),
            (Register::S0X0, low_byte(src_x)),
            (Register::S0X1, high_byte(src_x)),
            (Register::S0Y0, low_byte(src_y)),
            (Register::S0Y1, high_byte(src_y)),
            (Register::DtStr0, 0x00u8),
            (Register::DtStr1, 0x00u8),
            (Register::DtStr2, 0x00u8),
            (Register::DtStr3, 0x00u8),
            (Register::DtWth0, low_byte(c.width)),
            (Register::DtWth1, high_byte(c.width)),
            (Register::DtX0, low_byte(dst_x)),
            (Register::DtX1, high_byte(dst_x)),
            (Register::DtY0, low_byte(dst_y)),
            (Register::DtY1, high_byte(dst_y)),
            (Register::BteWth0, low_byte(width)),
            (Register::BteWth1, high_byte(width)),
            (Register::BteHig0, low_byte(height)),
            (Register::BteHig1, high_byte(height)),
            (Register::BteColr, depths),
            (Register::BteCtrl1, 0xC2u8),
            (Register::BteCtrl0, 0x10u8),
        ];
        proof {
            assert(writes@ =~= memory_copy_writes(c, src_x, src_y, dst_x, dst_y, width, height));
        }
        self.write_registers(&writes)?;
        self.wait_bte_complete()
    }

    /// Sets the text cursor blink period: `frames` + 1 display frames.
    pub fn set_text_cursor_blink_period(&mut self, frames: u8) -> (r: Result<(), I::Error>)
        ensures
            final(self).spec_config() == old(self).spec_config(),
            r is Ok ==> final(self).trace() == old(self).trace() + write_events(
                Register::Btcr,
                frames,
            ),
            r is Err ==> final(self).trace() == old(self).trace().push(Event::Failed) || final(self).trace()
                == old(self).trace() + seq![Event::Command(Register::Btcr.spec_address()), Event::Failed],
    {
        self.write_register(Register::Btcr, frames)
    }

    /// Shows the text cursor, blinking.
    pub fn enable_text_cursor(&mut self) -> (r: Result<(), I::Error>)
        ensures
            final(self).spec_config() == old(self).spec_config(),
            r is Ok ==> final(self).trace() == old(self).trace() + write_events(
                Register::Gtccr,
                0x03,
            ),
            r is Err ==> final(self).trace() == old(self).trace().push(Event::Failed) || final(self).trace()
                == old(self).trace() + seq![Event::Command(Register::Gtccr.spec_address()), Event::Failed],
    {
        self.write_register(Register::Gtccr, 0x03)
    }
}

} // verus!
