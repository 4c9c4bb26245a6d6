use vstd::prelude::*;

use crate::config::{ColorDepth, DisplayConfig};
use crate::driver::{sdram_wait, SDRAM_POLLS, SDRAM_POLL_NS};
use crate::encoding::{spec_scale_code, spec_text_control};
use crate::sequences::{clear_screen_writes, filled_rectangle_writes};
use crate::trace::{rounds, status_probe, Event};

verus! {

/// On the default 1024x600 panel, clearing the screen issues exactly the
/// writes of the filled rectangle from (0, 0) to (1023, 599).
pub proof fn clear_screen_default_panel(color: u32)
    ensures
        clear_screen_writes(DisplayConfig::spec_default(), color) == filled_rectangle_writes(
            ColorDepth::Bpp16,
            0,
            0,
            1023,
            599,
            color,
        ),
{
}

proof fn lemma_status_rounds(seen: Seq<u8>, gap: Seq<Event>)
    requires
        gap == seq![Event::Pause(SDRAM_POLL_NS)],
    ensures
        rounds(status_probe(), seen, gap).len() == 2 * seen.len(),
        forall|k: int|
            0 <= k < seen.len() ==> #[trigger] rounds(status_probe(), seen, gap)[2 * k]
                == Event::Status(seen[k]) && rounds(status_probe(), seen, gap)[2 * k + 1]
                == Event::Pause(SDRAM_POLL_NS),
    decreases seen.len(),
{
    if seen.len() > 0 {
        let front = seen.drop_last();
        lemma_status_rounds(front, gap);
        let r = rounds(status_probe(), seen, gap);
        assert(r == rounds(status_probe(), front, gap) + seq![Event::Status(seen.last())] + gap);
        assert forall|k: int| 0 <= k < seen.len() implies #[trigger] r[2 * k] == Event::Status(
            seen[k],
        ) && r[2 * k + 1] == Event::Pause(SDRAM_POLL_NS) by {
            if k < front.len() {
                assert(r[2 * k] == rounds(status_probe(), front, gap)[2 * k]);
                assert(r[2 * k + 1] == rounds(status_probe(), front, gap)[2 * k + 1]);
            }
        }
    }
}

/// A wait for the SDRAM in which no status reading shows the ready bit
/// makes exactly 100 readings, each followed by a 10 ms pause, and reports
/// the SDRAM not ready.
pub proof fn sdram_wait_never_ready(t: Seq<Event>, seen: Seq<u8>, last: Option<u8>)
    requires
        sdram_wait(t, seen, last),
        forall|i: int, s: u8| 0 <= i < t.len() && t[i] == Event::Status(s) ==> s & 0x04 == 0,
    ensures
        last is None,
        seen.len() == SDRAM_POLLS,
        t.len() == 2 * SDRAM_POLLS,
        forall|k: int|
            0 <= k < SDRAM_POLLS ==> #[trigger] t[2 * k] == Event::Status(seen[k]) && t[2 * k + 1]
                == Event::Pause(SDRAM_POLL_NS),
{
    let gap = seq![Event::Pause(SDRAM_POLL_NS)];
    lemma_status_rounds(seen, gap);
    if let Some(v) = last {
        let i = t.len() - 1;
        assert(t[i] == Event::Status(v));
        assert(v & 0x04 == 0);
        assert(false);
    }
}

/// The character control byte written for text holds, in its low four
/// bits, `(y_code << 2) | x_code`, where each code is the scale less one,
/// floored at 0 (no wraparound below) and capped at 3; bit 6 is set exactly
/// when no background color is given.
pub proof fn text_control_fields(scale_x: u8, scale_y: u8, transparent: bool)
    ensures
        spec_scale_code(scale_x) == if scale_x == 0 {
            0u8
        } else if scale_x - 1 > 3 {
            3u8
        } else {
            (scale_x - 1) as u8
        },
        spec_text_control(scale_x, scale_y, transparent) & 0x0F == (spec_scale_code(scale_y) << 2u8)
            | spec_scale_code(scale_x),
        (spec_text_control(scale_x, scale_y, transparent) & 0x40 != 0) == transparent,
{
    let x = spec_scale_code(scale_x);
    let y = spec_scale_code(scale_y);
    let c = spec_text_control(scale_x, scale_y, transparent);
    if transparent {
        let v: u8 = (y * 4 + x + 0x40) as u8;
        assert(c == v);
        assert(v & 0x0F == (y << 2u8) | x && v & 0x40 != 0) by (bit_vector)
            requires
                x <= 3,
                y <= 3,
                v == y * 4 + x + 0x40,
        ;
    } else {
        let v: u8 = (y * 4 + x) as u8;
        assert(c == v);
        assert(v & 0x0F == (y << 2u8) | x && v & 0x40 == 0) by (bit_vector)
            requires
                x <= 3,
                y <= 3,
                v == y * 4 + x,
        ;
    }
}

} // verus!
