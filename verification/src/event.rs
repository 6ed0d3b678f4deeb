//! Input events and tick pacing.
//!
//! The input source itself is an external collaborator: it delivers key
//! presses, resize notifications and the passage of time. The core defines
//! the event vocabulary and the timing rule that makes a periodic tick
//! eventually fire: the caller polls for input with the bounded timeout
//! computed here and reports back when the poll returned without an event.

use vstd::prelude::*;

verus! {

/// A key press, reduced to the keys the dashboard reacts to.
#[derive(Clone, Copy, Debug, PartialEq, Eq, Structural)]
pub enum Key {
    Char(char),
    Enter,
    Esc,
    Backspace,
    Up,
    Down,
    Left,
    Right,
    Tab,
    BackTab,
}

/// One event of the interactive loop.
#[derive(Clone, Copy, Debug)]
pub enum AppEvent {
    Key(Key),
    Tick,
    Resize,
}

/// Paces the periodic tick: remembers when the last tick fired and bounds
/// each wait so a tick is never postponed indefinitely. All times are
/// milliseconds on one monotonic clock supplied by the caller.
#[derive(Clone, Copy, Debug)]
pub struct EventReader {
    pub tick_rate_ms: u64,
    pub last_tick_ms: u64,
}

/// Milliseconds of `reader`'s tick interval still to run at `now`.
pub open spec fn remaining_ms(reader: EventReader, now: u64) -> int {
    let elapsed = if now >= reader.last_tick_ms {
        now - reader.last_tick_ms
    } else {
        0
    };
    if elapsed >= reader.tick_rate_ms {
        0
    } else {
        reader.tick_rate_ms - elapsed
    }
}

impl EventReader {
    /// A reader whose first tick is due `tick_rate_ms` after `now_ms`.
    pub fn new(tick_rate_ms: u64, now_ms: u64) -> (r: Self)
        ensures
            r.tick_rate_ms == tick_rate_ms,
            r.last_tick_ms == now_ms,
    {
        EventReader { tick_rate_ms, last_tick_ms: now_ms }
    }

    /// How long the caller may block waiting for input before it must hand
    /// control back: the rest of the tick interval, zero once a tick is due.
    pub fn poll_timeout_ms(&self, now: u64) -> (t: u64)
        ensures
            t == remaining_ms(*self, now),
    {
        let elapsed: u64 = if now >= self.last_tick_ms {
            now - self.last_tick_ms
        } else {
            0
        };
        if elapsed >= self.tick_rate_ms {
            0
        } else {
            self.tick_rate_ms - elapsed
        }
    }

    /// Record that a poll returned with no input at `now`. When a full tick
    /// interval has elapsed the tick fires and the interval restarts; the
    /// clock is otherwise left alone, so the next wait stays bounded.
    pub fn note_idle(&mut self, now: u64) -> (due: bool)
        ensures
            due == (remaining_ms(*old(self), now) == 0),
            final(self).tick_rate_ms == old(self).tick_rate_ms,
            final(self).last_tick_ms == if due {
                now
            } else {
                old(self).last_tick_ms
            },
    {
        let elapsed: u64 = if now >= self.last_tick_ms {
            now - self.last_tick_ms
        } else {
            0
        };
        if elapsed >= self.tick_rate_ms {
            self.last_tick_ms = now;
            true
        } else {
            false
        }
    }
}

} // verus!
