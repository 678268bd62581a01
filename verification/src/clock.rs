//! The frame clock: milliseconds since the epoch, accumulated between frames.
use vstd::prelude::*;

verus! {

/// The number of milliseconds in `secs` whole seconds and `nanos` nanoseconds.
pub fn millis(secs: u64, nanos: u32) -> (ms: u64)
    requires
        secs * 1000 + nanos / 1_000_000 <= u64::MAX,
    ensures
        ms == secs * 1000 + nanos / 1_000_000,
{
    secs * 1000 + (nanos / 1_000_000) as u64
}

/// The clock of the main loop.
#[derive(Clone, Copy, Debug, PartialEq, Eq, Structural)]
pub struct Clock {
    /// The time of the last frame, in milliseconds.
    pub prev_tick: u64,
    /// Milliseconds counted since the piece last fell (or since start).
    pub tick_count: u64,
    /// The count, in seconds, at the first frame; 0 until then.
    pub start_time: u64,
}

/// The clock after a frame at time `now`: the time since the last frame is
/// added to the count, and the first frame fixes the start time.
pub open spec fn advanced(c: Clock, now: u64) -> Clock {
    let count = (c.tick_count + (now - c.prev_tick)) as u64;
    Clock {
        prev_tick: now,
        tick_count: count,
        start_time: if c.start_time == 0 { count / 1000 } else { c.start_time },
    }
}

/// Whether the intro has been shown long enough: more than three seconds
/// after the start time.
pub open spec fn intro_elapsed(c: Clock) -> bool {
    c.tick_count / 1000 > c.start_time + 3
}

impl Clock {
    /// A clock that has seen no frame.
    pub fn new() -> (c: Clock)
        ensures
            c == (Clock { prev_tick: 0, tick_count: 0, start_time: 0 }),
    {
        Clock { prev_tick: 0, tick_count: 0, start_time: 0 }
    }

    /// Takes the time `now` of a new frame, which comes no earlier than the last.
    pub fn advance(&mut self, now: u64)
        requires
            now >= old(self).prev_tick,
            old(self).tick_count + (now - old(self).prev_tick) <= u64::MAX,
        ensures
            *final(self) == advanced(*old(self), now),
    {
        let elapsed = now - self.prev_tick;
        self.prev_tick = now;
        self.tick_count = self.tick_count + elapsed;
        if self.start_time == 0 {
            self.start_time = self.tick_count / 1000;
        }
    }

    /// Whether the intro has been shown long enough.
    pub fn intro_elapsed(&self) -> (r: bool)
        ensures
            r == intro_elapsed(*self),
    {
        let seconds = self.tick_count / 1000;
        seconds > self.start_time && seconds - self.start_time > 3
    }
}

/// Milliseconds add up over frames: after two frames the count has grown by
/// the time from the frame before them to the second one.
pub proof fn lemma_time_adds_up(c: Clock, t1: u64, t2: u64)
    requires
        c.prev_tick <= t1 <= t2,
        c.tick_count + (t2 - c.prev_tick) <= u64::MAX,
    ensures
        advanced(advanced(c, t1), t2).tick_count == c.tick_count + (t2 - c.prev_tick),
        advanced(advanced(c, t1), t2).prev_tick == t2,
{
}

/// The start time is fixed by the first frame that sees a count of at least
/// a second and never changes afterwards.
pub proof fn lemma_start_time_is_kept(c: Clock, now: u64)
    requires
        c.start_time != 0,
    ensures
        advanced(c, now).start_time == c.start_time,
{
}

/// The first frame of a new clock counts the whole time since the epoch and
/// takes its seconds as the start time.
pub proof fn lemma_first_frame(now: u64)
    ensures
        advanced(Clock { prev_tick: 0, tick_count: 0, start_time: 0 }, now) == (Clock {
            prev_tick: now,
            tick_count: now,
            start_time: now / 1000,
        }),
{
}

/// A frame at time `now`, no earlier than the last, adds the milliseconds
/// since the last frame to the count and remembers `now`; the start time is
/// the count's whole seconds if it was still 0, and stays otherwise.
pub proof fn lemma_advance_counts(c: Clock, now: u64)
    requires
        c.prev_tick <= now,
        c.tick_count + (now - c.prev_tick) <= u64::MAX,
    ensures
        advanced(c, now).prev_tick == now,
        advanced(c, now).tick_count == c.tick_count + now - c.prev_tick,
        advanced(c, now).start_time == if c.start_time == 0 {
            (c.tick_count + now - c.prev_tick) / 1000
        } else {
            c.start_time as int
        },
{
}

/// The intro has been shown long enough once the count reaches four whole
/// seconds past the start time.
pub proof fn lemma_intro_elapsed_after_four_seconds(c: Clock)
    ensures
        intro_elapsed(c) <==> c.tick_count >= (c.start_time + 4) * 1000,
{
}

} // verus!
