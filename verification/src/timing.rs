//! Timestamp state shared with the triggering context: the per-device slot
//! that yields the gap between consecutive samples, and the windowed counter
//! behind the observed-rate diagnostic. Instants are plain microsecond counts
//! on a monotonic clock; whoever drives the engine reads the clock.

use vstd::prelude::*;

verus! {

/// Length of one diagnostic window, in microseconds.
pub const RATE_WINDOW_MICROS: u64 = 1000000;

/// A single, swappable, optional point in time, owned by one device's
/// triggering context. The previous value is retrieved by the same operation
/// that installs the new one, so no read-modify-write race is possible in the
/// realized, serialized trigger context.
#[derive(Clone, Copy, Debug, PartialEq, Eq, Structural)]
pub struct TimestampSlot {
    /// The instant of the previous trigger, in microseconds; `None` until
    /// the first trigger.
    pub stamp: Option<u64>,
}

/// The gap a reading reports, in microseconds: zero for the first sample of
/// a freshly initialized device, otherwise the elapsed time since the
/// previous trigger, saturated to the 32-bit field it travels in.
pub open spec fn gap_of(prev: Option<u64>, now: u64) -> u32
    recommends
        prev matches Some(p) ==> p <= now,
{
    match prev {
        None => 0u32,
        Some(p) => if now - p <= u32::MAX {
            (now - p) as u32
        } else {
            u32::MAX
        },
    }
}

/// The first sample of a freshly initialized device reports a gap of zero,
/// never a stale value, whatever the instant of the trigger.
pub proof fn lemma_first_gap_zero(now: u64)
    ensures
        gap_of(None, now) == 0,
{
}

/// Every later sample's gap is exactly the elapsed time between the two
/// triggering instants, whenever that time fits the 32-bit gap field.
pub proof fn lemma_gap_is_elapsed(prev: u64, now: u64)
    requires
        prev <= now,
        now - prev <= u32::MAX,
    ensures
        gap_of(Some(prev), now) == now - prev,
{
}

impl TimestampSlot {
    /// A fresh slot, holding no previous instant.
    pub fn new() -> (s: TimestampSlot)
        ensures
            s.stamp is None,
    {
        TimestampSlot { stamp: None }
    }

    /// Installs `now` and hands back the previous value in the same
    /// operation: the exchange through which every trigger both claims the
    /// old timestamp and leaves its own.
    pub fn exchange(&mut self, now: u64) -> (prev: Option<u64>)
        ensures
            final(self).stamp == Some(now),
            prev == old(self).stamp,
    {
        let prev = self.stamp;
        self.stamp = Some(now);
        prev
    }
}

/// What one closed diagnostic window observed: `count` samples over
/// `elapsed_micros` microseconds. The observed frequency is their ratio;
/// the report keeps both so that no precision is chosen here.
#[derive(Clone, Copy, Debug, PartialEq, Eq, Structural)]
pub struct RateReport {
    /// Samples counted in the window, the closing sample included.
    pub count: u64,
    /// True length of the window, in microseconds; at least
    /// [`RATE_WINDOW_MICROS`].
    pub elapsed_micros: u64,
}

/// Windowed sample counter for the observed-rate diagnostic: a window-start
/// instant and a running count, reset together whenever the open window has
/// lasted at least one second. Purely observational; it never touches a
/// reading.
#[derive(Clone, Copy, Debug, PartialEq, Eq, Structural)]
pub struct RateWindow {
    /// Instant at which the open window started; `None` until the first
    /// sample.
    pub window_start: Option<u64>,
    /// Samples counted since the window started.
    pub count: u64,
}

/// The tracker state after counting one sample at `now`: the first sample
/// opens the window, a sample at least one second in performs the reset,
/// any other only counts.
pub open spec fn rate_step(w: RateWindow, now: u64) -> RateWindow
    recommends
        w.window_start matches Some(s) ==> s <= now,
        w.count < u64::MAX,
{
    match w.window_start {
        None => RateWindow { window_start: Some(now), count: (w.count + 1) as u64 },
        Some(s) => if now - s < RATE_WINDOW_MICROS {
            RateWindow { window_start: Some(s), count: (w.count + 1) as u64 }
        } else {
            RateWindow { window_start: Some(now), count: 0 }
        },
    }
}

/// The report that counting one sample at `now` emits: one report per
/// closed window, carrying the full count (the closing sample included)
/// and the window's true length; nothing otherwise.
pub open spec fn rate_report_of(w: RateWindow, now: u64) -> Option<RateReport>
    recommends
        w.window_start matches Some(s) ==> s <= now,
        w.count < u64::MAX,
{
    match w.window_start {
        None => None,
        Some(s) => if now - s < RATE_WINDOW_MICROS {
            None
        } else {
            Some(RateReport { count: (w.count + 1) as u64, elapsed_micros: (now - s) as u64 })
        },
    }
}

/// The diagnostic reports at most once per elapsed second: a trigger that
/// closes a window resets it, and no trigger in the second after the reset
/// can report again.
pub proof fn lemma_one_report_per_window(w: RateWindow, now: u64, t: u64)
    requires
        w.window_start matches Some(s) ==> s <= now,
        w.count < u64::MAX,
        rate_report_of(w, now) is Some,
        now <= t,
        t - now < RATE_WINDOW_MICROS,
    ensures
        rate_report_of(rate_step(w, now), t) is None,
{
}

impl RateWindow {
    /// A fresh tracker: no window open, nothing counted.
    pub fn new() -> (w: RateWindow)
        ensures
            w.window_start is None,
            w.count == 0,
    {
        RateWindow { window_start: None, count: 0 }
    }

    /// Counts one sample at instant `now`. The first sample opens the
    /// window; a sample at least one second after the window opened closes
    /// it, reporting the full count (itself included) and the true elapsed
    /// time, and opens a fresh window at `now` with the count at zero — so
    /// exactly the closing sample performs the reset, and one report comes
    /// out per elapsed second.
    pub fn on_sample(&mut self, now: u64) -> (r: Option<RateReport>)
        requires
            old(self).window_start matches Some(s) ==> s <= now,
            old(self).count < u64::MAX,
        ensures
            *final(self) == rate_step(*old(self), now),
            r == rate_report_of(*old(self), now),
    {
        self.count = self.count + 1;
        match self.window_start {
            None => {
                self.window_start = Some(now);
                None
            },
            Some(start) => {
                let elapsed = now - start;
                if elapsed < RATE_WINDOW_MICROS {
                    None
                } else {
                    let count = self.count;
                    self.count = 0;
                    self.window_start = Some(now);
                    Some(RateReport { count, elapsed_micros: elapsed })
                }
            },
        }
    }
}

} // verus!
