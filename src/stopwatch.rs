use vstd::prelude::*;

use crate::clock::{clock_now, ticks_since};
use crate::display::{format_ms, render_ms};
use crate::duration::{Duration, NANOS_PER_MILLI};
use crate::state::{capped, span, WatchState};

verus! {

/// Measures elapsed time across start/stop cycles, with a lap timer.
///
/// Clock readings are nanoseconds since the watch was made (its `origin`).
/// A copy is an independent watch that shares the same past.
#[derive(Clone, Copy)]
pub struct Stopwatch {
    /// The instant that clock readings count from.
    origin: std::time::Instant,
    /// The reading at which the current run segment began, while running.
    start_time: Option<u64>,
    /// The reading of the last split mark in the current run, if any.
    split_time: Option<u64>,
    /// Total of the completed run segments, in nanoseconds.
    elapsed: u64,
}

spec fn reading_of(t: Option<u64>) -> Option<nat> {
    match t {
        Some(v) => Some(v as nat),
        None => None,
    }
}

impl View for Stopwatch {
    type V = WatchState;

    closed spec fn view(&self) -> WatchState {
        WatchState {
            running_since: reading_of(self.start_time),
            split_mark: reading_of(self.split_time),
            accumulated: self.elapsed as nat,
        }
    }
}

/// `since` to `now`, zero if `now` comes first.
fn span_between(since: u64, now: u64) -> (r: u64)
    ensures
        r as nat == span(since as nat, now as nat),
{
    if now >= since {
        now - since
    } else {
        0
    }
}

/// `a + b`, held at `u64::MAX`.
fn add_capped(a: u64, b: u64) -> (r: u64)
    ensures
        r as nat == capped((a + b) as nat),
{
    if a > u64::MAX - b {
        u64::MAX
    } else {
        a + b
    }
}

impl Stopwatch {
    #[verifier::type_invariant]
    spec fn inv(self) -> bool {
        self.split_time is Some ==> self.start_time is Some
    }

    /// A stopped watch with nothing accumulated.
    pub fn new() -> (r: Stopwatch)
        ensures
            r@ == WatchState::fresh(),
    {
        Stopwatch { origin: clock_now(), start_time: None, split_time: None, elapsed: 0 }
    }

    /// A watch that starts running at once.
    pub fn start_new() -> (r: Stopwatch)
        ensures
            r@.is_running(),
            r@.split_mark is None,
            r@.accumulated == 0,
    {
        let mut sw = Stopwatch::new();
        sw.start();
        sw
    }

    /// The current clock reading on this watch's timeline.
    fn now(&self) -> (r: u64) {
        ticks_since(&self.origin)
    }

    /// Starts a segment at clock reading `now`; a running watch is left as it is.
    pub fn start_at(&mut self, now: u64)
        ensures
            final(self)@ == old(self)@.started_at(now as nat),
    {
        if self.start_time.is_none() {
            self.start_time = Some(now);
        }
    }

    /// Starts a segment now; a running watch is left as it is.
    pub fn start(&mut self)
        ensures
            exists|t: nat| final(self)@ == #[trigger] old(self)@.started_at(t),
            final(self)@.is_running(),
            final(self)@.accumulated == old(self)@.accumulated,
    {
        let now = self.now();
        self.start_at(now);
    }

    /// Whether the watch is running.
    pub fn is_running(&self) -> (r: bool)
        ensures
            r == self@.is_running(),
    {
        self.start_time.is_some()
    }

    /// Ends the current segment at clock reading `now`, adding it to the total.
    /// A stopped watch is left as it is.
    pub fn stop_at(&mut self, now: u64)
        ensures
            final(self)@ == old(self)@.stopped_at(now as nat),
    {
        let total = self.elapsed_at(now);
        *self = Stopwatch { start_time: None, split_time: None, elapsed: total.as_nanos(), ..*self };
    }

    /// Ends the current segment now, adding it to the total. A stopped watch
    /// is left as it is.
    pub fn stop(&mut self)
        ensures
            exists|t: nat| final(self)@ == #[trigger] old(self)@.stopped_at(t),
            !final(self)@.is_running(),
            !old(self)@.is_running() ==> final(self)@ == old(self)@,
            final(self)@.accumulated >= old(self)@.accumulated,
    {
        proof {
            use_type_invariant(&*self);
        }
        let now = self.now();
        self.stop_at(now);
    }

    /// Stops the watch and clears the total.
    pub fn reset(&mut self)
        ensures
            final(self)@ == old(self)@.reset(),
    {
        *self = Stopwatch { start_time: None, split_time: None, elapsed: 0, ..*self };
    }

    /// Clears the total and starts a fresh segment at clock reading `now`.
    pub fn restart_at(&mut self, now: u64)
        ensures
            final(self)@ == old(self)@.restarted_at(now as nat),
    {
        self.reset();
        self.start_at(now);
    }

    /// Clears the total and starts a fresh segment now.
    pub fn restart(&mut self)
        ensures
            exists|t: nat| final(self)@ == #[trigger] old(self)@.restarted_at(t),
            final(self)@.is_running(),
            final(self)@.split_mark is None,
            final(self)@.accumulated == 0,
    {
        let now = self.now();
        self.restart_at(now);
    }

    /// The total elapsed time as seen at clock reading `now`.
    pub fn elapsed_at(&self, now: u64) -> (r: Duration)
        ensures
            r@ == self@.total_at(now as nat),
    {
        match self.start_time {
            Some(since) => Duration::from_nanos(add_capped(self.elapsed, span_between(since, now))),
            None => Duration::from_nanos(self.elapsed),
        }
    }

    /// The total elapsed time: the completed segments, plus the current one
    /// up to now while running.
    pub fn elapsed(&self) -> (r: Duration)
        ensures
            exists|t: nat| r@ == #[trigger] self@.total_at(t),
            !self@.is_running() ==> r@ == self@.accumulated,
            r@ >= self@.accumulated,
    {
        let now = self.now();
        self.elapsed_at(now)
    }

    /// The total elapsed time in nanoseconds.
    pub fn elapsed_ns(&self) -> (r: u64)
        ensures
            exists|t: nat| r as nat == #[trigger] self@.total_at(t),
            !self@.is_running() ==> r as nat == self@.accumulated,
    {
        self.elapsed().as_nanos()
    }

    /// The total elapsed time in whole milliseconds, truncated.
    pub fn elapsed_ms(&self) -> (r: i64)
        ensures
            exists|t: nat| r as int == #[trigger] self@.total_at(t) / (NANOS_PER_MILLI as nat),
            !self@.is_running() ==> r as int == self@.accumulated / (NANOS_PER_MILLI as nat),
    {
        self.elapsed().as_millis() as i64
    }

    /// The total elapsed time as text, in the form of `render_ms`: for
    /// example `1h 2m 3s 4ms`, or `250ms` under a second.
    pub fn to_text(&self) -> (r: String)
        ensures
            exists|t: nat| r@ == render_ms(#[trigger] self@.total_at(t) / (NANOS_PER_MILLI as nat)),
    {
        format_ms(self.elapsed().as_millis())
    }

    /// The lap time at clock reading `now`: from the last split mark, or from
    /// the segment start if none was taken, to `now`; `now` becomes the new
    /// mark. A stopped watch gives zero and is left as it is.
    pub fn elapsed_split_at(&mut self, now: u64) -> (r: Duration)
        ensures
            r@ == old(self)@.lap_at(now as nat),
            final(self)@ == old(self)@.split_at(now as nat),
    {
        match self.start_time {
            Some(start) => {
                let mark = match self.split_time {
                    Some(split) => split,
                    None => start,
                };
                self.split_time = Some(now);
                Duration::from_nanos(span_between(mark, now))
            },
            None => Duration::zero(),
        }
    }

    /// The lap time up to now, which becomes the new split mark. A stopped
    /// watch gives zero and is left as it is.
    pub fn elapsed_split(&mut self) -> (r: Duration)
        ensures
            exists|t: nat|
                {
                    &&& r@ == #[trigger] old(self)@.lap_at(t)
                    &&& final(self)@ == old(self)@.split_at(t)
                },
            !old(self)@.is_running() ==> r@ == 0 && final(self)@ == old(self)@,
    {
        let now = self.now();
        self.elapsed_split_at(now)
    }

    /// The lap time in nanoseconds; see `elapsed_split`.
    pub fn elapsed_split_ns(&mut self) -> (r: u64)
        ensures
            exists|t: nat|
                {
                    &&& r as nat == #[trigger] old(self)@.lap_at(t)
                    &&& final(self)@ == old(self)@.split_at(t)
                },
            !old(self)@.is_running() ==> r == 0 && final(self)@ == old(self)@,
    {
        self.elapsed_split().as_nanos()
    }

    /// The lap time in whole milliseconds, truncated; see `elapsed_split`.
    pub fn elapsed_split_ms(&mut self) -> (r: i64)
        ensures
            exists|t: nat|
                {
                    &&& r as int == #[trigger] old(self)@.lap_at(t) / (NANOS_PER_MILLI as nat)
                    &&& final(self)@ == old(self)@.split_at(t)
                },
            !old(self)@.is_running() ==> r == 0 && final(self)@ == old(self)@,
    {
        self.elapsed_split().as_millis() as i64
    }
}

impl Default for Stopwatch {
    /// Same as `Stopwatch::new`.
    fn default() -> (r: Stopwatch)
        ensures
            r@ == WatchState::fresh(),
    {
        Stopwatch::new()
    }
}

} // verus!
