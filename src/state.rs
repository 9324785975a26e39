use vstd::prelude::*;

verus! {

/// The largest total a stopwatch can hold, in nanoseconds.
pub open spec fn max_total() -> nat {
    u64::MAX as nat
}

/// `x`, held at the largest representable total.
pub open spec fn capped(x: nat) -> nat {
    if x > max_total() {
        max_total()
    } else {
        x
    }
}

/// Time from clock reading `since` to clock reading `now`; a clock that seems
/// to have gone backwards contributes nothing.
pub open spec fn span(since: nat, now: nat) -> nat {
    if now >= since {
        (now - since) as nat
    } else {
        0
    }
}

/// The abstract state of a stopwatch. Instants are readings of the monotonic
/// clock, in nanoseconds on the watch's own timeline.
pub struct WatchState {
    /// Start of the current run segment; present exactly while running.
    pub running_since: Option<nat>,
    /// The last split mark of the current run, if one was taken.
    pub split_mark: Option<nat>,
    /// Total of all completed run segments.
    pub accumulated: nat,
}

impl WatchState {
    /// A split mark exists only while running, and the total fits.
    pub open spec fn wf(self) -> bool {
        &&& (self.split_mark is Some ==> self.running_since is Some)
        &&& self.accumulated <= max_total()
    }

    /// A watch that never ran.
    pub open spec fn fresh() -> WatchState {
        WatchState { running_since: None, split_mark: None, accumulated: 0 }
    }

    pub open spec fn is_running(self) -> bool {
        self.running_since is Some
    }

    /// Total elapsed time as seen at clock reading `now`.
    pub open spec fn total_at(self, now: nat) -> nat {
        match self.running_since {
            Some(since) => capped(self.accumulated + span(since, now)),
            None => self.accumulated,
        }
    }

    /// Starting at `now`: a new segment begins unless one is already running.
    pub open spec fn started_at(self, now: nat) -> WatchState {
        if self.is_running() {
            self
        } else {
            WatchState { running_since: Some(now), ..self }
        }
    }

    /// Stopping at `now`: the current segment, if any, is added to the total.
    pub open spec fn stopped_at(self, now: nat) -> WatchState {
        WatchState { running_since: None, split_mark: None, accumulated: self.total_at(now) }
    }

    /// Resetting forgets everything.
    pub open spec fn reset(self) -> WatchState {
        WatchState::fresh()
    }

    /// Restarting at `now`: a single segment from `now`, nothing accumulated.
    pub open spec fn restarted_at(self, now: nat) -> WatchState {
        WatchState { running_since: Some(now), split_mark: None, accumulated: 0 }
    }

    /// The lap boundary: the last split mark, else the segment start.
    pub open spec fn lap_start(self) -> nat
        recommends
            self.is_running(),
    {
        match self.split_mark {
            Some(mark) => mark,
            None => self.running_since->0,
        }
    }

    /// The lap time read at `now`; zero when stopped.
    pub open spec fn lap_at(self, now: nat) -> nat {
        if self.is_running() {
            span(self.lap_start(), now)
        } else {
            0
        }
    }

    /// Taking a split at `now` moves the lap boundary to `now`; no effect when stopped.
    pub open spec fn split_at(self, now: nat) -> WatchState {
        if self.is_running() {
            WatchState { split_mark: Some(now), ..self }
        } else {
            self
        }
    }
}

} // verus!
