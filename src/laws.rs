//! Properties of the stopwatch model that hold across several operations.
use vstd::prelude::*;

use crate::state::{max_total, WatchState};

verus! {

/// Every operation keeps a well-formed state well formed.
pub proof fn lemma_operations_keep_wf(s: WatchState, now: nat)
    requires
        s.wf(),
    ensures
        WatchState::fresh().wf(),
        s.started_at(now).wf(),
        s.stopped_at(now).wf(),
        s.reset().wf(),
        s.restarted_at(now).wf(),
        s.split_at(now).wf(),
{
}

/// A watch that never ran is stopped and shows no time, whenever it is read.
pub proof fn lemma_fresh_is_idle(now: nat)
    ensures
        !WatchState::fresh().is_running(),
        WatchState::fresh().total_at(now) == 0,
{
}

/// `n` rounds of stopping and starting again at the same reading `t`.
pub open spec fn cycled(s: WatchState, n: nat, t: nat) -> WatchState
    decreases n,
{
    if n == 0 {
        s
    } else {
        cycled(s, (n - 1) as nat, t).stopped_at(t).started_at(t)
    }
}

/// Stopping and starting again with no time in between adds nothing: however
/// many such rounds a running watch goes through at reading `t`, its total at
/// any later reading `u` is what it would have been without them. In
/// particular a watch started at `t` still shows zero at `t`.
pub proof fn lemma_instant_cycles_add_nothing(s: WatchState, n: nat, t: nat, u: nat)
    requires
        s.is_running(),
        s.running_since->0 <= t <= u,
    ensures
        cycled(s, n, t).is_running(),
        cycled(s, n, t).running_since->0 <= t,
        cycled(s, n, t).total_at(u) == s.total_at(u),
        cycled(WatchState::fresh().started_at(t), n, t).total_at(t) == 0,
    decreases n,
{
    if n > 0 {
        lemma_instant_cycles_add_nothing(s, (n - 1) as nat, t, u);
        lemma_instant_cycles_add_nothing(WatchState::fresh().started_at(t), (n - 1) as nat, t, t);
    }
}

/// A watch started at reading `t` shows, at a later reading `u`, exactly the
/// time from `t` to `u`.
pub proof fn lemma_start_measures_from_start(t: nat, u: nat)
    requires
        t <= u <= max_total(),
    ensures
        WatchState::fresh().started_at(t).total_at(u) == u - t,
{
}

/// Two run segments add up: started at `t0`, stopped at `t1`, started again at
/// `t2`, the watch shows at `t3` the sum of both segments, and the same once
/// stopped there.
pub proof fn lemma_segments_add_up(t0: nat, t1: nat, t2: nat, t3: nat)
    requires
        t0 <= t1 <= t2 <= t3 <= max_total(),
    ensures
        ({
            let s = WatchState::fresh().started_at(t0).stopped_at(t1).started_at(t2);
            &&& s.total_at(t3) == (t1 - t0) + (t3 - t2)
            &&& s.stopped_at(t3).accumulated == (t1 - t0) + (t3 - t2)
        }),
{
}

/// Resetting, from any state, leaves a stopped watch that shows no time.
pub proof fn lemma_reset_clears(s: WatchState, now: nat)
    ensures
        s.reset() == WatchState::fresh(),
        !s.reset().is_running(),
        s.reset().total_at(now) == 0,
{
}

/// Restarting is resetting and then starting: right after, the watch runs and
/// shows zero, and later it shows the time since the restart.
pub proof fn lemma_restart_is_reset_then_start(s: WatchState, t: nat, u: nat)
    requires
        t <= u <= max_total(),
    ensures
        s.restarted_at(t) == s.reset().started_at(t),
        s.restarted_at(t).is_running(),
        s.restarted_at(t).total_at(t) == 0,
        s.restarted_at(t).total_at(u) == u - t,
{
}

/// Each split moves the lap boundary: on a running watch, a split at `t1`
/// gives the time since the previous boundary, a second one at `t2` gives
/// only the time since `t1`, and taking splits does not change the total.
pub proof fn lemma_split_moves_lap_boundary(s: WatchState, t1: nat, t2: nat, u: nat)
    requires
        s.is_running(),
        s.lap_start() <= t1 <= t2,
    ensures
        s.lap_at(t1) == t1 - s.lap_start(),
        s.split_at(t1).lap_at(t2) == t2 - t1,
        s.split_at(t1).total_at(u) == s.total_at(u),
{
}

/// On a stopped watch a split gives zero and changes nothing.
pub proof fn lemma_split_when_stopped(s: WatchState, now: nat)
    requires
        !s.is_running(),
    ensures
        s.lap_at(now) == 0,
        s.split_at(now) == s,
{
}

/// Stopping twice is stopping once: the second stop changes nothing.
pub proof fn lemma_stop_twice(s: WatchState, t1: nat, t2: nat)
    ensures
        s.stopped_at(t1).stopped_at(t2) == s.stopped_at(t1),
{
}

/// A stopped watch keeps the total it had when stopped, whenever it is read.
pub proof fn lemma_stop_freezes_total(s: WatchState, t: nat, u: nat)
    ensures
        s.stopped_at(t).total_at(u) == s.total_at(t),
{
}

} // verus!
