//! Facts about timers that span several operations.

use crate::clock::WallTime;
use crate::timer::{Timer, TimerError};
use vstd::prelude::*;

verus! {

/// The timer after ticks at each of the monotonic times `times`, in order.
pub open spec fn run_ticks(t: Timer, times: Seq<u128>) -> Timer
    decreases times.len(),
{
    if times.len() == 0 {
        t
    } else {
        run_ticks(t, times.drop_last()).ticked(times.last())
    }
}

/// The latest of `times`, or `t0` when there are none.
pub open spec fn last_or(t0: u128, times: Seq<u128>) -> u128 {
    if times.len() == 0 {
        t0
    } else {
        times.last()
    }
}

/// Each of `times` comes at least `period` after the one before it, the
/// first at least `period` after `t0`.
pub open spec fn spaced(t0: u128, times: Seq<u128>, period: u128) -> bool {
    forall|i: int|
        0 <= i < times.len() ==> (if i == 0 {
            t0 as int
        } else {
            times[i - 1] as int
        }) + period <= #[trigger] times[i] as int
}

/// A timer made by `new` is not complete.
pub proof fn lemma_fresh_not_complete(t: Timer, duration: u128)
    requires
        t.fresh(duration),
    ensures
        !t.complete(),
{
}

/// Whatever state a timer is in, it is not complete right after a reset.
pub proof fn lemma_reset_not_complete(t: Timer, duration: u128)
    ensures
        !t.reset_to(duration).complete(),
{
}

/// A tick on a timer that was never started fails with `NotStarted` and
/// changes nothing.
pub proof fn lemma_fresh_tick_not_started(t: Timer, duration: u128, now: u128)
    requires
        t.fresh(duration),
    ensures
        t.tick_outcome() == Err::<(), TimerError>(TimerError::NotStarted),
        t.ticked(now) == t,
{
}

/// A reset timer cannot be ticked until it is started again.
pub proof fn lemma_reset_tick_not_started(t: Timer, duration: u128, now: u128)
    ensures
        t.reset_to(duration).tick_outcome() == Err::<(), TimerError>(TimerError::NotStarted),
        t.reset_to(duration).ticked(now) == t.reset_to(duration),
{
}

/// A tick never makes `elapsed` smaller.
pub proof fn lemma_tick_monotone(t: Timer, now: u128)
    requires
        t.wf(),
        t.checked is Some,
    ensures
        t.ticked(now).elapsed is Some,
        t.ticked(now).elapsed->0 >= t.elapsed->0,
        t.ticked(now).duration == t.duration,
{
}

/// Once complete, a timer stays complete under further ticks.
pub proof fn lemma_complete_stays_complete(t: Timer, now: u128)
    requires
        t.complete(),
    ensures
        t.ticked(now).complete(),
{
}

/// Elapsed time after a run of ticks is the time between the start and the
/// latest tick.
proof fn lemma_run_ticks_elapsed(s: Timer, t0: u128, times: Seq<u128>, period: u128)
    requires
        s.checked == Some(t0),
        s.elapsed == Some(0u128),
        spaced(t0, times, period),
    ensures
        run_ticks(s, times).checked == Some(last_or(t0, times)),
        run_ticks(s, times).elapsed == Some((last_or(t0, times) - t0) as u128),
        run_ticks(s, times).duration == s.duration,
        last_or(t0, times) - t0 >= times.len() * period,
    decreases times.len(),
{
    if times.len() > 0 {
        let prefix = times.drop_last();
        assert(spaced(t0, prefix, period)) by {
            assert forall|i: int| 0 <= i < prefix.len() implies (if i == 0 {
                t0 as int
            } else {
                prefix[i - 1] as int
            }) + period <= #[trigger] prefix[i] as int by {
                assert(prefix[i] == times[i]);
                if i > 0 {
                    assert(prefix[i - 1] == times[i - 1]);
                }
            }
        }
        lemma_run_ticks_elapsed(s, t0, prefix, period);
        let n = times.len() - 1;
        assert(last_or(t0, times) as int >= last_or(t0, prefix) + period) by {
            if n > 0 {
                assert(times[n - 1] == prefix.last());
            }
            assert(times[n] == times.last());
        }
        assert(times.len() * period == prefix.len() * period + period) by (nonlinear_arith)
            requires
                times.len() == prefix.len() + 1,
        ;
    }
}

/// After a start at monotonic time `t0`, ticks that each come at least
/// `period` after the previous reading complete the timer once their count
/// times `period` reaches its duration; elapsed is then exactly the time
/// since the start.
pub proof fn lemma_ticks_reach_duration(
    t: Timer,
    wall: WallTime,
    t0: u128,
    times: Seq<u128>,
    period: u128,
)
    requires
        spaced(t0, times, period),
        times.len() * period >= t.duration,
    ensures
        run_ticks(t.started_at(wall, t0), times).complete(),
        run_ticks(t.started_at(wall, t0), times).elapsed == Some(
            (last_or(t0, times) - t0) as u128,
        ),
{
    lemma_run_ticks_elapsed(t.started_at(wall, t0), t0, times, period);
}

} // verus!
