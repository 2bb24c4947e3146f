//! One countdown timer and its state transitions. Durations and clock
//! readings are nanoseconds.

use crate::clock::{fresh_id, WallTime};
use vstd::prelude::*;

verus! {

/// Why an operation on a timer failed.
#[derive(Clone, Copy, Debug, PartialEq, Eq, Structural)]
pub enum TimerError {
    /// No timer with the given identifier is registered.
    NotFound,
    /// The timer has no active start to tick from.
    NotStarted,
}

impl TimerError {
    /// The human-readable text of the error.
    pub fn message(&self) -> (r: &'static str)
        ensures
            *self == TimerError::NotFound ==> r@ == "timer not found"@,
            *self == TimerError::NotStarted ==> r@ == "timer not started"@,
    {
        match self {
            TimerError::NotFound => "timer not found",
            TimerError::NotStarted => "timer not started",
        }
    }
}

/// The largest value a nanosecond count can hold.
pub const NANOS_MAX: u128 = 0xffff_ffff_ffff_ffff_ffff_ffff_ffff_ffff;

/// `a + b`, held at `NANOS_MAX` where it would not fit.
pub open spec fn sat_add(a: u128, b: u128) -> u128 {
    if a + b <= NANOS_MAX {
        (a + b) as u128
    } else {
        NANOS_MAX
    }
}

/// `a - b`, or zero where `b` is the larger.
pub open spec fn sat_sub(a: u128, b: u128) -> u128 {
    if a >= b {
        (a - b) as u128
    } else {
        0
    }
}

/// The generation that follows `v`; it wraps around at the top.
pub open spec fn next_version(v: u64) -> u64 {
    if v == u64::MAX {
        0
    } else {
        (v + 1) as u64
    }
}

/// A countdown timer.
#[derive(Clone, Copy, Debug, PartialEq, Eq)]
pub struct Timer {
    /// The identifier, fixed at creation.
    pub id: u128,
    /// The wall-clock time of the latest start; `None` before a start and after a reset.
    pub started: Option<WallTime>,
    /// How long the timer runs, in nanoseconds.
    pub duration: u128,
    /// The running time accumulated since the latest start, in nanoseconds.
    pub elapsed: Option<u128>,
    /// The monotonic-clock reading of the latest start or tick, in nanoseconds.
    pub checked: Option<u128>,
    /// The generation: it moves on at every start and every reset.
    pub version: u64,
}

impl Timer {
    /// The runtime fields are all present or all absent.
    pub open spec fn wf(self) -> bool {
        &&& self.started.is_some() == self.elapsed.is_some()
        &&& self.elapsed.is_some() == self.checked.is_some()
    }

    /// Whether the timer has run its full duration.
    pub open spec fn complete(self) -> bool {
        match self.elapsed {
            Some(e) => e >= self.duration,
            None => false,
        }
    }

    /// A timer that has never been started.
    pub open spec fn fresh(self, duration: u128) -> bool {
        &&& self.duration == duration
        &&& self.started is None
        &&& self.elapsed is None
        &&& self.checked is None
        &&& self.version == 0
    }

    /// The timer started at wall time `wall` and monotonic time `now`.
    pub open spec fn started_at(self, wall: WallTime, now: u128) -> Timer {
        Timer {
            started: Some(wall),
            elapsed: Some(0),
            checked: Some(now),
            version: next_version(self.version),
            ..self
        }
    }

    /// What a tick returns: `NotStarted` unless the timer is running.
    pub open spec fn tick_outcome(self) -> Result<(), TimerError> {
        match self.checked {
            Some(_) => Ok(()),
            None => Err(TimerError::NotStarted),
        }
    }

    /// The timer after a tick at monotonic time `now`: the time since the
    /// previous reading is added to `elapsed`, and the reading moves forward.
    /// A timer that is not running is left as it is.
    pub open spec fn ticked(self, now: u128) -> Timer {
        match self.checked {
            None => self,
            Some(c) => {
                let prior = match self.elapsed {
                    Some(e) => e,
                    None => 0,
                };
                Timer {
                    elapsed: Some(sat_add(prior, sat_sub(now, c))),
                    checked: Some(if now >= c { now } else { c }),
                    ..self
                }
            },
        }
    }

    /// The timer returned to idle with a new duration.
    pub open spec fn reset_to(self, duration: u128) -> Timer {
        Timer {
            duration,
            started: None,
            elapsed: None,
            checked: None,
            version: next_version(self.version),
            ..self
        }
    }

    /// A new, never started timer with a fresh random identifier.
    pub fn new(duration: u128) -> (r: Timer)
        ensures
            r.fresh(duration),
            r.wf(),
            !r.complete(),
    {
        Timer {
            id: fresh_id(),
            started: None,
            duration,
            elapsed: None,
            checked: None,
            version: 0,
        }
    }

    /// Whether `elapsed` is present and at least `duration`.
    pub fn is_complete(&self) -> (r: bool)
        ensures
            r == self.complete(),
    {
        match self.elapsed {
            Some(e) => e >= self.duration,
            None => false,
        }
    }

    /// Starts (or restarts) the timer: `elapsed` becomes zero and both
    /// clock readings are recorded.
    pub fn start(&mut self, wall: WallTime, now: u128)
        ensures
            *final(self) == old(self).started_at(wall, now),
            final(self).wf(),
            final(self).id == old(self).id,
            final(self).elapsed == Some(0u128),
    {
        self.started = Some(wall);
        self.elapsed = Some(0);
        self.checked = Some(now);
        self.version = if self.version == u64::MAX { 0 } else { self.version + 1 };
    }

    /// Advances a started timer to monotonic time `now`; fails with
    /// `NotStarted`, leaving the timer as it is, when it has no start.
    pub fn tick(&mut self, now: u128) -> (r: Result<(), TimerError>)
        ensures
            r == old(self).tick_outcome(),
            *final(self) == old(self).ticked(now),
            old(self).checked is None ==> r == Err::<(), TimerError>(TimerError::NotStarted),
            old(self).wf() ==> final(self).wf(),
            final(self).id == old(self).id,
            final(self).duration == old(self).duration,
            final(self).version == old(self).version,
    {
        match self.checked {
            None => Err(TimerError::NotStarted),
            Some(c) => {
                let prior: u128 = match self.elapsed {
                    Some(e) => e,
                    None => 0,
                };
                let delta: u128 = if now >= c { now - c } else { 0 };
                let total: u128 = if prior <= NANOS_MAX - delta { prior + delta } else { NANOS_MAX };
                self.elapsed = Some(total);
                self.checked = Some(if now >= c { now } else { c });
                Ok(())
            },
        }
    }

    /// Returns the timer to idle with a new duration: the start time,
    /// `elapsed` and the clock reading are cleared.
    pub fn reset(&mut self, duration: u128)
        ensures
            *final(self) == old(self).reset_to(duration),
            final(self).wf(),
            !final(self).complete(),
    {
        self.duration = duration;
        self.started = None;
        self.elapsed = None;
        self.checked = None;
        self.version = if self.version == u64::MAX { 0 } else { self.version + 1 };
    }
}

} // verus!
