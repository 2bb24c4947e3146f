//! The registry: a map from identifier to timer. Every operation is one
//! read-modify-write of a single entry; callers that share the registry
//! between tasks hold it under one lock.

use crate::clock::{nanos_since, wall_now, WallTime};
use crate::timer::{Timer, TimerError};
use std::collections::HashMap;
use std::time::Instant;
use vstd::prelude::*;
use vstd::std_specs::hash::*;

verus! {

broadcast use group_hash_axioms;

/// The registered timers, keyed by identifier, and the origin of the
/// monotonic clock readings stored in them.
pub struct Timers {
    timers: HashMap<u128, Timer>,
    origin: Instant,
}

impl View for Timers {
    type V = Map<u128, Timer>;

    closed spec fn view(&self) -> Map<u128, Timer> {
        self.timers@
    }
}

impl Timers {
    /// Each timer is stored under its own identifier and is well formed.
    pub closed spec fn wf(&self) -> bool {
        forall|k: u128| #[trigger] self@.contains_key(k) ==> self@[k].id == k && self@[k].wf()
    }

    /// An empty registry whose monotonic clock starts now.
    pub fn new() -> (r: Timers)
        ensures
            r.wf(),
            r@ == Map::<u128, Timer>::empty(),
    {
        Timers { timers: HashMap::new(), origin: Instant::now() }
    }

    /// The monotonic clock: nanoseconds since the registry was made.
    pub fn now(&self) -> u128 {
        nanos_since(&self.origin)
    }

    /// The timer registered under `id`, if any.
    pub fn get(&self, id: u128) -> (r: Option<Timer>)
        ensures
            r == (if self@.contains_key(id) { Some(self@[id]) } else { None::<Timer> }),
    {
        match self.timers.get(&id) {
            Some(t) => Some(*t),
            None => None,
        }
    }

    /// Creates a never started timer of the given duration, registers it
    /// and returns it.
    pub fn make(&mut self, duration: u128) -> (r: Timer)
        requires
            old(self).wf(),
        ensures
            final(self).wf(),
            r.fresh(duration),
            !r.complete(),
            final(self)@ == old(self)@.insert(r.id, r),
    {
        let timer = Timer::new(duration);
        self.timers.insert(timer.id, timer);
        timer
    }

    /// Removes the timer registered under `id` and returns it; `None`, with
    /// nothing changed, when there is none.
    pub fn delete(&mut self, id: u128) -> (r: Option<Timer>)
        requires
            old(self).wf(),
        ensures
            final(self).wf(),
            final(self)@ == old(self)@.remove(id),
            r == (if old(self)@.contains_key(id) { Some(old(self)@[id]) } else { None::<Timer> }),
    {
        self.timers.remove(&id)
    }

    /// Starts the timer under `id` at the given clock readings and returns
    /// the started timer.
    pub fn start_at(&mut self, id: u128, wall: WallTime, now: u128) -> (r: Result<Timer, TimerError>)
        requires
            old(self).wf(),
        ensures
            final(self).wf(),
            !old(self)@.contains_key(id) ==> r == Err::<Timer, TimerError>(TimerError::NotFound)
                && final(self)@ == old(self)@,
            old(self)@.contains_key(id) ==> {
                let t = old(self)@[id].started_at(wall, now);
                r == Ok::<Timer, TimerError>(t) && final(self)@ == old(self)@.insert(id, t)
            },
    {
        match self.timers.get(&id) {
            None => Err(TimerError::NotFound),
            Some(t) => {
                let mut t = *t;
                t.start(wall, now);
                self.timers.insert(id, t);
                Ok(t)
            },
        }
    }

    /// Starts the timer under `id` now and returns the started timer.
    pub fn start(&mut self, id: u128) -> (r: Result<Timer, TimerError>)
        requires
            old(self).wf(),
        ensures
            final(self).wf(),
            !old(self)@.contains_key(id) ==> r == Err::<Timer, TimerError>(TimerError::NotFound)
                && final(self)@ == old(self)@,
            old(self)@.contains_key(id) ==> exists|wall: WallTime, now: u128|
                {
                    let t = #[trigger] old(self)@[id].started_at(wall, now);
                    r == Ok::<Timer, TimerError>(t) && final(self)@ == old(self)@.insert(id, t)
                },
    {
        let wall = wall_now();
        let now = self.now();
        self.start_at(id, wall, now)
    }

    /// Ticks the timer under `id` at monotonic time `now` and returns the
    /// ticked timer.
    pub fn tick_at(&mut self, id: u128, now: u128) -> (r: Result<Timer, TimerError>)
        requires
            old(self).wf(),
        ensures
            final(self).wf(),
            !old(self)@.contains_key(id) ==> r == Err::<Timer, TimerError>(TimerError::NotFound)
                && final(self)@ == old(self)@,
            old(self)@.contains_key(id) && old(self)@[id].checked is None ==> r == Err::<
                Timer,
                TimerError,
            >(TimerError::NotStarted) && final(self)@ == old(self)@,
            old(self)@.contains_key(id) && old(self)@[id].checked is Some ==> {
                let t = old(self)@[id].ticked(now);
                r == Ok::<Timer, TimerError>(t) && final(self)@ == old(self)@.insert(id, t)
            },
    {
        match self.timers.get(&id) {
            None => Err(TimerError::NotFound),
            Some(t) => {
                let mut t = *t;
                match t.tick(now) {
                    Err(e) => Err(e),
                    Ok(()) => {
                        self.timers.insert(id, t);
                        Ok(t)
                    },
                }
            },
        }
    }

    /// Ticks the timer under `id` now and returns the ticked timer.
    pub fn tick(&mut self, id: u128) -> (r: Result<Timer, TimerError>)
        requires
            old(self).wf(),
        ensures
            final(self).wf(),
            !old(self)@.contains_key(id) ==> r == Err::<Timer, TimerError>(TimerError::NotFound)
                && final(self)@ == old(self)@,
            old(self)@.contains_key(id) && old(self)@[id].checked is None ==> r == Err::<
                Timer,
                TimerError,
            >(TimerError::NotStarted) && final(self)@ == old(self)@,
            old(self)@.contains_key(id) && old(self)@[id].checked is Some ==> exists|now: u128|
                {
                    let t = #[trigger] old(self)@[id].ticked(now);
                    r == Ok::<Timer, TimerError>(t) && final(self)@ == old(self)@.insert(id, t)
                },
    {
        let now = self.now();
        self.tick_at(id, now)
    }

    /// Returns the timer under `id` to idle with a new duration and returns it.
    pub fn reset(&mut self, id: u128, duration: u128) -> (r: Result<Timer, TimerError>)
        requires
            old(self).wf(),
        ensures
            final(self).wf(),
            !old(self)@.contains_key(id) ==> r == Err::<Timer, TimerError>(TimerError::NotFound)
                && final(self)@ == old(self)@,
            old(self)@.contains_key(id) ==> {
                let t = old(self)@[id].reset_to(duration);
                r == Ok::<Timer, TimerError>(t) && final(self)@ == old(self)@.insert(id, t)
                    && !t.complete()
            },
    {
        match self.timers.get(&id) {
            None => Err(TimerError::NotFound),
            Some(t) => {
                let mut t = *t;
                t.reset(duration);
                self.timers.insert(id, t);
                Ok(t)
            },
        }
    }
}

} // verus!
