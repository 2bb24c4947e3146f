//! The decisions of the periodic tick task. The task captures the timer's
//! generation when it is started; at each firing it ticks the timer and acts
//! on the outcome. A start or reset after its own moves the generation on,
//! so at most one task acts for each start.

use crate::registry::Timers;
use crate::timer::{Timer, TimerError};
use vstd::prelude::*;

verus! {

/// What the tick task does after one firing.
#[derive(Clone, Copy, Debug, PartialEq, Eq)]
pub enum TickAction {
    /// End without publishing anything.
    Stop,
    /// Publish the running timer and wait for the next firing.
    Update(Timer),
    /// Publish the completed timer once, then end.
    Done(Timer),
}

/// The action that a tick outcome calls for.
pub open spec fn action_spec(outcome: Result<Timer, TimerError>) -> TickAction {
    match outcome {
        Err(_) => TickAction::Stop,
        Ok(t) => if t.complete() {
            TickAction::Done(t)
        } else {
            TickAction::Update(t)
        },
    }
}

/// An error ends the task; a completed timer is announced once; any other
/// timer is published as an update.
pub fn action_for(outcome: Result<Timer, TimerError>) -> (r: TickAction)
    ensures
        r == action_spec(outcome),
{
    match outcome {
        Err(_) => TickAction::Stop,
        Ok(t) => if t.is_complete() {
            TickAction::Done(t)
        } else {
            TickAction::Update(t)
        },
    }
}

impl Timers {
    /// Whether a task started at `generation` still acts for the timer `id`.
    pub open spec fn owns(&self, id: u128, generation: u64) -> bool {
        self@.contains_key(id) && self@[id].version == generation
    }

    /// One firing of the tick task of the timer `id`, started at
    /// `generation`, at monotonic time `now`. When the timer is gone, or was
    /// started or reset again since, the task stops and nothing changes.
    pub fn step_at(&mut self, id: u128, generation: u64, now: u128) -> (r: TickAction)
        requires
            old(self).wf(),
        ensures
            final(self).wf(),
            !old(self).owns(id, generation) ==> r == TickAction::Stop && final(self)@ == old(
                self,
            )@,
            old(self).owns(id, generation) && old(self)@[id].checked is None ==> r
                == TickAction::Stop && final(self)@ == old(self)@,
            old(self).owns(id, generation) && old(self)@[id].checked is Some ==> {
                let t = old(self)@[id].ticked(now);
                r == action_spec(Ok(t)) && final(self)@ == old(self)@.insert(id, t)
            },
    {
        match self.get(id) {
            None => TickAction::Stop,
            Some(t) => if t.version != generation {
                TickAction::Stop
            } else {
                action_for(self.tick_at(id, now))
            },
        }
    }

    /// One firing of the tick task of the timer `id`, started at
    /// `generation`, at the current time.
    pub fn step(&mut self, id: u128, generation: u64) -> (r: TickAction)
        requires
            old(self).wf(),
        ensures
            final(self).wf(),
            !old(self).owns(id, generation) ==> r == TickAction::Stop && final(self)@ == old(
                self,
            )@,
            old(self).owns(id, generation) && old(self)@[id].checked is None ==> r
                == TickAction::Stop && final(self)@ == old(self)@,
            old(self).owns(id, generation) && old(self)@[id].checked is Some ==> exists|now: u128|
                {
                    let t = #[trigger] old(self)@[id].ticked(now);
                    r == action_spec(Ok(t)) && final(self)@ == old(self)@.insert(id, t)
                },
    {
        let now = self.now();
        self.step_at(id, generation, now)
    }
}

} // verus!
