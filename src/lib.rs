//! A registry of countdown timers: each timer is started, advanced by ticks
//! measured on a monotonic clock, reset, and deleted; a per-timer tick task
//! decides after every tick whether to publish an update, announce completion,
//! or stop.

pub mod clock;
pub mod laws;
pub mod registry;
pub mod task;
pub mod timer;

pub use clock::WallTime;
pub use registry::Timers;
pub use task::{action_for, TickAction};
pub use timer::{Timer, TimerError};
