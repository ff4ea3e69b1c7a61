//! A pomodoro timer library: a work/break cycle state machine paired with a
//! countdown clock that keeps whole minutes and seconds.

use vstd::prelude::*;

pub mod clock;
pub mod tracker;

pub use clock::Clock;
pub use tracker::PomodoroState;
pub use tracker::StateTracker;

verus! {

/// The one command the timer understands: start a pomodoro cycle.
pub enum PomodoroConfig {
    Start,
}

} // verus!
