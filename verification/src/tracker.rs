//! The pomodoro cycle state machine: which work interval is active and what
//! kind of break follows it.

use vstd::prelude::*;

use crate::clock::Clock;

verus! {

/// The phase the timer is in.
pub enum PomodoroState {
    Working,
    ShortBreak,
    LongBreak,
    Idle,
}

/// Tracks the position in the four-step work cycle and the current phase.
pub struct StateTracker {
    current_order: Option<i32>,
    current_state: PomodoroState,
    started_at: Option<u64>,
}

/// How one more work interval moves the cycle position: an unset position
/// becomes 1, positions below 4 advance by one, and anything else wraps back
/// to unset.
pub open spec fn spec_next_order(order: Option<i32>) -> Option<i32> {
    match order {
        Some(num) => if num < 4 {
            Some((num + 1) as i32)
        } else {
            None
        },
        None => Some(1i32),
    }
}

impl StateTracker {
    /// The position in the work cycle, unset before the first interval.
    pub closed spec fn spec_order(self) -> Option<i32> {
        self.current_order
    }

    /// The current phase.
    pub closed spec fn spec_state(self) -> PomodoroState {
        self.current_state
    }

    /// When the most recent work interval began, in milliseconds.
    pub closed spec fn spec_started_at(self) -> Option<u64> {
        self.started_at
    }

    /// A fresh tracker: no interval has run, the timer is idle.
    pub fn new() -> (t: StateTracker)
        ensures
            t.spec_order() is None,
            t.spec_state() == PomodoroState::Idle,
            t.spec_started_at() is None,
    {
        StateTracker { current_order: None, current_state: PomodoroState::Idle, started_at: None }
    }

    /// The current position in the cycle.
    pub fn get_order(&self) -> (order: Option<i32>)
        ensures
            order == self.spec_order(),
    {
        self.current_order
    }

    /// Advances the cycle position by one work interval.
    pub fn increment_cycle(&mut self)
        ensures
            final(self).spec_order() == spec_next_order(old(self).spec_order()),
            final(self).spec_state() == old(self).spec_state(),
            final(self).spec_started_at() == old(self).spec_started_at(),
    {
        let new_order = match self.current_order {
            Some(num) if num < 4 => Some(num + 1),
            None => Some(1),
            _ => None,
        };
        self.current_order = new_order;
    }

    /// Forces the cycle position back to unset, whatever it was.
    pub fn restart_cycle(&mut self)
        ensures
            final(self).spec_order() is None,
            final(self).spec_state() == old(self).spec_state(),
            final(self).spec_started_at() == old(self).spec_started_at(),
    {
        self.current_order = None;
    }

    /// Picks the phase the current position calls for: a short break after
    /// positions up to three, a long break after the fourth, idle otherwise.
    pub fn set_break(&mut self)
        ensures
            final(self).spec_state() == spec_break_of(old(self).spec_order()),
            final(self).spec_order() == old(self).spec_order(),
            final(self).spec_started_at() == old(self).spec_started_at(),
    {
        let break_state = match self.current_order {
            Some(x) => if 0 <= x && x <= 3 {
                PomodoroState::ShortBreak
            } else if x == 4 {
                PomodoroState::LongBreak
            } else {
                PomodoroState::Idle
            },
            None => PomodoroState::Idle,
        };
        self.current_state = break_state;
    }

    /// Begins a work interval: records when it started, switches the phase to
    /// working, advances the cycle position, and hands back the twenty-five
    /// minute clock the interval runs on.
    pub fn start_work(&mut self) -> (c: Clock)
        ensures
            final(self).spec_state() == PomodoroState::Working,
            final(self).spec_order() == spec_next_order(old(self).spec_order()),
            final(self).spec_started_at() is Some,
            c.spec_minutes() == 25,
            c.spec_seconds() == 0,
            c.wf(),
    {
        let now = now_millis();
        self.started_at = Some(now);

        let mut clock = Clock::new();
        self.current_state = PomodoroState::Working;
        self.increment_cycle();
        clock.set_time_minutes(25);
        clock
    }

    /// Hands back the clock for the break the current phase calls for: five
    /// minutes in a short break, thirty in a long one, nothing otherwise.
    pub fn start_break(&mut self) -> (c: Option<Clock>)
        ensures
            *final(self) == *old(self),
            old(self).spec_state() == PomodoroState::ShortBreak ==> (c matches Some(k)
                && k.spec_minutes() == 5 && k.spec_seconds() == 0),
            old(self).spec_state() == PomodoroState::LongBreak ==> (c matches Some(k)
                && k.spec_minutes() == 30 && k.spec_seconds() == 0),
            !(old(self).spec_state() == PomodoroState::ShortBreak || old(self).spec_state()
                == PomodoroState::LongBreak) ==> c is None,
    {
        match self.current_state {
            PomodoroState::ShortBreak => Some(self.short_break()),
            PomodoroState::LongBreak => Some(self.long_break()),
            _ => None,
        }
    }

    /// The five-minute clock a short break runs on.
    pub fn short_break(&mut self) -> (c: Clock)
        ensures
            *final(self) == *old(self),
            c.spec_minutes() == 5,
            c.spec_seconds() == 0,
            c.wf(),
    {
        let mut clock = Clock::new();
        clock.set_time_minutes(5);
        clock
    }

    /// The thirty-minute clock a long break runs on.
    pub fn long_break(&mut self) -> (c: Clock)
        ensures
            *final(self) == *old(self),
            c.spec_minutes() == 30,
            c.spec_seconds() == 0,
            c.wf(),
    {
        let mut clock = Clock::new();
        clock.set_time_minutes(30);
        clock
    }
}

/// The phase that follows a work interval at the given cycle position.
pub open spec fn spec_break_of(order: Option<i32>) -> PomodoroState {
    match order {
        Some(x) => if 0 <= x <= 3 {
            PomodoroState::ShortBreak
        } else if x == 4 {
            PomodoroState::LongBreak
        } else {
            PomodoroState::Idle
        },
        None => PomodoroState::Idle,
    }
}

/// Relies on std::time::SystemTime::now and duration_since: the milliseconds
/// between the system clock's reading and the Unix epoch, or zero when the
/// clock reads earlier than the epoch. The reading depends on when the call
/// is made, so nothing is promised of the value.
#[verifier::external_body]
fn now_millis() -> u64 {
    match std::time::SystemTime::now().duration_since(std::time::UNIX_EPOCH) {
        Ok(d) => d.as_millis() as u64,
        Err(_) => 0,
    }
}

/// Law: from an unset position, successive work intervals visit positions one
/// through four, wrap back to unset, and then start over at one.
pub proof fn lemma_cycle_sequence()
    ensures
        spec_next_order(None) == Some(1i32),
        spec_next_order(Some(1i32)) == Some(2i32),
        spec_next_order(Some(2i32)) == Some(3i32),
        spec_next_order(Some(3i32)) == Some(4i32),
        spec_next_order(Some(4i32)) is None,
        spec_next_order(spec_next_order(Some(4i32))) == Some(1i32),
{
}

/// Law: the break after positions one through three is short, the break after
/// position four is long, and an unset position calls for no break at all.
pub proof fn lemma_break_selection(order: Option<i32>)
    ensures
        order matches Some(x) && 1 <= x <= 3 ==> spec_break_of(order)
            == PomodoroState::ShortBreak,
        order == Some(4i32) ==> spec_break_of(order) == PomodoroState::LongBreak,
        order is None ==> spec_break_of(order) == PomodoroState::Idle,
{
}

} // verus!
