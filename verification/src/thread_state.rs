//! The life-cycle state of a thread loop.

use vstd::prelude::*;

verus! {

/// The stage that a thread loop has reached.
#[derive(Debug, Clone, Copy, PartialEq, Eq, PartialOrd, Ord, Hash)]
pub enum ThreadState {
    Initializing,
    Ready,
    Inactive,
    Stopping,
    Stopped,
}

/// The number that stands for a state, in the order the states are declared.
pub open spec fn state_number(state: ThreadState) -> u8 {
    match state {
        ThreadState::Initializing => 0,
        ThreadState::Ready => 1,
        ThreadState::Inactive => 2,
        ThreadState::Stopping => 3,
        ThreadState::Stopped => 4,
    }
}

impl Default for ThreadState {
    fn default() -> (state: Self)
        ensures
            state == ThreadState::Initializing,
    {
        ThreadState::Initializing
    }
}

impl ThreadState {
    /// The state with the number `value`; only the numbers 0 to 4 stand for a state.
    pub fn from_u8(value: u8) -> (state: Self)
        requires
            value <= 4,
        ensures
            state_number(state) == value,
    {
        match value {
            0 => ThreadState::Initializing,
            1 => ThreadState::Ready,
            2 => ThreadState::Inactive,
            3 => ThreadState::Stopping,
            _ => ThreadState::Stopped,
        }
    }

    /// The number that stands for this state.
    pub fn as_u8(self) -> (value: u8)
        ensures
            value == state_number(self),
    {
        match self {
            ThreadState::Initializing => 0,
            ThreadState::Ready => 1,
            ThreadState::Inactive => 2,
            ThreadState::Stopping => 3,
            ThreadState::Stopped => 4,
        }
    }
}

/// Each state has its own number, so converting a state to its number and back gives it again.
pub proof fn lemma_state_number_round_trip(state: ThreadState, other: ThreadState)
    ensures
        state_number(state) <= 4,
        state_number(state) == state_number(other) ==> state == other,
{
}

/// The state of one side of a thread loop.
#[derive(Debug, Clone, Copy)]
pub struct State {
    current: ThreadState,
}

impl View for State {
    type V = ThreadState;

    closed spec fn view(&self) -> ThreadState {
        self.current
    }
}

impl Default for State {
    fn default() -> (state: Self)
        ensures
            state@ == ThreadState::Initializing,
    {
        State { current: ThreadState::Initializing }
    }
}

impl State {
    /// Moves to the state `new`.
    pub fn change_state(&mut self, new: ThreadState)
        ensures
            final(self)@ == new,
    {
        self.current = new;
    }

    /// Moves to the state `new` and returns the state that was left.
    pub fn swap_state(&mut self, new: ThreadState) -> (previous: ThreadState)
        ensures
            previous == old(self)@,
            final(self)@ == new,
    {
        let previous = self.current;
        self.current = new;
        previous
    }

    pub fn current_state(&self) -> (state: ThreadState)
        ensures
            state == self@,
    {
        self.current
    }

    pub fn is_ready(&self) -> (ready: bool)
        ensures
            ready == (self@ == ThreadState::Ready),
    {
        matches!(self.current, ThreadState::Ready)
    }

    pub fn is_inactive(&self) -> (inactive: bool)
        ensures
            inactive == (self@ == ThreadState::Inactive),
    {
        matches!(self.current, ThreadState::Inactive)
    }

    /// The loop is stopping or has stopped.
    pub fn is_stopping(&self) -> (stopping: bool)
        ensures
            stopping == (self@ == ThreadState::Stopping || self@ == ThreadState::Stopped),
    {
        matches!(self.current, ThreadState::Stopping | ThreadState::Stopped)
    }

    pub fn has_stopped(&self) -> (stopped: bool)
        ensures
            stopped == (self@ == ThreadState::Stopped),
    {
        matches!(self.current, ThreadState::Stopped)
    }
}

} // verus!
