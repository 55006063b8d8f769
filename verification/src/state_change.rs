//! The flag that keeps two changes of the node's state from running at
//! the same time.

use vstd::prelude::*;

verus! {

/// Whether a change of the node's state is under way.
#[derive(Clone, Copy, Debug)]
pub struct StateChange {
    changing: bool,
}

impl StateChange {
    /// Whether a change is under way.
    pub closed spec fn changing(&self) -> bool {
        self.changing
    }

    /// No change is under way.
    pub fn new() -> (res: StateChange)
        ensures
            !res.changing(),
    {
        StateChange { changing: false }
    }

    /// Claims the right to change the state: succeeds, and marks a
    /// change as under way, exactly where none was.
    pub fn wait_state_change(&mut self) -> (res: bool)
        ensures
            res == !old(self).changing(),
            final(self).changing(),
    {
        if !self.changing {
            self.changing = true;
            return true;
        }
        false
    }

    /// Marks the change as done.
    pub fn reset_changing_state(&mut self)
        ensures
            !final(self).changing(),
    {
        self.changing = false;
    }
}

} // verus!
