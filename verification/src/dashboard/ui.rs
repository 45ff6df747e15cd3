//! Whether the dashboard goes on.

use vstd::prelude::*;

verus! {

/// The state of the dashboard's loop.
#[derive(Clone, Copy, Debug, PartialEq, Eq, Structural)]
pub struct State {
    pub should_exit: bool,
}

impl State {
    /// The state of a dashboard that goes on.
    pub fn new() -> (state: State)
        ensures
            !state.should_exit,
    {
        State { should_exit: false }
    }

    /// Asks the loop to end.
    pub fn request_exit(&mut self)
        ensures
            final(self).should_exit,
    {
        self.should_exit = true;
    }

    /// Whether the loop is to end.
    pub fn should_exit(&self) -> (exit: bool)
        ensures
            exit == self.should_exit,
    {
        self.should_exit
    }
}

} // verus!
