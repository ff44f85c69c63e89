use vstd::prelude::*;

use core::convert::Infallible;

use crate::digital::{InputPin, OutputPin, StatefulOutputPin};
use crate::switch::State;

verus! {

/// A pin that only remembers the level it was last driven to.
pub struct Pin {
    state: State,
}

impl Pin {
    /// The remembered level, as a state (`Enabled` is high).
    pub closed spec fn spec_state(&self) -> State {
        self.state
    }

    /// A pin that is low.
    pub fn new() -> (r: Self)
        ensures
            r.spec_state() == State::Disabled,
    {
        Pin { state: State::Disabled }
    }

    /// A pin at the level that `state` stands for.
    pub fn with_state(state: State) -> (r: Self)
        ensures
            r.spec_state() == state,
    {
        Pin { state }
    }
}

impl InputPin for Pin {
    type Error = Infallible;

    open spec fn is_high_answer(&self, r: Result<bool, Infallible>) -> bool {
        r == Ok::<bool, Infallible>(self.spec_state() == State::Enabled)
    }

    open spec fn is_low_answer(&self, r: Result<bool, Infallible>) -> bool {
        r == Ok::<bool, Infallible>(self.spec_state() == State::Disabled)
    }

    fn is_high(&self) -> (r: Result<bool, Infallible>) {
        Ok(self.state == State::Enabled)
    }

    fn is_low(&self) -> (r: Result<bool, Infallible>) {
        Ok(self.state == State::Disabled)
    }
}

impl OutputPin for Pin {
    type Error = Infallible;

    open spec fn set_low_outcome(&self, after: Pin, r: Result<(), Infallible>) -> bool {
        after.spec_state() == State::Disabled && r is Ok
    }

    open spec fn set_high_outcome(&self, after: Pin, r: Result<(), Infallible>) -> bool {
        after.spec_state() == State::Enabled && r is Ok
    }

    fn set_low(&mut self) -> (r: Result<(), Infallible>) {
        self.state = State::Disabled;
        Ok(())
    }

    fn set_high(&mut self) -> (r: Result<(), Infallible>) {
        self.state = State::Enabled;
        Ok(())
    }
}

impl StatefulOutputPin for Pin {
    open spec fn is_set_high_answer(&self, r: Result<bool, Infallible>) -> bool {
        r == Ok::<bool, Infallible>(self.spec_state() == State::Enabled)
    }

    open spec fn is_set_low_answer(&self, r: Result<bool, Infallible>) -> bool {
        r == Ok::<bool, Infallible>(self.spec_state() == State::Disabled)
    }

    fn is_set_high(&self) -> (r: Result<bool, Infallible>) {
        self.is_high()
    }

    fn is_set_low(&self) -> (r: Result<bool, Infallible>) {
        self.is_low()
    }
}

impl Default for Pin {
    fn default() -> (r: Self)
        ensures
            r.spec_state() == State::Disabled,
    {
        Pin::new()
    }
}

} // verus!
