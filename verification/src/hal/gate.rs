//! A gate's sensor: a beam that reports whether a racer is passing through.
use vstd::prelude::*;

verus! {

pub trait Gate {
    fn state(&self) -> GateState;

    fn is_active(&self) -> bool {
        self.state() == GateState::Active
    }
}

#[derive(Copy, Clone, PartialEq, Eq, Debug, Structural)]
pub enum GateState {
    Inactive,
    Active,
}

impl Default for GateState {
    fn default() -> (r: Self)
        ensures
            r == GateState::Inactive,
    {
        GateState::Inactive
    }
}

} // verus!
