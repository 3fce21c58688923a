//! The user button, read as an extra activation source while testing.
use vstd::prelude::*;

verus! {

pub trait Button {
    fn state(&self) -> ButtonState;

    fn is_pressed(&self) -> bool {
        self.state() == ButtonState::Pressed
    }
}

#[derive(Copy, Clone, PartialEq, Eq, Debug, Structural)]
pub enum ButtonState {
    Released,
    Pressed,
}

impl Default for ButtonState {
    fn default() -> (r: Self)
        ensures
            r == ButtonState::Released,
    {
        ButtonState::Released
    }
}

} // verus!
