//! The board's simple digital outputs and inputs.

use vstd::prelude::*;

verus! {

/// An indicator light.
pub trait Led {
    fn on(&mut self);

    fn off(&mut self);

    fn toggle(&mut self);
}

/// A push button.
pub trait Button {
    fn is_pressed(&self) -> bool;
}

} // verus!
