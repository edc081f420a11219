//! Widget stubs. Only their names and constructors exist.

use crate::app::State;
use vstd::prelude::*;

verus! {

/// A title widget.
pub struct Title;

/// A button widget.
pub struct Button;

impl Button {
    /// Creates a button. The label is accepted and not kept.
    pub fn new(_text: &str) -> (button: Self)
        ensures
            button == Button,
    {
        Button
    }

    /// Registers a click handler. The handler is accepted and never called.
    pub fn on_click<F>(&self, _f: F) where F: Fn(State) {
    }
}

} // verus!
