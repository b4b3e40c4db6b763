//! The result a window reports after offering one input event to its input
//! callback. Keystrokes typed into a terminal window enter the input path
//! through this answer: only an unhandled event falls through to the
//! platform's default processing.

use vstd::prelude::*;

verus! {

/// What became of one input event: `Handled` records that a keystroke was
/// parsed and dispatched (the payload tells whether the callback consumed
/// it), `Unhandled` that no keystroke could be made of the event at all.
#[derive(Debug, Clone, Copy, PartialEq, Eq, Structural)]
pub enum CallbackResult {
    Handled(bool),
    Unhandled,
}

impl CallbackResult {
    /// The event was dispatched, whether or not the callback consumed it;
    /// only an `Unhandled` event is left to the platform.
    pub fn is_handled(&self) -> (r: bool)
        ensures
            r == (self is Handled),
    {
        match self {
            Self::Handled(true) => true,
            Self::Handled(false) => true,
            _ => false,
        }
    }
}

} // verus!
