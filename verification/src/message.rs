//! A message type with variants of several shapes.
use vstd::prelude::*;

verus! {

/// A message: a bare tag, a move with named fields, or a color change
/// with three components.
#[derive(Debug)]
pub enum Message {
    Quit,
    Move { x: i32, y: i32 },
    ChangeColor(i32, i32, i32),
}

impl Message {
    /// Handles the message. A placeholder with no observable effect.
    pub fn call(&self) {
    }

    /// Handles the message once more. A placeholder like `call`.
    pub fn call_again(&self) {
    }
}

} // verus!
