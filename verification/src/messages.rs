//! An enum whose variants carry different payloads.

use vstd::prelude::*;

verus! {

/// A message, from nothing at all up to a full colour change.
pub enum Message {
    Quit,
    Move { x: i32, y: i32 },
    Write(String),
    ChangeColor(i32, i32, i32),
}

impl Message {
    /// Delivers the message; delivery has no observable effect here.
    pub fn call(&self) {
    }
}

} // verus!
