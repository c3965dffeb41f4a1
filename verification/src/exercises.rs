//! Small exercises in stating and meeting contracts: an addition, a
//! greeting, a guarded guess, and a strict rectangle fit.

use vstd::prelude::*;
use vstd::string::*;

verus! {

/// The sum of the two operands.
pub fn add(left: usize, right: usize) -> (r: usize)
    requires
        left + right <= usize::MAX,
    ensures
        r == left + right,
{
    left + right
}

/// A greeting that wraps the given name.
pub fn greeting(name: &str) -> (r: String)
    ensures
        r@ == "Hello "@ + name@ + "!"@,
{
    let mut r = String::from_str("Hello ");
    r.append(name);
    r.append("!");
    r
}

/// A stand-in for a detail hidden behind the public interface; it
/// simply reports that it ran.
pub fn private_implementation_detail() -> (r: bool)
    ensures
        r,
{
    true
}

/// A guess bounded to the playable range.
pub struct Guess {
    val: u32,
}

impl Guess {
    /// The guessed value.
    pub closed spec fn spec_val(self) -> u32 {
        self.val
    }

    /// Wraps a value as a guess; only values from 1 to 100 are
    /// playable.
    pub fn new(val: u32) -> (g: Guess)
        requires
            1 <= val <= 100,
        ensures
            g.spec_val() == val,
    {
        Guess { val }
    }
}

/// A rectangle measured by its side lengths.
pub struct Rectangle {
    pub length: u32,
    pub width: u32,
}

impl Rectangle {
    /// Whether `other` fits strictly inside `self`, with room to
    /// spare on both sides.
    pub fn can_hold(&self, other: &Rectangle) -> (r: bool)
        ensures
            r == (self.length > other.length && self.width > other.width),
    {
        self.length > other.length && self.width > other.width
    }
}

} // verus!
