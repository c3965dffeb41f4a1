//! Validated input as a type: a guess that can only be built inside
//! its allowed range, so every guess in circulation is playable.

use vstd::prelude::*;

verus! {

/// A number guessed by a player, known to lie between 1 and 100.
pub struct Guess {
    val: i32,
}

impl Guess {
    /// Every guess ever constructed lies in the playable range.
    #[verifier::type_invariant]
    closed spec fn wf(self) -> bool {
        1 <= self.val <= 100
    }

    /// The value behind the guess.
    pub closed spec fn spec_val(self) -> i32 {
        self.val
    }

    /// Wraps a value as a guess; the contract admits only values from
    /// 1 to 100, so an out-of-range guess can never exist.
    pub fn new(val: i32) -> (g: Guess)
        requires
            1 <= val <= 100,
        ensures
            g.spec_val() == val,
    {
        Guess { val }
    }

    /// Reads the value back out; it is always in range.
    pub fn value(&self) -> (v: i32)
        ensures
            v == self.spec_val(),
            1 <= v <= 100,
    {
        proof {
            use_type_invariant(self);
        }
        self.val
    }
}

} // verus!
