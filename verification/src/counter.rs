//! A hand-rolled iterator interface and a counter that yields the
//! numbers one to five.

use vstd::prelude::*;

verus! {

/// The shape of the standard iterator interface, spelled out by hand.
pub trait StdIterator {
    type Item;

    fn next(&mut self) -> Option<Self::Item>;
}

/// The same interface under the name used by the associated-type
/// exercises.
pub trait Iter {
    type Item;

    fn next(&mut self) -> Option<Self::Item>;
}

/// A counter that yields 1, 2, 3, 4, 5 and then stops.
pub struct CounterToFive {
    count: u32,
}

impl CounterToFive {
    /// How many values have been yielded so far.
    pub closed spec fn spec_count(self) -> u32 {
        self.count
    }

    /// A fresh counter that has yielded nothing yet.
    pub fn new() -> (c: CounterToFive)
        ensures
            c.spec_count() == 0,
    {
        CounterToFive { count: 0 }
    }

}

impl StdIterator for CounterToFive {
    type Item = u32;

    /// The next value: counts 1 to 5, then reports exhaustion.
    fn next(&mut self) -> (r: Option<u32>)
        ensures
            old(self).spec_count() < 5 ==> (final(self).spec_count() == old(self).spec_count() + 1
                && r == Some(final(self).spec_count())),
            old(self).spec_count() >= 5 ==> (final(self).spec_count() == old(self).spec_count()
                && r is None),
    {
        if self.count < 5 {
            self.count += 1;
            Some(self.count)
        } else {
            None
        }
    }
}

} // verus!
