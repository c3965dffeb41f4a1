//! Generic containers with verified accessors.

use vstd::prelude::*;

verus! {

/// A point whose coordinates share one type.
pub struct Point<T> {
    pub x: T,
    pub y: T,
}

impl<T> Point<T> {
    /// A reference to the first coordinate.
    pub fn x_ref(&self) -> (r: &T)
        ensures
            *r == self.x,
    {
        &self.x
    }
}

impl<T: Copy> Point<T> {
    /// The first coordinate by value.
    pub fn x_copy(&self) -> (r: T)
        ensures
            r == self.x,
    {
        self.x
    }
}

impl Point<bool> {
    /// The first coordinate of a boolean point.
    pub fn x(&self) -> (r: &bool)
        ensures
            *r == self.x,
    {
        &self.x
    }
}

/// A pair whose halves may differ in type.
pub struct Pair<T, U> {
    pub first: T,
    pub second: U,
}

impl<T: Clone, U> Pair<T, U> {
    /// A pair made of this pair's first half and another pair's
    /// second half, both cloned.
    pub fn mix<V, W: Clone>(&self, other: &Pair<V, W>) -> Pair<T, W> {
        Pair { first: self.first.clone(), second: other.second.clone() }
    }
}

/// A one-field wrapper in the shape of an owning smart pointer.
pub struct MyBox<T>(pub T);

impl<T> MyBox<T> {
    /// Wraps a value.
    pub fn new(x: T) -> (r: MyBox<T>)
        ensures
            r.0 == x,
    {
        MyBox(x)
    }
}

} // verus!
