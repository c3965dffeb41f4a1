//! A memoizing wrapper around a callable: the first request runs the
//! callable, every later request answers from the cache.

use vstd::prelude::*;

verus! {

/// Caches the first result a callable produced.
pub struct Cacher<T: Fn(u32, u32) -> u32> {
    callable: T,
    value: Option<u32>,
}

impl<T: Fn(u32, u32) -> u32> Cacher<T> {
    /// The callable being memoized.
    pub closed spec fn spec_callable(self) -> T {
        self.callable
    }

    /// The cached result, if one has been computed.
    pub closed spec fn spec_value(self) -> Option<u32> {
        self.value
    }

    /// Wraps a callable with an empty cache.
    pub fn new(callable: T) -> (c: Cacher<T>)
        ensures
            c.spec_callable() == callable,
            c.spec_value() is None,
    {
        Cacher { callable, value: None }
    }

    /// The memoized result: on the first request the callable runs on
    /// the given arguments and its answer is cached; afterwards the
    /// cached answer is returned, whatever the arguments.
    pub fn value(&mut self, x: u32, y: u32) -> (r: u32)
        requires
            old(self).spec_value() is None ==> call_requires(old(self).spec_callable(), (x, y)),
        ensures
            final(self).spec_callable() == old(self).spec_callable(),
            final(self).spec_value() == Some(r),
            old(self).spec_value() matches Some(v) ==> r == v,
            old(self).spec_value() is None ==> call_ensures(old(self).spec_callable(), (x, y), r),
    {
        match self.value {
            Some(val) => val,
            None => {
                let val = (self.callable)(x, y);
                self.value = Some(val);
                val
            },
        }
    }
}

} // verus!
