//! Tiny numeric functions with exact contracts, including one that
//! takes another function as a value.

use vstd::prelude::*;

verus! {

/// Always five.
pub fn five() -> (r: i32)
    ensures
        r == 5,
{
    5
}

/// Five when the flag is set, six otherwise.
pub fn five_or_six(b: bool) -> (r: i32)
    ensures
        r == if b {
            5int
        } else {
            6int
        },
{
    if b {
        return 5;
    }
    6
}

/// The successor of `x`.
pub fn add_one(x: i32) -> (r: i32)
    requires
        x < i32::MAX,
    ensures
        r == x + 1,
{
    x + 1
}

/// Applies `f` to `arg` twice and adds the two results.
pub fn do_twice(f: impl Fn(i32) -> i32, arg: i32) -> (res: i32)
    requires
        call_requires(f, (arg,)),
        forall|r1: i32, r2: i32|
            #[trigger] call_ensures(f, (arg,), r1) && #[trigger] call_ensures(f, (arg,), r2)
                ==> i32::MIN <= r1 + r2 <= i32::MAX,
    ensures
        exists|r1: i32, r2: i32|
            #[trigger] call_ensures(f, (arg,), r1) && #[trigger] call_ensures(f, (arg,), r2) && res
                == r1 + r2,
{
    f(arg) + f(arg)
}

/// The value one greater, when there is a value at all.
pub fn increment(value: Option<i32>) -> (r: Option<i32>)
    requires
        value matches Some(i) ==> i < i32::MAX,
    ensures
        match value {
            None => r is None,
            Some(i) => r matches Some(j) && j == i + 1,
        },
{
    match value {
        None => None,
        Some(i) => Some(i + 1),
    }
}

/// The greatest element of a non-empty slice.
pub fn largest(list: &[i32]) -> (r: i32)
    requires
        list@.len() > 0,
    ensures
        list@.contains(r),
        forall|k: int| 0 <= k < list@.len() ==> list@[k] <= r,
{
    let mut largest = list[0];
    let n = list.len();
    let mut i: usize = 1;
    proof {
        assert(list@.contains(list@[0]));
    }
    while i < n
        invariant
            n == list@.len(),
            1 <= i <= n,
            list@.contains(largest),
            forall|k: int| 0 <= k < i ==> list@[k] <= largest,
        decreases n - i,
    {
        let element = list[i];
        if element > largest {
            largest = element;
            proof {
                assert(list@.contains(list@[i as int]));
            }
        }
        i += 1;
    }
    largest
}

/// A reference to a greatest element of a non-empty slice.
pub fn largest_ref(list: &[i32]) -> (r: &i32)
    requires
        list@.len() > 0,
    ensures
        list@.contains(*r),
        forall|k: int| 0 <= k < list@.len() ==> list@[k] <= *r,
{
    let mut at: usize = 0;
    let n = list.len();
    let mut i: usize = 1;
    while i < n
        invariant
            n == list@.len(),
            1 <= i <= n,
            at < i,
            forall|k: int| 0 <= k < i ==> list@[k] <= list@[at as int],
        decreases n - i,
    {
        if list[i] > list[at] {
            at = i;
        }
        i += 1;
    }
    proof {
        assert(list@.contains(list@[at as int]));
    }
    &list[at]
}

} // verus!
