//! Pattern matching over an enum with payload: coins and their value.

use vstd::prelude::*;

verus! {

/// A state featured on a quarter's reverse.
#[derive(Debug)]
pub enum UsState {
    Alabama,
    Alaska,
}

/// A coin, where a quarter also carries the state it shows.
pub enum Coin {
    Penny,
    Nickel,
    Dime,
    Quarter(UsState),
}

/// The worth of a coin in cents.
pub open spec fn spec_value_in_cents(coin: Coin) -> u32 {
    match coin {
        Coin::Penny => 1,
        Coin::Nickel => 5,
        Coin::Dime => 10,
        Coin::Quarter(_) => 25,
    }
}

/// Counts a coin out in cents.
pub fn value_in_cents(coin: Coin) -> (cents: u32)
    ensures
        cents == spec_value_in_cents(coin),
{
    match coin {
        Coin::Penny => 1,
        Coin::Nickel => 5,
        Coin::Dime => 10,
        Coin::Quarter(_state) => 25,
    }
}

} // verus!
