//! The restaurant module-layout exercise: a front of house that seats
//! and serves, a back of house that cooks, and a menu type whose
//! construction is controlled.

use vstd::prelude::*;
use vstd::string::*;

verus! {

/// Puts a party on the waitlist.
pub fn add_to_waitlist() {
}

/// Seats the next party from the waitlist.
pub fn seat_at_table() {
}

/// Takes a seated party's order.
pub fn take_order() {
}

/// Brings a finished order to the table.
pub fn serve_order() {
}

/// Takes an order and serves it once it is ready.
pub fn take_and_serve_order() {
    take_order();
    serve_order();
}

/// Cooks an order.
pub fn cook_order() {
}

/// Re-fires a wrong order and serves the replacement.
pub fn fix_incorrect_order() {
    cook_order();
    serve_order();
}

/// A breakfast order: the customer picks the toast, the kitchen picks
/// the fruit.
pub struct Breakfast {
    pub toast: String,
    seasonal_fruit: String,
}

impl Breakfast {
    /// The toast the customer picked.
    pub closed spec fn spec_toast(self) -> Seq<char> {
        self.toast@
    }

    /// The fruit the kitchen chose.
    pub closed spec fn spec_fruit(self) -> Seq<char> {
        self.seasonal_fruit@
    }

    /// The summer menu: any toast, always with peaches. The only way
    /// to order a breakfast, since the fruit is not for customers to
    /// choose.
    pub fn summer(toast: String) -> (b: Breakfast)
        ensures
            b.spec_toast() == toast@,
            b.spec_fruit() == "Peaches"@,
    {
        Breakfast { toast, seasonal_fruit: String::from_str("Peaches") }
    }
}

/// A starter course.
pub enum Appetizer {
    Soup,
    Salad,
}

/// Orders a summer breakfast with wheat toast and a starter.
pub fn prepare_meal() {
    let _breakfast = Breakfast::summer(String::from_str("Wheat"));
    let _appetizer = Appetizer::Soup;
}

/// Two customers walk in: both go on the waitlist, once reached by
/// its full path and once by its short one.
pub fn eat_at_restaurant() {
    crate::restaurant::add_to_waitlist();
    add_to_waitlist();
}

/// Two parties join the waitlist at once.
pub fn add_two_to_waitlist() {
    add_to_waitlist();
    add_to_waitlist();
}

} // verus!
