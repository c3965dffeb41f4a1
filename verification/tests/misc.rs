use workbook::articles::NewsArticle;
use workbook::articles::Summary;
use workbook::cache::Cacher;
use workbook::coins::value_in_cents;
use workbook::coins::Coin;
use workbook::coins::UsState;
use workbook::counter::CounterToFive;
use workbook::counter::StdIterator;
use workbook::generics::MyBox;
use workbook::generics::Pair;
use workbook::generics::Point;
use workbook::geometry::Rectangle;
use workbook::guessing::Guess;
use workbook::messages::Message;
use workbook::numbers::add_one;
use workbook::numbers::do_twice;
use workbook::numbers::five;
use workbook::numbers::five_or_six;
use workbook::numbers::increment;
use workbook::numbers::largest;
use workbook::numbers::largest_ref;
use workbook::records::build_user;
use workbook::restaurant::add_two_to_waitlist;
use workbook::restaurant::eat_at_restaurant;
use workbook::restaurant::prepare_meal;
use workbook::restaurant::Breakfast;

#[test]
fn coin_values() {
    assert_eq!(value_in_cents(Coin::Penny), 1);
    assert_eq!(value_in_cents(Coin::Nickel), 5);
    assert_eq!(value_in_cents(Coin::Dime), 10);
    assert_eq!(value_in_cents(Coin::Quarter(UsState::Alaska)), 25);
    assert_eq!(value_in_cents(Coin::Quarter(UsState::Alabama)), 25);
}

#[test]
fn increment_steps_or_stays_empty() {
    assert_eq!(increment(Some(5)), Some(6));
    assert_eq!(increment(None), None);
}

#[test]
fn small_number_functions() {
    assert_eq!(five(), 5);
    assert_eq!(five_or_six(true), 5);
    assert_eq!(five_or_six(false), 6);
    assert_eq!(add_one(41), 42);
}

#[test]
fn do_twice_doubles_the_effect() {
    assert_eq!(do_twice(|x| x + 1, 5), 12);
}

#[test]
fn largest_of_slice() {
    let list = [34, 50, 25, 100, 65];
    assert_eq!(largest(&list), 100);
    assert_eq!(*largest_ref(&list), 100);
    let single = [7];
    assert_eq!(largest(&single), 7);
    assert_eq!(*largest_ref(&single), 7);
}

#[test]
fn rectangle_geometry() {
    let r = Rectangle { width: 100, height: 25 };
    assert_eq!(r.area(), 2500);
    let square = Rectangle::square(5);
    assert_eq!(square.area(), 25);
    assert!(r.can_hold(&Rectangle { width: 100, height: 25 }));
    assert!(!r.can_hold(&Rectangle { width: 101, height: 1 }));
}

#[test]
fn build_user_defaults_the_id() {
    let user = build_user(String::from("Default"), String::from("Nowhere"));
    assert_eq!(user.name, "Default");
    assert_eq!(user.location, "Nowhere");
    assert_eq!(user.id, 0);
}

#[test]
fn guess_round_trip() {
    let guess = Guess::new(42);
    assert_eq!(guess.value(), 42);
}

#[test]
fn counter_counts_to_five() {
    let mut counter = CounterToFive::new();
    for expected in 1..=5u32 {
        assert_eq!(counter.next(), Some(expected));
    }
    assert_eq!(counter.next(), None);
    assert_eq!(counter.next(), None);
}

#[test]
fn cacher_answers_from_the_cache() {
    let mut cacher = Cacher::new(|x, y| x + y);
    assert_eq!(cacher.value(1, 2), 3);
    assert_eq!(cacher.value(10, 20), 3);
}

#[test]
fn article_summary() {
    let article = NewsArticle {
        headline: String::from("Aliens"),
        author: String::from("Pickle Rick"),
        content: String::from("Lorem ipsum"),
    };
    assert_eq!(article.summarize(), "Aliens by Pickle Rick");
    assert_eq!(article.shoutout(), "Pickle Rick");
    assert_eq!(article.advertise(), "Read more from Pickle Rick");
    assert_eq!(article.content, "Lorem ipsum");
}

#[test]
fn generic_accessors() {
    let p = Point { x: 5, y: 10 };
    assert_eq!(*p.x_ref(), 5);
    assert_eq!(p.x_copy(), 5);
    let q = Point { x: true, y: false };
    assert!(*q.x());
    let pair = Pair { first: 1, second: "one" };
    let other = Pair { first: 'a', second: 2.5f64 };
    let mixed = pair.mix(&other);
    assert_eq!(mixed.first, 1);
    assert_eq!(mixed.second, 2.5f64);
    let boxed = MyBox::new(5);
    assert_eq!(boxed.0, 5);
}

#[test]
fn restaurant_runs() {
    eat_at_restaurant();
    add_two_to_waitlist();
    prepare_meal();
    let breakfast = Breakfast::summer(String::from("Rye"));
    assert_eq!(breakfast.toast, "Rye");
}

#[test]
fn message_delivery_is_quiet() {
    let msg = Message::Write(String::from("Payload"));
    msg.call();
    Message::Quit.call();
    Message::Move { x: 1, y: 2 }.call();
    Message::ChangeColor(0, 0, 0).call();
}
