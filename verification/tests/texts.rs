use workbook::text::append;
use workbook::text::compute_length;
use workbook::text::first_word;
use workbook::text::gives_ownership;
use workbook::text::longest;
use workbook::text::noop;
use workbook::text::takes_and_gives_back;
use workbook::text::ReferenceHolder;

#[test]
fn first_word_stops_at_space() {
    let s = String::from("Hello world!");
    assert_eq!(first_word(&s), "Hello");
}

#[test]
fn first_word_of_single_word() {
    let s = String::from("Hello");
    assert_eq!(first_word(&s), "Hello");
}

#[test]
fn first_word_of_empty_string() {
    let s = String::new();
    assert_eq!(first_word(&s), "");
}

#[test]
fn longest_picks_the_longer_slice() {
    assert_eq!(longest("abc", "defgh"), "defgh");
    assert_eq!(longest("abcdef", "gh"), "abcdef");
    assert_eq!(longest("tie", "tie"), "tie");
}

#[test]
fn append_adds_the_suffix() {
    let mut s = String::from("text");
    append(&mut s);
    assert_eq!(s, "text appended");
}

#[test]
fn compute_length_counts_bytes() {
    assert_eq!(compute_length(&String::from("hello")), 5);
    assert_eq!(compute_length(&String::new()), 0);
}

#[test]
fn ownership_round_trip() {
    let s = gives_ownership();
    assert_eq!(s, "hello");
    let back = takes_and_gives_back(s);
    assert_eq!(back, "hello");
}

#[test]
fn noop_returns_its_argument() {
    assert_eq!(noop("same"), "same");
}

#[test]
fn reference_holder_probe() {
    let novel = String::from("A first sentence. A second sentence.");
    let holder = ReferenceHolder {
        reference: &novel,
    };
    assert_eq!(holder.rule_one(), 5);
    assert_eq!(holder.reference, novel);
}
