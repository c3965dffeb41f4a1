use workbook::exercises::add;
use workbook::exercises::greeting;
use workbook::exercises::private_implementation_detail;
use workbook::exercises::Guess;
use workbook::exercises::Rectangle;

#[test]
fn test_implementation_detail() {
    assert!(private_implementation_detail());
}

#[test]
fn it_works() -> Result<(), String> {
    if 2 + 2 == 4 {
        Ok(())
    } else {
        Err(String::from("two plus two does not equal 4"))
    }
}

#[test]
fn greeting_contains_name() {
    let name = "Felix";
    let result = greeting(name);
    assert!(
        result.contains(name),
        "Greeting did not contain name, value was {}",
        name
    );
}

#[test]
fn greeting_is_exact() {
    assert_eq!(greeting("Bob"), "Hello Bob!");
    assert_eq!(greeting(""), "Hello !");
}

#[test]
fn larger_can_hold_smaller() {
    let larger = Rectangle {
        length: 8,
        width: 7,
    };
    let smaller = Rectangle {
        length: 5,
        width: 1,
    };

    assert!(larger.can_hold(&smaller));
}

#[test]
fn equal_sides_cannot_hold() {
    let a = Rectangle { length: 5, width: 5 };
    let b = Rectangle { length: 5, width: 4 };
    assert!(!a.can_hold(&b));
}

#[test]
fn exploration() {
    let result = add(2, 2);
    assert_eq!(result, 4);
}

#[test]
fn it_adds_stuff() {
    assert_eq!(4, workbook::exercises::add(2, 2));
}

#[test]
fn boundary_guesses_are_accepted() {
    let _low = Guess::new(1);
    let _high = Guess::new(100);
}
