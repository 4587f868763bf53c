use hello_rust::unit_tests::{greeting, guess_number, guess_text};

#[test]
fn exploration() {
    assert_eq!(2 + 2, 4);
}

#[test]
fn greeting_contains_name() {
    let result = greeting("Michael");
    assert!(result.contains("Michael"));
}

#[test]
fn greeting_contains_hello() {
    let result = greeting("Hello");
    assert!(
        result.contains("Hello"),
        "Does not contain 'Hello', value was '{result}'"
    );
}

#[test]
fn guess_right() {
    let result = guess_number(5);
    assert!(result);
}

#[test]
fn it_works() -> Result<(), String> {
    if 2 + 2 == 4 {
        Ok(())
    } else {
        Err(String::from("Two plus two does not equal four"))
    }
}

#[test]
fn guess_wrong() {
    let result = guess_text("Wrong");
    assert!(result.is_ok());
    assert_eq!(result.unwrap(), false);
}

#[test]
fn greeting_is_exact() {
    assert_eq!(greeting("Michael"), "Hello Michael!");
    assert_eq!(greeting(""), "Hello !");
}

#[test]
fn guess_number_other_values() {
    assert!(!guess_number(1));
    assert!(!guess_number(6));
}

#[test]
fn guess_text_empty_is_error() {
    assert_eq!(guess_text(""), Err(String::from("Value is empty")));
}

#[test]
fn guess_text_right() {
    assert_eq!(guess_text("Guess!"), Ok(true));
    assert_eq!(guess_text("guess!"), Ok(false));
}
