use lostpixel_backend::greeting::greet;

#[test]
fn greet_puts_the_name_between_opening_and_closing() {
    assert_eq!(greet("World"), "Hello, World! You've been greeted from Rust!");
}

#[test]
fn greet_with_an_empty_name() {
    assert_eq!(greet(""), "Hello, ! You've been greeted from Rust!");
}

#[test]
fn greet_keeps_the_name_as_it_is() {
    assert_eq!(
        greet("  Zoë {}\n"),
        "Hello,   Zoë {}\n! You've been greeted from Rust!"
    );
}
