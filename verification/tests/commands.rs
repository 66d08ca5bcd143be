use resource_monitor::commands::greet;

#[test]
fn greet_names_the_guest() {
    assert_eq!(greet("World"), "Hello, World! You've been greeted from Rust!");
}

#[test]
fn greet_with_empty_name() {
    assert_eq!(greet(""), "Hello, ! You've been greeted from Rust!");
}

#[test]
fn greet_keeps_the_name_as_given() {
    assert_eq!(greet("山田 太郎"), "Hello, 山田 太郎! You've been greeted from Rust!");
}
