use greeter::command::{greet, is_greet_command};

#[test]
fn greets_world() {
    assert_eq!(greet("World"), "Hello, World! You've been greeted from Rust!");
}

#[test]
fn greets_empty_name() {
    assert_eq!(greet(""), "Hello, ! You've been greeted from Rust!");
}

#[test]
fn greets_non_ascii_name() {
    assert_eq!(greet("José"), "Hello, José! You've been greeted from Rust!");
}

#[test]
fn braces_are_not_substituted() {
    assert_eq!(greet("{name}"), "Hello, {name}! You've been greeted from Rust!");
    assert_eq!(greet("{}"), "Hello, {}! You've been greeted from Rust!");
}

#[test]
fn repeated_calls_agree() {
    let a = greet("Ada");
    let b = greet("Ada");
    assert_eq!(a, b);
    assert_eq!(a, "Hello, Ada! You've been greeted from Rust!");
}

#[test]
fn greet_command_name() {
    assert!(is_greet_command("greet"));
    assert!(!is_greet_command("Greet"));
    assert!(!is_greet_command("gree"));
    assert!(!is_greet_command("greet "));
    assert!(!is_greet_command(""));
}
