use greet_shell::command::{invoke, lookup_command, Command, InvokeError};
use greet_shell::greeting::greet;

fn args(pairs: &[(&str, &str)]) -> Vec<(String, String)> {
    pairs.iter().map(|(k, v)| (k.to_string(), v.to_string())).collect()
}

#[test]
fn greet_world() {
    assert_eq!(greet("World"), "Hello, World! You've been greeted from Rust!");
}

#[test]
fn greet_places_name_verbatim() {
    assert_eq!(
        greet("<b>\"x\"</b> {}"),
        "Hello, <b>\"x\"</b> {}! You've been greeted from Rust!"
    );
}

#[test]
fn greet_empty_name() {
    assert_eq!(greet(""), "Hello, ! You've been greeted from Rust!");
}

#[test]
fn greet_non_ascii_name() {
    assert_eq!(greet("Zoë 世界"), "Hello, Zoë 世界! You've been greeted from Rust!");
}

#[test]
fn lookup_registered_and_unknown() {
    assert_eq!(lookup_command("greet"), Some(Command::Greet));
    assert_eq!(lookup_command("Greet"), None);
    assert_eq!(lookup_command(""), None);
}

#[test]
fn unknown_command_is_not_found() {
    let r = invoke("nonexistent", &args(&[("name", "World")]));
    assert_eq!(r, Err(InvokeError::NotFound));
}

#[test]
fn unknown_command_without_arguments_is_not_found() {
    assert_eq!(invoke("greett", &Vec::new()), Err(InvokeError::NotFound));
}

#[test]
fn invoke_greet() {
    let r = invoke("greet", &args(&[("name", "World")]));
    assert_eq!(r, Ok("Hello, World! You've been greeted from Rust!".to_string()));
}

#[test]
fn invoke_greet_missing_name_is_bad_arguments() {
    let r = invoke("greet", &args(&[("who", "World")]));
    assert_eq!(r, Err(InvokeError::BadArguments));
}

#[test]
fn invoke_greet_takes_first_name_argument() {
    let r = invoke("greet", &args(&[("x", "1"), ("name", "Ada"), ("name", "Bob")]));
    assert_eq!(r, Ok("Hello, Ada! You've been greeted from Rust!".to_string()));
}
