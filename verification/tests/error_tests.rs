use win_open::{Error, ErrorKind};

#[test]
fn new_keeps_kind_and_message() {
    let e = Error::new(ErrorKind::IO, "disk gone");
    assert_eq!(*e.kind(), ErrorKind::IO);
    assert_eq!(e.message(), "disk gone");
}

#[test]
fn new_with_empty_message_has_empty_message() {
    let e = Error::new(ErrorKind::NO_LAUNCHER, "");
    assert_eq!(*e.kind(), ErrorKind::NO_LAUNCHER);
    assert_eq!(e.message(), "");
}

#[test]
fn kind_texts() {
    assert_eq!(ErrorKind::SHELL_NOT_FOUND.to_string(), "Unrecognized shell type");
    assert_eq!(ErrorKind::COMMAND_FAILED.to_string(), "Command failed");
    assert_eq!(ErrorKind::NO_LAUNCHER.to_string(), "No launcher worked");
    assert_eq!(ErrorKind::IO.to_string(), "IO Error");
}

#[test]
fn display_without_message_is_kind_text() {
    let e = Error::new(ErrorKind::NO_LAUNCHER, "");
    assert_eq!(e.to_string(), "No launcher worked");
}

#[test]
fn display_with_message_puts_it_in_parentheses() {
    let e = Error::new(ErrorKind::SHELL_NOT_FOUND, "bash");
    assert_eq!(e.to_string(), "Unrecognized shell type (bash)");
}

#[test]
fn errors_compare_by_kind_only() {
    assert!(Error::new(ErrorKind::IO, "a") == Error::new(ErrorKind::IO, "b"));
    assert!(Error::new(ErrorKind::IO, "a") != Error::new(ErrorKind::COMMAND_FAILED, "a"));
}

#[test]
fn debug_shows_kind_and_message() {
    let e = Error::new(ErrorKind::IO, "x");
    assert_eq!(format!("{:?}", e), "Error { kind: IO, message: \"x\" }");
}
