use beryllium::{ErrorKind, NativeFailure, TOO_MANY_POINTS};

#[test]
fn the_validation_text_is_fixed() {
    assert_eq!(TOO_MANY_POINTS, "beryllium error: len cannot exceed `i32::MAX`.");
}

#[test]
fn a_validation_error_gives_its_text() {
    let error = ErrorKind::Validation(TOO_MANY_POINTS);
    assert_eq!(error.message(), "beryllium error: len cannot exceed `i32::MAX`.");
}

#[test]
fn a_native_error_gives_the_native_text() {
    let error = ErrorKind::Native(String::from("Invalid renderer"));
    assert_eq!(error.message(), "Invalid renderer");
}

#[test]
fn a_native_failure_takes_the_text_unchanged() {
    let error = NativeFailure.with_message(String::from("Parameter 'texture' is invalid"));
    assert_eq!(error, ErrorKind::Native(String::from("Parameter 'texture' is invalid")));
}

#[test]
fn a_native_failure_takes_an_empty_text() {
    let error = NativeFailure.with_message(String::new());
    assert_eq!(error, ErrorKind::Native(String::new()));
    assert_eq!(error.message(), "");
}

#[test]
fn the_two_kinds_differ_even_with_one_text() {
    let local = ErrorKind::Validation("x");
    let native = ErrorKind::Native(String::from("x"));
    assert_ne!(local, native);
    assert_eq!(local.message(), native.message());
}
