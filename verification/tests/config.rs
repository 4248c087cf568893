use cargo_code_search::model::{load_config, is_valid_header_value, ApiError};

#[test]
fn missing_credential_is_fatal_before_anything_else() {
    let r = load_config(None, Some(String::from("someone")));
    assert!(matches!(r, Err(ApiError::MissingCredential)));
    let r = load_config(None, None);
    assert!(matches!(r, Err(ApiError::MissingCredential)));
}

#[test]
fn missing_username_is_fatal() {
    let r = load_config(Some(String::from("token abc")), None);
    assert!(matches!(r, Err(ApiError::MissingUsername)));
}

#[test]
fn credential_that_no_header_takes_is_fatal() {
    let r = load_config(Some(String::from("bad\nvalue")), Some(String::from("someone")));
    assert!(matches!(r, Err(ApiError::InvalidCredential)));
}

#[test]
fn username_that_no_header_takes_is_fatal() {
    let r = load_config(Some(String::from("token abc")), Some(String::from("some\u{0}one")));
    assert!(matches!(r, Err(ApiError::InvalidUsername)));
}

#[test]
fn present_and_clean_values_are_kept_as_given() {
    let c = load_config(Some(String::from("token abc")), Some(String::from("someone"))).unwrap();
    assert_eq!(c.api_key, "token abc");
    assert_eq!(c.username, "someone");
}

#[test]
fn header_value_check_follows_the_header_rules() {
    assert!(is_valid_header_value("token abc"));
    assert!(is_valid_header_value("tab\tis fine"));
    assert!(is_valid_header_value(""));
    assert!(!is_valid_header_value("line\nbreak"));
    assert!(!is_valid_header_value("carriage\rreturn"));
    assert!(!is_valid_header_value("del\u{7f}char"));
}
