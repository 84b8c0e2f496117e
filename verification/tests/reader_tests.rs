use serde_json::Value;

use zed_settings::error::SettingsError;
use zed_settings::parse::parse_settings;
use zed_settings::reader::finish_read;

#[test]
fn unreadable_file_is_a_read_error() {
    let cause = "No such file or directory (os error 2)".to_string();
    assert_eq!(finish_read(Err(cause.clone())), Err(SettingsError::FileReadError(cause)));
    assert_eq!(
        finish_read(Err(String::new())),
        Err(SettingsError::FileReadError(String::new()))
    );
}

#[test]
fn read_error_is_not_parsed() {
    assert_eq!(
        finish_read(Err("{ foo: 1, }".to_string())),
        Err(SettingsError::FileReadError("{ foo: 1, }".to_string()))
    );
}

#[test]
fn loaded_text_is_parsed() {
    let expected: Value = serde_json::from_str("{\"foo\": 1}").unwrap();
    assert_eq!(finish_read(Ok("{ foo: 1, }".to_string())), Ok(expected));
}

#[test]
fn invalid_text_is_a_parse_error() {
    let outcome = finish_read(Ok("{ foo: { bar: 1 }".to_string()));
    assert!(matches!(outcome, Err(SettingsError::ParseError(_))));
    assert_eq!(outcome, parse_settings("{ foo: { bar: 1 }"));
}

#[test]
fn empty_file_is_a_parse_error() {
    assert!(matches!(finish_read(Ok(String::new())), Err(SettingsError::ParseError(_))));
}
