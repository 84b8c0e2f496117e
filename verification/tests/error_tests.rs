use zed_settings::error::SettingsError;

#[test]
fn missing_home_has_a_fixed_message() {
    assert_eq!(
        SettingsError::HomeDirectoryUnavailable.message(),
        "N\u{e3}o foi poss\u{ed}vel encontrar a pasta Home"
    );
}

#[test]
fn io_failures_show_their_cause() {
    let cause = "No such file or directory (os error 2)".to_string();
    assert_eq!(SettingsError::FileReadError(cause.clone()).message(), cause);
    assert_eq!(SettingsError::DirectoryCreateError(cause.clone()).message(), cause);
    assert_eq!(SettingsError::FileWriteError(cause.clone()).message(), cause);
    assert_eq!(SettingsError::FileReadError(String::new()).message(), "");
}

#[test]
fn parse_failures_are_introduced() {
    assert_eq!(
        SettingsError::ParseError("expected comma at line 1 column 9".to_string()).message(),
        "Erro ao processar configura\u{e7}\u{f5}es: expected comma at line 1 column 9"
    );
    assert_eq!(
        SettingsError::ParseError(String::new()).message(),
        "Erro ao processar configura\u{e7}\u{f5}es: "
    );
}

#[test]
fn errors_compare_by_kind_and_cause() {
    assert_eq!(
        SettingsError::FileReadError("a".to_string()),
        SettingsError::FileReadError("a".to_string())
    );
    assert_ne!(
        SettingsError::FileReadError("a".to_string()),
        SettingsError::FileWriteError("a".to_string())
    );
    assert_ne!(
        SettingsError::ParseError("a".to_string()),
        SettingsError::ParseError("b".to_string())
    );
}
