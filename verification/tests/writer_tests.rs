use serde_json::Value;

use zed_settings::error::SettingsError;
use zed_settings::location::resolve;
use zed_settings::location::Platform;
use zed_settings::reader::finish_read;
use zed_settings::writer::plan_write;
use zed_settings::writer::start_write;

#[test]
fn save_without_home_fails_at_once() {
    assert_eq!(
        plan_write(None, Platform::Other, "{}".to_string()),
        Err(SettingsError::HomeDirectoryUnavailable)
    );
    assert_eq!(
        plan_write(None, Platform::Windows, String::new()),
        Err(SettingsError::HomeDirectoryUnavailable)
    );
}

#[test]
fn save_asks_for_the_directory_first() {
    let pending = plan_write(Some("/home/u".to_string()), Platform::Other, "{}".to_string())
        .unwrap();
    assert_eq!(pending.directory(), "/home/u/.config/zed");

    let pending = plan_write(Some("C:\\Users\\u".to_string()), Platform::Windows, "{}".to_string())
        .unwrap();
    assert_eq!(pending.directory(), "C:\\Users\\u\\AppData/Roaming/Zed");
}

#[test]
fn save_then_load() {
    let pending = plan_write(
        Some("/home/u".to_string()),
        Platform::Other,
        "{ foo: 1, }".to_string(),
    )
    .unwrap();
    assert_eq!(pending.directory(), "/home/u/.config/zed");
    let write = pending.directory_created(Ok(())).unwrap();
    assert_eq!(write.path(), "/home/u/.config/zed/settings.json");
    assert_eq!(write.content(), "{ foo: 1, }");

    let target = resolve(Some("/home/u".to_string()), Platform::Other).unwrap();
    assert_eq!(target.file(), write.path());

    let stored = write.content().to_string();
    assert_eq!(write.finished(Ok(())), Ok(()));
    let expected: Value = serde_json::from_str("{\"foo\": 1}").unwrap();
    assert_eq!(finish_read(Ok(stored)), Ok(expected));
}

#[test]
fn content_is_written_as_it_came() {
    for content in ["", "not json at all {", "{ foo: 1, }\n", "  \u{e7}\u{f5}es\t\r\n"] {
        let pending = plan_write(Some("/h".to_string()), Platform::Other, content.to_string())
            .unwrap();
        let write = pending.directory_created(Ok(())).unwrap();
        assert_eq!(write.content(), content);
        assert_eq!(write.path(), "/h/.config/zed/settings.json");
    }
}

#[test]
fn failed_directory_ends_the_save() {
    let pending = plan_write(Some("/home/u".to_string()), Platform::Other, "{}".to_string())
        .unwrap();
    assert_eq!(
        pending.directory_created(Err("Permission denied (os error 13)".to_string())),
        Err(SettingsError::DirectoryCreateError("Permission denied (os error 13)".to_string()))
    );
}

#[test]
fn failed_write_is_a_write_error() {
    let pending = plan_write(Some("/home/u".to_string()), Platform::Other, "{}".to_string())
        .unwrap();
    let write = pending.directory_created(Ok(())).unwrap();
    assert_eq!(
        write.finished(Err("No space left on device (os error 28)".to_string())),
        Err(SettingsError::FileWriteError("No space left on device (os error 28)".to_string()))
    );
}

#[test]
fn start_write_answers_as_plan_write_would() {
    match start_write(Platform::Other, "{ a: 1 }".to_string()) {
        Ok(pending) => {
            assert!(pending.directory().ends_with(".config/zed"));
            let directory = pending.directory().to_string();
            let write = pending.directory_created(Ok(())).unwrap();
            assert_eq!(write.path(), format!("{}/settings.json", directory));
            assert_eq!(write.content(), "{ a: 1 }");
        }
        Err(error) => assert_eq!(error, SettingsError::HomeDirectoryUnavailable),
    }
}
