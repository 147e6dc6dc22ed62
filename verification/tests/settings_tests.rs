use sparrow_db::json::{Json, JsonNumber};
use sparrow_db::settings::{
    apply_settings_patch, skip_setting_from_env, worker_threads_from, PatchError, RuntimeSettings, SettingSource,
};

fn settings_from(skip: Option<&str>, workers: Option<&str>, cores: Option<usize>) -> RuntimeSettings {
    let (skip_bm25_on_write, skip_bm25_source) = skip_setting_from_env(skip);
    RuntimeSettings { skip_bm25_on_write, skip_bm25_source, worker_threads: worker_threads_from(workers, cores) }
}

fn object(members: Vec<(&str, Json)>) -> Json {
    Json::Object(members.into_iter().map(|(k, v)| (k.to_string(), v)).collect())
}

#[test]
fn apply_patch_accepts_known_mutable_key() {
    let mut settings = settings_from(None, None, Some(2));
    let patch = object(vec![("skip_bm25_on_write", Json::Bool(true))]);
    let result = apply_settings_patch(&mut settings, &patch);
    assert!(result.is_ok());
    assert!(settings.skip_bm25_on_write);
    assert_eq!(settings.skip_bm25_source, SettingSource::Runtime);
}

#[test]
fn apply_patch_rejects_immutable_key() {
    let mut settings = settings_from(None, None, Some(4));
    let patch = object(vec![(
        "worker_threads",
        Json::Number(JsonNumber { as_u64: Some(16), as_i64: Some(16), as_f64_bits: Some(16f64.to_bits()) }),
    )]);
    let result = apply_settings_patch(&mut settings, &patch);
    assert!(result.is_err());
    assert!(result.unwrap_err().message().contains("immutable"));
}

#[test]
fn apply_patch_rejects_unknown_key() {
    let mut settings = settings_from(None, None, Some(4));
    let patch = object(vec![("unknown_setting", Json::Bool(true))]);
    let result = apply_settings_patch(&mut settings, &patch);
    assert!(result.is_err());
    let message = result.unwrap_err().message();
    assert!(message.contains("unknown setting"));
    assert_eq!(message, "unknown setting 'unknown_setting'");
}

#[test]
fn apply_patch_rejects_non_object_and_non_boolean() {
    let mut settings = settings_from(None, None, None);
    assert!(matches!(apply_settings_patch(&mut settings, &Json::Null), Err(PatchError::NotAnObject)));
    let patch = object(vec![("skip_bm25_on_write", Json::Str("yes".to_string()))]);
    assert!(matches!(apply_settings_patch(&mut settings, &patch), Err(PatchError::NotABoolean)));
    assert!(!settings.skip_bm25_on_write);
    assert_eq!(settings.skip_bm25_source, SettingSource::Default);
}

#[test]
fn env_readings() {
    assert_eq!(skip_setting_from_env(None), (false, SettingSource::Default));
    assert_eq!(skip_setting_from_env(Some("TRUE")), (true, SettingSource::Env));
    assert_eq!(skip_setting_from_env(Some("yes")), (false, SettingSource::Env));
    assert_eq!(worker_threads_from(Some("7"), None), 8);
    assert_eq!(worker_threads_from(Some("0"), None), 2);
    assert_eq!(worker_threads_from(None, Some(3)), 12);
    assert_eq!(worker_threads_from(None, Some(40)), 64);
    assert_eq!(worker_threads_from(None, None), 4);
}

#[test]
fn settings_json() {
    let settings = settings_from(Some("1"), Some("6"), None);
    assert_eq!(
        settings.to_json(),
        "{\"settings\":{\"skip_bm25_on_write\":{\"value\":true,\"source\":\"env\",\"mutable\":true},\"worker_threads\":{\"value\":6,\"source\":\"env\",\"mutable\":false}}}"
    );
}

#[test]
fn settings_from_env_values() {
    let s = RuntimeSettings::from_env_values(Some("true"), Some("5"), Some(2));
    assert!(s.skip_bm25_on_write);
    assert_eq!(s.skip_bm25_source, SettingSource::Env);
    assert_eq!(s.worker_threads, 6);
    let d = RuntimeSettings::from_env_values(None, None, Some(2));
    assert!(!d.skip_bm25_on_write);
    assert_eq!(d.skip_bm25_source, SettingSource::Default);
    assert_eq!(d.worker_threads, 8);
}

#[test]
fn from_env_reads_skip_bm25_default() {
    let s = RuntimeSettings::from_env_values(None, None, Some(4));
    assert!(!s.skip_bm25_on_write);
    assert_eq!(s.skip_bm25_source.as_str(), "default");
}

#[test]
fn from_env_reads_skip_bm25_from_env() {
    let s = RuntimeSettings::from_env_values(Some("1"), None, Some(4));
    assert!(s.skip_bm25_on_write);
    assert_eq!(s.skip_bm25_source.as_str(), "env");
}

#[test]
fn set_skip_bm25_changes_value_and_source() {
    let mut s = RuntimeSettings::from_env_values(None, None, Some(4));
    s.set_skip_bm25_on_write(true);
    assert!(s.skip_bm25_on_write);
    assert_eq!(s.skip_bm25_source.as_str(), "runtime");
}

#[test]
fn worker_threads_is_even_and_at_least_2() {
    for cores in [None, Some(0), Some(1), Some(3), Some(100)] {
        let s = RuntimeSettings::from_env_values(None, None, cores);
        assert!(s.worker_threads >= 2);
        assert_eq!(s.worker_threads % 2, 0);
    }
}

#[test]
fn to_json_includes_both_settings() {
    let s = RuntimeSettings::from_env_values(None, None, Some(4));
    let json = s.to_json();
    assert!(json.contains("skip_bm25_on_write"));
    assert!(json.contains("worker_threads"));
    assert!(json.contains("\"mutable\":true"));
    assert!(json.contains("\"mutable\":false"));
}

#[test]
fn patches_never_change_worker_threads() {
    let mut settings = settings_from(None, Some("6"), None);
    let patch = object(vec![("skip_bm25_on_write", Json::Bool(true)), ("worker_threads", Json::Bool(true))]);
    assert!(matches!(apply_settings_patch(&mut settings, &patch), Err(PatchError::Immutable)));
    // the members before the refused one stay applied
    assert!(settings.skip_bm25_on_write);
    assert_eq!(settings.worker_threads, 6);
}

#[test]
fn post_settings_answers() {
    let mut settings = settings_from(None, None, Some(1));
    let (status, body) = sparrow_db::settings::post_settings_answer(&mut settings, Err("expected value".to_string()));
    assert_eq!(status, 400);
    assert_eq!(body, "{\"error\":\"invalid JSON: expected value\"}");

    let patch = object(vec![("color", Json::Bool(true))]);
    let (status, body) = sparrow_db::settings::post_settings_answer(&mut settings, Ok(&patch));
    assert_eq!(status, 400);
    assert_eq!(body, "{\"error\":\"unknown setting 'color'\"}");

    let patch = object(vec![("skip_bm25_on_write", Json::Bool(true))]);
    let (status, body) = sparrow_db::settings::post_settings_answer(&mut settings, Ok(&patch));
    assert_eq!(status, 200);
    assert_eq!(body, settings.to_json());
    assert!(body.contains("\"skip_bm25_on_write\":{\"value\":true,\"source\":\"runtime\""));
}
