use ekka_node::epoch::{
    marker_epoch, marker_path, parse_epoch_override, resolve_from_values, resolve_security_epoch,
    resolve_with_source, EpochSource,
};

#[test]
fn test_marker_epoch_read() {
    let marker = r#"{"schema_version":"1.0","app_name":"test","instance_id":"00000000-0000-0000-0000-000000000000","device_id_fingerprint":"sha256:test","created_at":"2024-01-01T00:00:00Z","last_seen_at":"2024-01-01T00:00:00Z","epoch_seen":42,"storage_layout_version":"v1"}"#;
    let epoch = marker_epoch(marker);
    assert_eq!(epoch, Some(42));
}

#[test]
fn test_default_when_no_marker() {
    let (epoch, source) = resolve_with_source(None, None);
    assert_eq!(epoch, 1);
    assert_eq!(source, EpochSource::Default);
}

#[test]
fn test_marker_source() {
    let marker = r#"{"epoch_seen":5}"#;
    let (epoch, source) = resolve_with_source(None, Some(marker));
    assert_eq!(epoch, 5);
    assert_eq!(source, EpochSource::Marker);
}

#[test]
fn override_wins_over_marker() {
    assert_eq!(resolve_with_source(Some(7), Some(r#"{"epoch_seen":5}"#)), (7, EpochSource::Env));
    assert_eq!(resolve_security_epoch(Some(3), None), 3);
    assert_eq!(resolve_from_values(None, Some(9)), (9, EpochSource::Marker));
}

#[test]
fn unreadable_marker_gives_default() {
    assert_eq!(resolve_with_source(None, Some("{broken")), (1, EpochSource::Default));
    assert_eq!(resolve_with_source(None, Some(r#"{"epoch_seen":"5"}"#)), (1, EpochSource::Default));
    assert_eq!(resolve_with_source(None, Some(r#"{"epoch_seen":-1}"#)), (1, EpochSource::Default));
    assert_eq!(marker_epoch(r#"{"epoch_seen":4294967298}"#), None);
    assert_eq!(marker_epoch(r#"{"epoch_seen":4294967295}"#), Some(u32::MAX));
    assert_eq!(
        resolve_with_source(None, Some(r#"{"epoch_seen":4294967301}"#)),
        (1, EpochSource::Default)
    );
}

#[test]
fn epoch_paths_and_names() {
    assert_eq!(marker_path("/h"), "/h/.ekka-marker.json");
    assert_eq!(EpochSource::Env.name(), "env");
    assert_eq!(EpochSource::Marker.name(), "marker");
    assert_eq!(EpochSource::Default.name(), "default");
}

#[test]
fn override_text_is_read_like_from_str() {
    for text in ["0", "7", "+7", "007", "4294967295", "", "+", "-1", "1.5", " 3", "4294967296", "99999999999999999999"] {
        assert_eq!(parse_epoch_override(text), text.parse::<u32>().ok(), "{:?}", text);
    }
    assert_eq!(parse_epoch_override("42"), Some(42));
}
