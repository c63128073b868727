use usage_monitor::settings::load_settings;
use usage_monitor::settings::recover_settings;
use usage_monitor::settings::sanitize_settings;
use usage_monitor::settings::PanelBackground;
use usage_monitor::settings::SettingsFile;
use usage_monitor::settings::POLL_15_MIN;
use usage_monitor::settings::POLL_1_HOUR;
use usage_monitor::settings::POLL_1_MIN;
use usage_monitor::settings::POLL_5_MIN;

#[test]
fn sanitize_clamps_invalid_poll_interval() {
    let mut s = SettingsFile {
        poll_interval_ms: 99999,
        ..SettingsFile::default()
    };
    sanitize_settings(&mut s);
    assert_eq!(s.poll_interval_ms, POLL_15_MIN);
}

#[test]
fn settings_two_pass_recovers_known_fields_from_bad_json() {
    let json = r#"{"poll_interval_ms": "bad", "show_claude_code": true}"#;
    let settings = load_settings(Some(json), None);
    assert!(
        settings.show_claude_code,
        "slow path should recover show_claude_code from partially bad JSON"
    );
    assert_eq!(
        settings.poll_interval_ms, POLL_15_MIN,
        "slow path should fall back to default for bad field"
    );
}

#[test]
fn intervals_of_the_menu_stay() {
    for ms in [POLL_1_MIN, POLL_5_MIN, POLL_15_MIN, POLL_1_HOUR] {
        let mut s = SettingsFile { poll_interval_ms: ms, ..SettingsFile::default() };
        sanitize_settings(&mut s);
        assert_eq!(s.poll_interval_ms, ms);
        sanitize_settings(&mut s);
        assert_eq!(s.poll_interval_ms, ms);
    }
}

#[test]
fn every_field_is_recovered() {
    let json = r#"{
        "tray_offset": -7,
        "poll_interval_ms": 60000,
        "compound_countdown": false,
        "language": "nl",
        "last_update_check_unix": 1700000000,
        "widget_visible": false,
        "show_claude_code": false,
        "panel_background": "translucent",
        "panel_pinned": true,
        "panel_pinned_x": 12,
        "panel_pinned_y": "bad"
    }"#;
    let s = load_settings(Some(json), None);
    assert_eq!(s.tray_offset, -7);
    assert_eq!(s.poll_interval_ms, POLL_1_MIN);
    assert!(!s.compound_countdown);
    assert_eq!(s.language.as_deref(), Some("nl"));
    assert_eq!(s.last_update_check_unix, Some(1700000000));
    assert!(!s.widget_visible);
    assert!(!s.show_claude_code);
    assert_eq!(s.panel_background, PanelBackground::Translucent);
    assert!(s.panel_pinned);
    assert_eq!(s.panel_pinned_x, Some(12));
    assert_eq!(s.panel_pinned_y, None);
}

#[test]
fn values_of_the_wrong_type_count_as_missing() {
    let json = r#"{
        "tray_offset": 1.5,
        "poll_interval_ms": -1,
        "compound_countdown": 1,
        "language": 5,
        "last_update_check_unix": null,
        "widget_visible": "yes",
        "show_claude_code": [],
        "panel_background": "purple",
        "panel_pinned": {}
    }"#;
    let value: serde_json::Value = serde_json::from_str(json).unwrap();
    let s = recover_settings(&value);
    assert_eq!(s.tray_offset, 0);
    assert_eq!(s.poll_interval_ms, POLL_15_MIN);
    assert!(s.compound_countdown);
    assert_eq!(s.language, None);
    assert_eq!(s.last_update_check_unix, None);
    assert!(s.widget_visible);
    assert!(s.show_claude_code);
    assert_eq!(s.panel_background, PanelBackground::Solid);
    assert!(!s.panel_pinned);
}

#[test]
fn number_that_its_field_cannot_hold_counts_as_missing() {
    let json = r#"{"tray_offset": 4294967301, "poll_interval_ms": 4295027296, "panel_pinned": true,
        "panel_pinned_x": 2147483648, "panel_pinned_y": -2147483649}"#;
    let value: serde_json::Value = serde_json::from_str(json).unwrap();
    for s in [recover_settings(&value), load_settings(Some(json), None)] {
        assert_eq!(s.tray_offset, 0);
        assert_eq!(s.poll_interval_ms, POLL_15_MIN);
        assert!(s.panel_pinned);
        assert_eq!((s.panel_pinned_x, s.panel_pinned_y), (None, None));
    }
    let s = load_settings(Some(r#"{"poll_interval_ms": 4295027296, "tray_offset": 7}"#), None);
    assert_eq!(s.poll_interval_ms, 900_000);
    assert_eq!(s.tray_offset, 7);
}

#[test]
fn numbers_at_the_ends_of_their_fields_are_kept() {
    let json = r#"{"tray_offset": -2147483648, "poll_interval_ms": 4294967295,
        "panel_pinned_x": 2147483647, "panel_pinned_y": -2147483648}"#;
    let value: serde_json::Value = serde_json::from_str(json).unwrap();
    let s = recover_settings(&value);
    assert_eq!(s.tray_offset, i32::MIN);
    assert_eq!(s.poll_interval_ms, u32::MAX);
    assert_eq!((s.panel_pinned_x, s.panel_pinned_y), (Some(i32::MAX), Some(i32::MIN)));
}

#[test]
fn unreadable_content_gives_the_defaults() {
    for s in [load_settings(None, None), load_settings(Some("{ not json"), None)] {
        assert_eq!(s.tray_offset, 0);
        assert_eq!(s.poll_interval_ms, POLL_15_MIN);
        assert!(s.compound_countdown && s.widget_visible && s.show_claude_code);
        assert_eq!(s.language, None);
        assert_eq!(s.panel_background, PanelBackground::Solid);
        assert!(!s.panel_pinned);
        assert_eq!((s.panel_pinned_x, s.panel_pinned_y), (None, None));
    }
    let s = load_settings(Some("[1, 2]"), None);
    assert_eq!(s.poll_interval_ms, POLL_15_MIN);
}

#[test]
fn well_typed_content_is_taken_whole() {
    let typed = SettingsFile { tray_offset: 40, poll_interval_ms: 5, ..SettingsFile::default() };
    let s = load_settings(Some("{}"), Some(typed));
    assert_eq!(s.tray_offset, 40);
    assert_eq!(s.poll_interval_ms, POLL_15_MIN);
}

#[test]
fn backgrounds_have_names() {
    assert_eq!(PanelBackground::Solid.name(), "solid");
    assert_eq!(PanelBackground::Translucent.name(), "translucent");
    for background in [PanelBackground::Solid, PanelBackground::Translucent] {
        assert_eq!(PanelBackground::from_name(background.name()), Some(background));
    }
    assert_eq!(PanelBackground::from_name("Solid"), None);
}
