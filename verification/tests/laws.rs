use usage_monitor::commands::apply_language_to_state;
use usage_monitor::commands::check_theme_change;
use usage_monitor::geometry::hiword;
use usage_monitor::geometry::loword;
use usage_monitor::geometry::sc;
use usage_monitor::launch::first_state;
use usage_monitor::launch::windows_created;
use usage_monitor::localization::LanguageId;
use usage_monitor::messages::Message;
use usage_monitor::messages::PanelMessage;
use usage_monitor::models::AppUsageData;
use usage_monitor::models::Timestamp;
use usage_monitor::panel_window::hide_panel;
use usage_monitor::panel_window::menu_dismissed;
use usage_monitor::panel_window::on_panel_message;
use usage_monitor::panel_window::PanelSurroundings;
use usage_monitor::poll::poll_failed;
use usage_monitor::poll::poll_succeeded;
use usage_monitor::poll::PollError;
use usage_monitor::poll::UsageLines;
use usage_monitor::settings::load_settings;
use usage_monitor::settings::SettingsFile;
use usage_monitor::state::Action;
use usage_monitor::state::InstallChannel;
use usage_monitor::state::Shell;
use usage_monitor::state::TimerKind;
use usage_monitor::state::TrayIconKind;
use usage_monitor::update::begin_update_check;
use usage_monitor::update::finish_update_check;
use usage_monitor::update::UpdateOutcome;
use usage_monitor::widget::on_message;
use usage_monitor::widget::Surroundings;

const AT: Timestamp = Timestamp { nanos: 1000 };

fn lines() -> UsageLines {
    UsageLines { session: "1%".to_string(), weekly: "2%".to_string() }
}

fn launched() -> Shell {
    let mut shell = Shell::new();
    shell.app = Some(first_state(
        100,
        true,
        &SettingsFile { tray_offset: 25, ..SettingsFile::default() },
        None,
        LanguageId::English,
        InstallChannel::Winget,
    ));
    windows_created(&mut shell, Some(8), Some(7));
    poll_succeeded(&mut shell, AppUsageData::default(), AT, true, lines());
    shell
}

/// What every event keeps.
fn check(shell: &Shell) {
    let s = shell.app.as_ref().expect("the state stays");
    assert!([60_000, 300_000, 900_000, 3_600_000].contains(&s.prefs.poll_interval_ms));
    assert!(s.prefs.show_claude_code);
    assert!(s.figures.data.is_some());
    assert_eq!(s.windows.hwnd, 100);
    assert_eq!(s.install_channel, InstallChannel::Winget);
    if !s.prefs.panel_pinned {
        assert_eq!((s.prefs.panel_pinned_x, s.prefs.panel_pinned_y), (None, None));
    }
}

#[test]
fn every_command_keeps_the_invariants() {
    let around = Surroundings { dpi: 96, now: 0, cursor_x: 0, cursor_client_x: 0 };
    for id in 0..=100 {
        let mut shell = launched();
        let before = shell.app.as_ref().unwrap().prefs.tray_offset;
        on_message(&mut shell, Message::Command(id), &around, 50);
        check(&shell);
        let after = shell.app.as_ref().unwrap().prefs.tray_offset;
        assert_eq!(after, if id == 30 { 0 } else { before });
    }
}

#[test]
fn messages_keep_the_invariants() {
    let messages = [
        Message::Paint,
        Message::DisplayChange,
        Message::DpiChange(144),
        Message::SettingChange,
        Message::Timer(Some(TimerKind::Poll)),
        Message::UsageUpdated,
        Message::MouseMove,
        Message::LeftDown { x: 3 },
        Message::MouseMove,
        Message::LeftUp { x: 3 },
        Message::LeftUp { x: 90 },
        Message::MouseActivate,
        Message::MouseLeave,
        Message::Tray,
        Message::Destroy,
    ];
    let mut shell = launched();
    for (i, message) in messages.into_iter().enumerate() {
        let around = Surroundings {
            dpi: 96,
            now: i as u64 * 1_000_000_000,
            cursor_x: 40,
            cursor_client_x: 4,
        };
        on_message(&mut shell, message, &around, 50);
        check(&shell);
        assert_eq!(shell.app.as_ref().unwrap().prefs.tray_offset, 25);
    }
}

#[test]
fn panel_messages_keep_the_invariants() {
    let mut shell = launched();
    let s = shell.app.as_mut().unwrap();
    s.panel.buttons =
        usage_monitor::panel::panel_buttons_for_layout("Settings", "Refresh", 390, false, 96);
    let around = PanelSurroundings {
        dpi: 96,
        now: 0,
        pointer_x: 1,
        pointer_y: 1,
        client_right: 390,
        window_left: 9,
        window_top: 10,
    };
    let messages = [
        PanelMessage::MouseMove { x: 290, y: 20 },
        PanelMessage::LeftDown { x: 290, y: 20 },
        PanelMessage::LeftUp,
        PanelMessage::ExitSizeMove,
        PanelMessage::LeftDown { x: 290, y: 20 },
        PanelMessage::LeftUp,
        PanelMessage::ExitSizeMove,
        PanelMessage::KeyDown(0x09),
        PanelMessage::Shimmer,
        PanelMessage::KillFocus,
        PanelMessage::KeyDown(0x1B),
        PanelMessage::Activate { active: false },
    ];
    for message in messages {
        on_panel_message(&mut shell, message, &around);
        check(&shell);
    }
}

#[test]
fn background_work_keeps_the_invariants() {
    let mut shell = launched();
    poll_failed(&mut shell, PollError::AuthRequired, AT, vec![]);
    check(&shell);
    poll_failed(&mut shell, PollError::RequestFailed, AT, vec![]);
    check(&shell);
    begin_update_check(&mut shell, false);
    check(&shell);
    finish_update_check(
        &mut shell,
        UpdateOutcome::UpToDate,
        5,
        false,
        InstallChannel::Winget,
        LanguageId::English,
    );
    check(&shell);
    apply_language_to_state(&mut shell, Some(LanguageId::Spanish), LanguageId::Spanish);
    check(&shell);
    check_theme_change(&mut shell, false);
    check(&shell);
    menu_dismissed(&mut shell);
    check(&shell);
    hide_panel(&mut shell, 0);
    check(&shell);
}

#[test]
fn first_failure_after_a_success_is_told() {
    let mut shell = launched();
    let told = Action::NotifyAuthError { kind: TrayIconKind::Claude, language: LanguageId::English };
    assert!(poll_failed(&mut shell, PollError::TokenExpired, AT, vec![]).contains(&told));
    assert!(!poll_failed(&mut shell, PollError::TokenExpired, AT, vec![]).contains(&told));
    poll_succeeded(&mut shell, AppUsageData::default(), AT, true, lines());
    assert!(poll_failed(&mut shell, PollError::NoCredentials, AT, vec![]).contains(&told));
}

#[test]
fn longer_lengths_get_no_fewer_pixels() {
    for dpi in [96, 120, 144, 240] {
        for px in -20..200 {
            assert!(sc(px, dpi) <= sc(px + 1, dpi));
            assert_eq!(sc(-px, dpi), -sc(px, dpi));
        }
    }
}

#[test]
fn words_give_a_parameter_back() {
    for value in [0, 1, 0xFFFF, 0x1_0000, 0xABCD_1234, u32::MAX] {
        assert_eq!(((hiword(value) as u32) << 16) | loword(value) as u32, value);
    }
}

#[test]
fn empty_documents_stand_for_the_defaults() {
    let s = load_settings(Some("{}"), None);
    let d = SettingsFile::default();
    assert_eq!(s.tray_offset, d.tray_offset);
    assert_eq!(s.poll_interval_ms, d.poll_interval_ms);
    assert_eq!(s.compound_countdown, d.compound_countdown);
    assert_eq!(s.widget_visible, d.widget_visible);
    assert_eq!(s.show_claude_code, d.show_claude_code);
    assert_eq!(s.panel_background, d.panel_background);
    assert_eq!(s.panel_pinned, d.panel_pinned);
}
