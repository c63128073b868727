use usage_monitor::launch::first_state;
use usage_monitor::launch::start;
use usage_monitor::launch::taskbar_searched;
use usage_monitor::launch::windows_created;
use usage_monitor::launch::TaskbarWindows;
use usage_monitor::localization::LanguageId;
use usage_monitor::settings::load_settings;
use usage_monitor::settings::PanelBackground;
use usage_monitor::settings::SettingsFile;
use usage_monitor::state::settings_from_state;
use usage_monitor::state::Action;
use usage_monitor::state::AppState;
use usage_monitor::state::CredentialWatchMode;
use usage_monitor::state::InstallChannel;
use usage_monitor::state::Preferences;
use usage_monitor::state::Shell;
use usage_monitor::state::TimerKind;
use usage_monitor::state::UpdateStatus;

fn settings() -> SettingsFile {
    SettingsFile {
        tray_offset: 12,
        poll_interval_ms: 300_000,
        compound_countdown: false,
        language: Some("nl".to_string()),
        last_update_check_unix: Some(1000),
        widget_visible: true,
        show_claude_code: true,
        panel_background: PanelBackground::Translucent,
        panel_pinned: true,
        panel_pinned_x: Some(3),
        panel_pinned_y: Some(4),
    }
}

fn launched(settings: &SettingsFile) -> AppState {
    first_state(
        100,
        false,
        settings,
        Some(LanguageId::Dutch),
        LanguageId::Dutch,
        InstallChannel::Winget,
    )
}

#[test]
fn first_state_follows_the_settings() {
    let s = launched(&settings());
    assert_eq!(s.windows.hwnd, 100);
    assert_eq!(s.windows.taskbar_hwnd, None);
    assert!(!s.is_dark && !s.embedded);
    assert_eq!(s.language, LanguageId::Dutch);
    assert_eq!(s.install_channel, InstallChannel::Winget);
    assert_eq!(s.prefs.tray_offset, 12);
    assert_eq!(s.prefs.poll_interval_ms, 300_000);
    assert_eq!(s.prefs.language_override, Some(LanguageId::Dutch));
    assert_eq!(s.prefs.panel_pinned_y, Some(4));
    assert_eq!(s.figures.session_text, "--");
    assert_eq!(s.figures.weekly_text, "--");
    assert!(s.figures.data.is_none());
    assert_eq!(s.polling.retry_count, 0);
    assert_eq!(s.polling.auth_watch_mode, CredentialWatchMode::ActiveSource);
    assert!(!s.polling.last_poll_ok);
    assert_eq!(s.update_status, UpdateStatus::Idle);
    assert!(!s.panel.visible && s.panel.hwnd.is_none());
    assert_eq!(s.popup_text, "");
}

#[test]
fn widget_is_embedded_where_there_is_a_taskbar() {
    let mut shell = Shell::new();
    shell.app = Some(launched(&settings()));
    assert_eq!(taskbar_searched(&mut shell, None), vec![Action::MakeTopmost]);
    assert!(!shell.app.as_ref().unwrap().embedded);
    let found = TaskbarWindows { taskbar: 1, tray_notify: Some(2), hook: Some(3) };
    assert!(taskbar_searched(&mut shell, Some(found)).is_empty());
    let s = shell.app.as_ref().unwrap();
    assert!(s.embedded);
    assert_eq!(s.windows.taskbar_hwnd, Some(1));
    assert_eq!(s.windows.tray_notify_hwnd, Some(2));
    assert_eq!(s.windows.win_event_hook, Some(3));
    windows_created(&mut shell, Some(8), Some(7));
    let s = shell.app.as_ref().unwrap();
    assert_eq!(s.windows.popup_hwnd, Some(8));
    assert_eq!(s.panel.hwnd, Some(7));
}

#[test]
fn taskbar_without_a_notification_area_has_no_hook() {
    let mut shell = Shell::new();
    shell.app = Some(launched(&settings()));
    let found = TaskbarWindows { taskbar: 1, tray_notify: None, hook: Some(3) };
    taskbar_searched(&mut shell, Some(found));
    assert_eq!(shell.app.as_ref().unwrap().windows.win_event_hook, None);
}

#[test]
fn first_work_is_done_in_order() {
    let s = launched(&settings());
    assert_eq!(
        start(&s, 1000 + 86_400),
        vec![
            Action::SyncTrayIcons,
            Action::PositionAtTaskbar,
            Action::ShowWidget,
            Action::ShowPanel,
            Action::RenderLayered,
            Action::SetTimer { timer: TimerKind::Poll, ms: 300_000 },
            Action::SpawnPoll,
            Action::ScheduleAutoUpdateCheck,
            Action::BeginUpdateCheck { interactive: false },
            Action::CheckTheme,
        ]
    );
    let mut hidden = settings();
    hidden.widget_visible = false;
    hidden.panel_pinned = false;
    let actions = start(&launched(&hidden), 1000);
    assert!(!actions.contains(&Action::ShowWidget));
    assert!(!actions.contains(&Action::ShowPanel));
    assert!(!actions.contains(&Action::BeginUpdateCheck { interactive: false }));
    assert_eq!(actions.len(), 7);
}

#[test]
fn preferences_outlive_the_program() {
    let s = launched(&settings());
    let saved = settings_from_state(&s.prefs, "nl");
    assert_eq!(saved.language.as_deref(), Some("nl"));
    let loaded = load_settings(Some("{}"), Some(saved));
    let again = Preferences::from_settings(&loaded, Some(LanguageId::Dutch));
    assert_eq!(again.tray_offset, 12);
    assert_eq!(again.poll_interval_ms, 300_000);
    assert!(!again.compound_countdown);
    assert_eq!(again.last_update_check_unix, Some(1000));
    assert_eq!(again.panel_background, PanelBackground::Translucent);
    assert_eq!((again.panel_pinned_x, again.panel_pinned_y), (Some(3), Some(4)));
    let mut unset = s.prefs;
    unset.language_override = None;
    assert_eq!(settings_from_state(&unset, "nl").language, None);
}
