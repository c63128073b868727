use usage_monitor::commands;
use usage_monitor::commands::apply_language_to_state;
use usage_monitor::commands::check_language_change;
use usage_monitor::commands::check_theme_change;
use usage_monitor::commands::command_of_language;
use usage_monitor::commands::interval_of_command;
use usage_monitor::commands::language_of_command;
use usage_monitor::commands::on_command;
use usage_monitor::commands::update_language_change;
use usage_monitor::launch::first_state;
use usage_monitor::localization::LanguageId;
use usage_monitor::menu::flag_of_choice;
use usage_monitor::menu::MenuFlag;
use usage_monitor::settings::PanelBackground;
use usage_monitor::settings::SettingsFile;
use usage_monitor::state::Action;
use usage_monitor::state::AppState;
use usage_monitor::state::InstallChannel;
use usage_monitor::state::ReleaseDescriptor;
use usage_monitor::state::Shell;
use usage_monitor::state::TimerKind;
use usage_monitor::state::UpdateStatus;

fn app() -> Shell {
    let mut shell = Shell::new();
    shell.app = Some(first_state(
        100,
        true,
        &SettingsFile::default(),
        None,
        LanguageId::English,
        InstallChannel::Portable,
    ));
    shell
}

fn state(shell: &Shell) -> &AppState {
    shell.app.as_ref().unwrap()
}

fn state_mut(shell: &mut Shell) -> &mut AppState {
    shell.app.as_mut().unwrap()
}

const LANGUAGES: [LanguageId; 8] = [
    LanguageId::English,
    LanguageId::Dutch,
    LanguageId::Spanish,
    LanguageId::French,
    LanguageId::German,
    LanguageId::Japanese,
    LanguageId::Korean,
    LanguageId::TraditionalChinese,
];

fn command(shell: &mut Shell, id: u16) -> Vec<Action> {
    on_command(shell, id, 50)
}

#[test]
fn refresh_dots_the_figures_and_polls() {
    let mut shell = app();
    assert_eq!(
        command(&mut shell, commands::IDM_REFRESH),
        vec![Action::RenderLayered, Action::SpawnPoll]
    );
    assert_eq!(state(&shell).figures.session_text, "...");
    assert!(state(&shell).polling.force_notify_auth_error);
}

#[test]
fn exit_takes_the_hook_away() {
    let mut shell = app();
    assert_eq!(command(&mut shell, commands::IDM_EXIT), vec![Action::PostQuit]);
    state_mut(&mut shell).windows.win_event_hook = Some(3);
    assert_eq!(
        command(&mut shell, commands::IDM_EXIT),
        vec![Action::Unhook(3), Action::PostQuit]
    );
}

#[test]
fn position_is_reset() {
    let mut shell = app();
    state_mut(&mut shell).prefs.tray_offset = 77;
    assert_eq!(
        command(&mut shell, commands::IDM_RESET_POSITION),
        vec![Action::SaveSettings, Action::PositionAtTaskbar]
    );
    assert_eq!(state(&shell).prefs.tray_offset, 0);
    assert_eq!(
        command(&mut shell, commands::IDM_START_WITH_WINDOWS),
        vec![Action::ToggleStartup]
    );
}

#[test]
fn intervals_are_chosen() {
    let mut shell = app();
    let choices = [
        (commands::IDM_FREQ_1MIN, 60_000),
        (commands::IDM_FREQ_5MIN, 300_000),
        (commands::IDM_FREQ_15MIN, 900_000),
        (commands::IDM_FREQ_1HOUR, 3_600_000),
    ];
    for (id, ms) in choices {
        assert_eq!(interval_of_command(id), Some(ms));
        assert_eq!(
            command(&mut shell, id),
            vec![Action::SaveSettings, Action::SetTimer { timer: TimerKind::Poll, ms }]
        );
        assert_eq!(state(&shell).prefs.poll_interval_ms, ms);
        for (other, _) in choices {
            let expected = if other == id { MenuFlag::Checked } else { MenuFlag::Plain };
            assert_eq!(flag_of_choice(&state(&shell).prefs, other), expected);
        }
    }
    assert_eq!(interval_of_command(14), None);
}

#[test]
fn formats_and_backgrounds_are_chosen() {
    let mut shell = app();
    let format = vec![
        Action::RefreshTexts,
        Action::SaveSettings,
        Action::RenderLayered,
        Action::RefreshPanelView,
        Action::ScheduleCountdown,
    ];
    assert_eq!(command(&mut shell, commands::IDM_FORMAT_SHORT), format);
    assert!(!state(&shell).prefs.compound_countdown);
    assert_eq!(command(&mut shell, commands::IDM_FORMAT_LONG), format);
    assert!(state(&shell).prefs.compound_countdown);
    assert_eq!(
        command(&mut shell, commands::IDM_PANEL_BG_TRANSLUCENT),
        vec![Action::SaveSettings]
    );
    assert_eq!(state(&shell).prefs.panel_background, PanelBackground::Translucent);
    assert_eq!(
        flag_of_choice(&state(&shell).prefs, commands::IDM_PANEL_BG_TRANSLUCENT),
        MenuFlag::Checked
    );
    command(&mut shell, commands::IDM_PANEL_BG_SOLID);
    assert_eq!(state(&shell).prefs.panel_background, PanelBackground::Solid);
}

#[test]
fn model_is_always_kept_on() {
    let mut shell = app();
    for shown in [true, false] {
        state_mut(&mut shell).prefs.show_claude_code = shown;
        assert_eq!(
            command(&mut shell, commands::IDM_MODEL_CLAUDE_CODE),
            vec![
                Action::SaveSettings,
                Action::PositionAtTaskbar,
                Action::RefreshPanelView,
                Action::RenderLayered,
                Action::SyncTrayIcons,
                Action::SpawnPoll
            ]
        );
        assert!(state(&shell).prefs.show_claude_code);
        assert_eq!(state(&shell).figures.weekly_text, "...");
    }
}

#[test]
fn languages_are_chosen() {
    let mut shell = app();
    for language in LANGUAGES {
        let id = command_of_language(language);
        assert_eq!(language_of_command(id), Some(Some(language)));
        assert_eq!(
            command(&mut shell, id),
            vec![
                Action::ApplyLanguage(Some(language)),
                Action::SaveSettings,
                Action::RenderLayered
            ]
        );
    }
    assert_eq!(
        command(&mut shell, commands::IDM_LANG_SYSTEM)[0],
        Action::ApplyLanguage(None)
    );
    assert_eq!(language_of_command(39), None);
    assert_eq!(language_of_command(49), None);
}

#[test]
fn language_is_applied() {
    let mut shell = app();
    assert_eq!(
        apply_language_to_state(&mut shell, Some(LanguageId::Korean), LanguageId::Korean),
        vec![Action::SetWindowTitle, Action::RefreshTexts]
    );
    assert_eq!(state(&shell).language, LanguageId::Korean);
    assert_eq!(state(&shell).prefs.language_override, Some(LanguageId::Korean));
    let korean = command_of_language(LanguageId::Korean);
    assert_eq!(flag_of_choice(&state(&shell).prefs, korean), MenuFlag::Checked);
    assert!(!update_language_change(&shell, LanguageId::Dutch));
    state_mut(&mut shell).panel.hwnd = Some(7);
    assert_eq!(
        apply_language_to_state(&mut shell, None, LanguageId::Dutch),
        vec![Action::SetWindowTitle, Action::SetPanelTitle, Action::RefreshTexts]
    );
    assert!(check_language_change(&shell, LanguageId::Dutch).is_empty());
    assert_eq!(
        check_language_change(&shell, LanguageId::German),
        vec![Action::ApplyLanguage(None), Action::RenderLayered]
    );
    assert!(check_language_change(&Shell::new(), LanguageId::German).is_empty());
}

#[test]
fn theme_is_followed() {
    let mut shell = app();
    assert!(check_theme_change(&mut shell, true).is_empty());
    assert_eq!(check_theme_change(&mut shell, false), vec![Action::RenderLayered]);
    assert!(!state(&shell).is_dark);
}

#[test]
fn widget_is_shown_and_hidden() {
    let mut shell = app();
    assert_eq!(
        command(&mut shell, 50),
        vec![Action::SaveSettings, Action::HidePanel, Action::HideWidget]
    );
    assert!(!state(&shell).prefs.widget_visible);
    assert_eq!(
        command(&mut shell, 50),
        vec![
            Action::SaveSettings,
            Action::PositionAtTaskbar,
            Action::ShowWidget,
            Action::RenderLayered
        ]
    );
    assert!(state(&shell).prefs.widget_visible);
    assert!(command(&mut Shell::new(), 50).is_empty());
}

#[test]
fn version_entry_installs_or_searches() {
    let release = || ReleaseDescriptor { latest_version: "2.0.0".to_string(), id: 4 };
    let mut shell = app();
    let search = vec![Action::BeginUpdateCheck { interactive: true }];
    assert_eq!(command(&mut shell, commands::IDM_VERSION_ACTION), search);
    assert_eq!(command(&mut Shell::new(), commands::IDM_VERSION_ACTION), search);
    state_mut(&mut shell).update_status = UpdateStatus::Available(release());
    assert_eq!(
        command(&mut shell, commands::IDM_VERSION_ACTION),
        vec![Action::BeginUpdateApply(release())]
    );
    state_mut(&mut shell).install_channel = InstallChannel::Winget;
    assert_eq!(
        command(&mut shell, commands::IDM_VERSION_ACTION),
        vec![Action::BeginWingetUpdate]
    );
}

#[test]
fn unknown_commands_do_nothing() {
    let mut shell = app();
    for id in [0, 3, 9, 14, 21, 32, 61, 72, 82, 51, u16::MAX] {
        assert!(command(&mut shell, id).is_empty());
    }
}
