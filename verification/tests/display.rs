use usage_monitor::captions::badge_text;
use usage_monitor::captions::build_popup_text;
use usage_monitor::captions::hero_texts;
use usage_monitor::captions::panel_header_status_text;
use usage_monitor::captions::panel_updated_text;
use usage_monitor::captions::plan_name;
use usage_monitor::captions::reset_tooltip_suffix;
use usage_monitor::captions::row_texts;
use usage_monitor::captions::tray_tooltip;
use usage_monitor::captions::weekly_texts;
use usage_monitor::color::Color;
use usage_monitor::color::PanelColors;
use usage_monitor::geometry::Rect;
use usage_monitor::launch::first_state;
use usage_monitor::localization::LanguageId;
use usage_monitor::localization::Strings;
use usage_monitor::menu::show_context_menu;
use usage_monitor::menu::LanguageName;
use usage_monitor::menu::MenuFlag;
use usage_monitor::menu::MenuSources;
use usage_monitor::menu::MenuStep;
use usage_monitor::models::AppUsageData;
use usage_monitor::models::Percent;
use usage_monitor::models::Timestamp;
use usage_monitor::models::UsageData;
use usage_monitor::panel::PanelButtonId;
use usage_monitor::sections::panel_model_sections;
use usage_monitor::sections::PanelIssue;
use usage_monitor::sections::PanelModelSection;
use usage_monitor::sections::PanelUsageStatus;
use usage_monitor::sections::ResetTimes;
use usage_monitor::sections::SessionState;
use usage_monitor::settings::SettingsFile;
use usage_monitor::state::AppState;
use usage_monitor::state::InstallChannel;
use usage_monitor::state::Shell;
use usage_monitor::state::TrayIconKind;
use usage_monitor::state::UpdateStatus;
use usage_monitor::state::UsagePollStatus;
use usage_monitor::view::paint;
use usage_monitor::view::paint_panel;
use usage_monitor::view::render_layered;
use usage_monitor::view::show_hover_popup;
use usage_monitor::view::tray_icon_data_from_state;
use usage_monitor::view::Rendering;

fn strings() -> Strings {
    Strings {
        window_title: "<window_title>",
        claude_code_model: "<claude_code_model>",
        refresh: "<refresh>",
        settings: "<settings>",
        format: "<format>",
        format_long: "<format_long>",
        format_short: "<format_short>",
        update_frequency: "<update_frequency>",
        one_minute: "<one_minute>",
        five_minutes: "<five_minutes>",
        fifteen_minutes: "<fifteen_minutes>",
        one_hour: "<one_hour>",
        models: "<models>",
        start_with_windows: "<start_with_windows>",
        reset_position: "<reset_position>",
        language: "<language>",
        system_default: "<system_default>",
        show_widget: "<show_widget>",
        exit: "<exit>",
        updates: "<updates>",
        check_for_updates: "<check_for_updates>",
        checking_for_updates: "<checking_for_updates>",
        applying_update: "<applying_update>",
        up_to_date: "<up_to_date>",
        up_to_date_short: "<up_to_date_short>",
        update_to: "<update_to>",
        update_available: "<update_available>",
        update_failed: "<update_failed>",
        update_in_progress: "<update_in_progress>",
        update_prompt_now: "<update_prompt_now>",
        token_expired_title: "<token_expired_title>",
        token_expired_body: "<token_expired_body>",
        now: "<now>",
        minute_suffix: "<minute_suffix>",
        hour_suffix: "<hour_suffix>",
        panel_waiting_for_data: "<panel_waiting_for_data>",
        panel_error_missing_credentials: "<panel_error_missing_credentials>",
        panel_error_token_expired: "<panel_error_token_expired>",
        panel_retrying: "<panel_retrying>",
        panel_last_known_data: "<panel_last_known_data>",
        panel_weekly_label: "<panel_weekly_label>",
        panel_resets: "<panel_resets>",
        panel_timer_until_reset: "<panel_timer_until_reset>",
        panel_timer_left_session: "<panel_timer_left_session>",
    }
}

fn app() -> Shell {
    let mut shell = Shell::new();
    shell.app = Some(first_state(
        100,
        true,
        &SettingsFile::default(),
        None,
        LanguageId::English,
        InstallChannel::Portable,
    ));
    shell
}

fn state(shell: &Shell) -> &AppState {
    shell.app.as_ref().unwrap()
}

fn state_mut(shell: &mut Shell) -> &mut AppState {
    shell.app.as_mut().unwrap()
}

fn times(session: &str, weekly: &str) -> ResetTimes {
    ResetTimes { session: session.to_string(), weekly: weekly.to_string() }
}

fn usage() -> UsageData {
    let mut usage = UsageData::default();
    usage.session.percentage = Percent { bits: 86.0f64.to_bits() };
    usage.session.resets_at = Some(Timestamp { nanos: 5 });
    usage.session.message_count = Some(1234);
    usage.session.token_count = Some(9_876_543);
    usage.weekly.percentage = Percent { bits: 55.0f64.to_bits() };
    usage.weekly.resets_at = Some(Timestamp { nanos: 6 });
    usage.user_label = Some("max".to_string());
    usage.email = Some("user@example.com".to_string());
    usage
}

fn with_answer() -> Shell {
    let mut shell = app();
    let s = state_mut(&mut shell);
    s.polling.last_poll_ok = true;
    s.polling.last_poll_status = Some(UsagePollStatus::Success);
    s.figures.data = Some(AppUsageData { claude_code: Some(usage()) });
    s.figures.session_percent = Percent { bits: 86.0f64.to_bits() };
    s.figures.session_text = "86% \u{b7} 2h".to_string();
    s.figures.weekly_text = "55% \u{b7} 3d".to_string();
    shell
}

fn section(shell: &Shell, times: ResetTimes) -> PanelModelSection {
    panel_model_sections(state(shell), &strings(), times).remove(0)
}

#[test]
fn age_of_the_figures_is_told() {
    let at = |secs: i128| Timestamp { nanos: secs * 1_000_000_000 };
    let age = |secs: i128| panel_updated_text(&strings(), Some(at(1000)), at(1000 + secs));
    assert_eq!(panel_updated_text(&strings(), None, at(0)), "<panel_waiting_for_data>");
    assert_eq!(age(-500), "<now>");
    assert_eq!(age(59), "<now>");
    assert_eq!(age(60), "1<minute_suffix> ago");
    assert_eq!(age(3599), "59<minute_suffix> ago");
    assert_eq!(age(3600), "1<hour_suffix> ago");
    assert_eq!(age(100_000), "27<hour_suffix> ago");
}

#[test]
fn header_tells_what_went_wrong() {
    let now = Timestamp { nanos: 0 };
    let text = |ok, status| panel_header_status_text(&strings(), Some(now), ok, status, now);
    assert_eq!(text(true, Some(UsagePollStatus::NoCredentials)), "<now>");
    assert_eq!(
        text(false, Some(UsagePollStatus::NoCredentials)),
        "<panel_error_missing_credentials>"
    );
    assert_eq!(text(false, Some(UsagePollStatus::AuthRequired)), "<panel_error_token_expired>");
    assert_eq!(text(false, Some(UsagePollStatus::TokenExpired)), "<panel_error_token_expired>");
    assert_eq!(
        text(false, Some(UsagePollStatus::RequestFailed)),
        "<panel_retrying> - <panel_last_known_data> - <now>"
    );
    assert_eq!(text(false, None), "<now>");
}

#[test]
fn badge_names_the_plan_in_capitals() {
    let shell = with_answer();
    let plan = plan_name(&state(&shell).figures.data);
    assert_eq!(plan, "max");
    assert_eq!(badge_text(&plan), "MAX");
    assert_eq!(badge_text("stra\u{df}e"), "STRASSE");
    assert_eq!(plan_name(&None), "PRO");
    assert_eq!(plan_name(&Some(AppUsageData::default())), "PRO");
    let bare = AppUsageData { claude_code: Some(UsageData::default()) };
    assert_eq!(plan_name(&Some(bare)), "PRO");
}

#[test]
fn hero_captions_follow_the_session() {
    let shell = with_answer();
    let texts = hero_texts(&section(&shell, times("3:45 PM", "")), &strings(), "1h 5m");
    assert_eq!(texts.chip, "SLOWING DOWN");
    assert_eq!(texts.timer, "1h 5m");
    assert_eq!(texts.helper, "<panel_timer_until_reset>");
    assert_eq!(
        texts.detail,
        "Resets at 3:45 PM \u{b7} 1,234 msgs \u{b7} 9,876,543 tokens"
    );
    let texts = hero_texts(&section(&app(), times("", "")), &strings(), "");
    assert_eq!(texts.chip, "PLENTY LEFT");
    assert_eq!(texts.timer, "--");
    assert_eq!(texts.helper, "<panel_timer_left_session>");
    assert_eq!(texts.detail, "Resets at -- \u{b7} -- msgs \u{b7} -- tokens");
    let mut other = section(&app(), times("", ""));
    other.session_state = SessionState::Capped;
    assert_eq!(hero_texts(&other, &strings(), "").chip, "SESSION AT CAP");
    other.session_state = SessionState::GoingSteady;
    assert_eq!(hero_texts(&other, &strings(), "").chip, "GOING STEADY");
}

#[test]
fn weekly_captions_tell_the_reset() {
    let shell = with_answer();
    let known = section(&shell, times("", "Thu 11:00 am"));
    let texts = weekly_texts(&known, &strings(), "3d 4h", Some("55%".to_string()));
    assert_eq!(texts.label, "<panel_weekly_label>");
    assert_eq!(texts.resets, " <panel_resets> Thu 11:00 am");
    assert_eq!(texts.percent, "55%");
    assert_eq!(texts.suffix, " 3d 4h left");
    let texts = weekly_texts(&section(&app(), times("", "")), &strings(), "", None);
    assert_eq!(texts.resets, " <panel_resets>");
    assert_eq!(texts.percent, "--");
    assert_eq!(texts.suffix, " -- left");
}

#[test]
fn row_is_taken_apart_at_the_dot() {
    let row = |text: &str, reset: &str| {
        let texts = row_texts(text, reset);
        (texts.percent, texts.right)
    };
    let pair = |a: &str, b: &str| (a.to_string(), b.to_string());
    assert_eq!(
        row("84% \u{b7} 2h30m", "3:45 PM"),
        pair("84%", "resets at 3:45 PM \u{b7} 2h30m")
    );
    assert_eq!(row("84% \u{b7} 2h30m", ""), pair("84%", "2h30m"));
    assert_eq!(row("84%", "3:45 PM"), pair("84%", "resets at 3:45 PM"));
    assert_eq!(row("...", ""), pair("...", ""));
}

#[test]
fn tooltips_tell_both_windows() {
    assert_eq!(reset_tooltip_suffix("", ""), "");
    assert_eq!(reset_tooltip_suffix("a", ""), "\nReset: 5h a / 7d ");
    let shell = with_answer();
    assert_eq!(
        tray_tooltip("Model", &state(&shell).figures, "a", "b"),
        "Model 5h: 86% \u{b7} 2h | 7d: 55% \u{b7} 3d\nReset: 5h a / 7d b"
    );
    let icons = tray_icon_data_from_state(&shell, &strings(), &times("a", "b"));
    assert_eq!(icons.len(), 1);
    assert_eq!(icons[0].kind, TrayIconKind::Claude);
    assert_eq!(icons[0].percent, Some(state(&shell).figures.session_percent));
    assert!(icons[0].tooltip.starts_with("<claude_code_model> 5h: 86%"));
}

#[test]
fn tray_icon_without_figures_shows_the_title() {
    let mut shell = app();
    let icons = tray_icon_data_from_state(&shell, &strings(), &times("a", "b"));
    assert_eq!(icons.len(), 1);
    assert_eq!(icons[0].kind, TrayIconKind::Claude);
    assert_eq!(icons[0].percent, None);
    assert_eq!(icons[0].tooltip, "<window_title>");
    state_mut(&mut shell).polling.last_poll_ok = true;
    let icons = tray_icon_data_from_state(&shell, &strings(), &times("a", "b"));
    assert_eq!(icons[0].tooltip, "<claude_code_model> 5h: -- | 7d: --");
    state_mut(&mut shell).prefs.show_claude_code = false;
    assert!(tray_icon_data_from_state(&shell, &strings(), &times("", "")).is_empty());
    assert!(tray_icon_data_from_state(&Shell::new(), &strings(), &times("", "")).is_empty());
}

#[test]
fn popup_tells_the_resets_of_good_polls() {
    let data = Some(AppUsageData { claude_code: Some(usage()) });
    assert_eq!(
        build_popup_text("Model", true, true, &data, "a", "b"),
        "Model \u{2014} 5h resets a  \u{b7}  7d resets b"
    );
    assert_eq!(build_popup_text("Model", false, true, &data, "a", "b"), "");
    assert_eq!(build_popup_text("Model", true, false, &data, "a", "b"), "");
    assert_eq!(build_popup_text("Model", true, true, &None, "a", "b"), "");
    assert_eq!(build_popup_text("Model", true, true, &data, "", ""), "");
    assert_ne!(build_popup_text("Model", true, true, &data, "", "b"), "");
}

#[test]
fn popup_needs_text_and_a_window() {
    let mut shell = with_answer();
    assert_eq!(show_hover_popup(&mut shell, "Model", &times("a", "b")), None);
    assert!(state(&shell).popup_text.starts_with("Model \u{2014} 5h"));
    state_mut(&mut shell).windows.popup_hwnd = Some(8);
    assert_eq!(show_hover_popup(&mut shell, "Model", &times("a", "b")), Some(8));
    assert_eq!(show_hover_popup(&mut shell, "Model", &times("", "")), None);
    assert_eq!(state(&shell).popup_text, "");
    assert_eq!(show_hover_popup(&mut Shell::new(), "Model", &times("a", "b")), None);
}

#[test]
fn sections_tell_of_the_model() {
    let shell = with_answer();
    let s = section(&shell, times("a", "b"));
    assert_eq!(s.name, "<claude_code_model>");
    assert_eq!(s.session_state, SessionState::SlowingDown);
    assert_eq!(s.session.status, PanelUsageStatus::NearLimit);
    assert_eq!(s.session.reset_time, "a");
    assert_eq!(s.session.resets_at, Some(Timestamp { nanos: 5 }));
    assert_eq!(s.weekly.status, PanelUsageStatus::Caution);
    assert_eq!(s.weekly.reset_time, "b");
    assert_eq!(s.issue, None);
    assert_eq!(s.user_label.as_deref(), Some("max"));
    assert_eq!(s.email.as_deref(), Some("user@example.com"));
    assert_eq!(s.message_count, Some(1234));
    assert_eq!(s.token_count, Some(9_876_543));
    let mut failed = with_answer();
    let p = &mut state_mut(&mut failed).polling;
    p.last_poll_ok = false;
    p.last_poll_status = Some(UsagePollStatus::RequestFailed);
    assert_eq!(section(&failed, times("", "")).issue, Some(PanelIssue::Network));
    let mut partial = with_answer();
    state_mut(&mut partial).figures.data = Some(AppUsageData::default());
    let s = section(&partial, times("", ""));
    assert_eq!(s.issue, Some(PanelIssue::Partial));
    assert_eq!(s.session.status, PanelUsageStatus::Unknown);
    state_mut(&mut partial).prefs.show_claude_code = false;
    assert!(panel_model_sections(state(&partial), &strings(), times("", "")).is_empty());
}

#[test]
fn panel_is_made_up_for_its_width() {
    let mut shell = with_answer();
    let s = state_mut(&mut shell);
    s.prefs.panel_pinned = true;
    s.panel.hot_button = Some(PanelButtonId::Refresh);
    s.shimmer_phase = true;
    let now = Timestamp { nanos: 0 };
    let view =
        paint_panel(&mut shell, &strings(), times("a", "b"), false, 390, 228, now, 96).unwrap();
    assert!(view.is_dark && view.bright);
    assert_eq!(view.status, "<panel_waiting_for_data>");
    assert_eq!(view.plan, "max");
    assert_eq!(view.sections.len(), 1);
    assert_eq!(view.buttons.len(), 3);
    let colors = PanelColors::new(true);
    assert_eq!(view.buttons[0].look.icon, Color::new(0xD9, 0x77, 0x57));
    assert_eq!(view.buttons[1].look.icon, colors.muted);
    assert_eq!(view.buttons[1].look.background, None);
    assert_eq!(view.buttons[2].look.icon, colors.text);
    assert_eq!(view.buttons[2].look.background, Some(colors.bg_soft));
    assert_eq!(view.buttons[2].label, "\u{E72C}");
    assert_eq!(view.buttons[2].rect, Rect { left: 353, top: 11, right: 385, bottom: 39 });
    assert_eq!(state(&shell).panel.buttons.len(), 3);
    assert!(state(&shell).panel.buttons[0].selected);
}

#[test]
fn panel_without_a_state_waits() {
    let now = Timestamp { nanos: 0 };
    let mut shell = Shell::new();
    let view =
        paint_panel(&mut shell, &strings(), times("", ""), true, 390, 228, now, 96).unwrap();
    assert!(view.is_dark && !view.bright);
    assert_eq!(view.status, "<panel_waiting_for_data>");
    assert_eq!(view.plan, "PRO");
    assert!(view.sections.is_empty() && view.buttons.is_empty());
}

#[test]
fn empty_area_shows_nothing_and_leaves_the_buttons() {
    let now = Timestamp { nanos: 0 };
    let mut shell = with_answer();
    for (width, height) in [(0, 228), (390, 0), (-1, 228), (390, -1), (i32::MIN, i32::MIN)] {
        let view =
            paint_panel(&mut shell, &strings(), times("a", "b"), false, width, height, now, 96);
        assert!(view.is_none());
        assert!(state(&shell).panel.buttons.is_empty());
        assert!(paint(&shell, width, height).is_none());
        let mut bare = Shell::new();
        assert!(
            paint_panel(&mut bare, &strings(), times("", ""), true, width, height, now, 96)
                .is_none()
        );
    }
    assert!(paint_panel(&mut shell, &strings(), times("a", "b"), false, 1, 1, now, 96).is_some());
    assert_eq!(state(&shell).panel.buttons.len(), 3);
    assert!(paint(&shell, 1, 1).is_some());
}

#[test]
fn widget_is_rendered_as_it_stands() {
    assert!(matches!(render_layered(&Shell::new()), Rendering::Nothing));
    assert!(paint(&Shell::new(), 200, 40).is_none());
    let mut shell = with_answer();
    assert!(matches!(render_layered(&shell), Rendering::Invalidate));
    state_mut(&mut shell).embedded = true;
    let Rendering::Layered(view) = render_layered(&shell) else {
        panic!("an embedded widget is layered");
    };
    assert_eq!(view.session_text, "86% \u{b7} 2h");
    assert_eq!(view.colors.accent, PanelColors::new(true).amber);
    assert!(view.show_claude_code && view.is_dark);
    assert_eq!(paint(&shell, 200, 40).unwrap().session_text, "86% \u{b7} 2h");
}

fn entry(id: u16, label: &str, flag: MenuFlag) -> MenuStep {
    MenuStep::Entry { id, label: label.to_string(), flag }
}

fn close(label: &str) -> MenuStep {
    MenuStep::Close { label: label.to_string() }
}

#[test]
fn menu_is_built_in_order() {
    let languages = vec![
        LanguageName { language: LanguageId::English, name: "English" },
        LanguageName { language: LanguageId::Dutch, name: "Nederlands" },
    ];
    let from = MenuSources {
        strings: strings(),
        via_winget: "via winget",
        version: "1.2.3",
        languages: &languages,
        startup: true,
        toggle: 50,
    };
    let (plain, checked) = (MenuFlag::Plain, MenuFlag::Checked);
    let expected = vec![
        entry(1, "<refresh>", plain),
        MenuStep::Open,
        entry(70, "<format_long>", checked),
        entry(71, "<format_short>", plain),
        close("<format>"),
        MenuStep::Open,
        entry(80, "Solid", checked),
        entry(81, "Translucent", plain),
        close("Panel Background"),
        MenuStep::Open,
        entry(10, "<one_minute>", plain),
        entry(11, "<five_minutes>", plain),
        entry(12, "<fifteen_minutes>", checked),
        entry(13, "<one_hour>", plain),
        close("<update_frequency>"),
        MenuStep::Open,
        entry(60, "<claude_code_model>", checked),
        close("<models>"),
        MenuStep::Open,
        entry(20, "<start_with_windows>", checked),
        entry(30, "<reset_position>", plain),
        MenuStep::Open,
        entry(40, "<system_default>", checked),
        entry(41, "English", plain),
        entry(42, "Nederlands", plain),
        close("<language>"),
        MenuStep::Separator,
        entry(31, "v1.2.3 - <check_for_updates>", plain),
        close("<settings>"),
        entry(50, "<show_widget>", checked),
        MenuStep::Separator,
        entry(2, "<exit>", plain),
    ];
    assert_eq!(show_context_menu(&app(), &from), expected);
    assert_eq!(show_context_menu(&Shell::new(), &from), expected);
}

#[test]
fn menu_follows_the_state() {
    let languages = vec![LanguageName { language: LanguageId::Dutch, name: "Nederlands" }];
    let from = MenuSources {
        strings: strings(),
        via_winget: "via winget",
        version: "1.2.3",
        languages: &languages,
        startup: false,
        toggle: 50,
    };
    let mut shell = app();
    let s = state_mut(&mut shell);
    s.prefs.language_override = Some(LanguageId::Dutch);
    s.prefs.widget_visible = false;
    s.update_status = UpdateStatus::Checking;
    let menu = show_context_menu(&shell, &from);
    assert!(menu.contains(&entry(40, "<system_default>", MenuFlag::Plain)));
    assert!(menu.contains(&entry(42, "Nederlands", MenuFlag::Checked)));
    assert!(menu.contains(&entry(50, "<show_widget>", MenuFlag::Plain)));
    assert!(menu.contains(&entry(20, "<start_with_windows>", MenuFlag::Plain)));
    assert!(menu.contains(&entry(31, "v1.2.3 - <checking_for_updates>", MenuFlag::Grayed)));
}
