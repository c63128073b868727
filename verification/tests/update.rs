use usage_monitor::launch::first_state;
use usage_monitor::localization::LanguageId;
use usage_monitor::localization::Strings;
use usage_monitor::settings::SettingsFile;
use usage_monitor::state::interface_language;
use usage_monitor::state::update_in_progress;
use usage_monitor::state::Action;
use usage_monitor::state::AppState;
use usage_monitor::state::InstallChannel;
use usage_monitor::state::Notice;
use usage_monitor::state::ReleaseDescriptor;
use usage_monitor::state::Shell;
use usage_monitor::state::TimerKind;
use usage_monitor::state::UpdateStatus;
use usage_monitor::update::auto_update_check_due;
use usage_monitor::update::begin_update_apply;
use usage_monitor::update::begin_update_check;
use usage_monitor::update::finish_update_apply;
use usage_monitor::update::finish_update_check;
use usage_monitor::update::finish_winget_update;
use usage_monitor::update::notice_text;
use usage_monitor::update::schedule_auto_update_check;
use usage_monitor::update::update_failure_text;
use usage_monitor::update::update_prompt_answered;
use usage_monitor::update::update_prompt_text;
use usage_monitor::update::version_action_label;
use usage_monitor::update::UpdateOutcome;

fn strings() -> Strings {
    Strings {
        window_title: "<window_title>",
        claude_code_model: "<claude_code_model>",
        refresh: "<refresh>",
        settings: "<settings>",
        format: "<format>",
        format_long: "<format_long>",
        format_short: "<format_short>",
        update_frequency: "<update_frequency>",
        one_minute: "<one_minute>",
        five_minutes: "<five_minutes>",
        fifteen_minutes: "<fifteen_minutes>",
        one_hour: "<one_hour>",
        models: "<models>",
        start_with_windows: "<start_with_windows>",
        reset_position: "<reset_position>",
        language: "<language>",
        system_default: "<system_default>",
        show_widget: "<show_widget>",
        exit: "<exit>",
        updates: "<updates>",
        check_for_updates: "<check_for_updates>",
        checking_for_updates: "<checking_for_updates>",
        applying_update: "<applying_update>",
        up_to_date: "<up_to_date>",
        up_to_date_short: "<up_to_date_short>",
        update_to: "<update_to>",
        update_available: "<update_available>",
        update_failed: "<update_failed>",
        update_in_progress: "<update_in_progress>",
        update_prompt_now: "<update_prompt_now>",
        token_expired_title: "<token_expired_title>",
        token_expired_body: "<token_expired_body>",
        now: "<now>",
        minute_suffix: "<minute_suffix>",
        hour_suffix: "<hour_suffix>",
        panel_waiting_for_data: "<panel_waiting_for_data>",
        panel_error_missing_credentials: "<panel_error_missing_credentials>",
        panel_error_token_expired: "<panel_error_token_expired>",
        panel_retrying: "<panel_retrying>",
        panel_last_known_data: "<panel_last_known_data>",
        panel_weekly_label: "<panel_weekly_label>",
        panel_resets: "<panel_resets>",
        panel_timer_until_reset: "<panel_timer_until_reset>",
        panel_timer_left_session: "<panel_timer_left_session>",
    }
}

fn app() -> Shell {
    let mut shell = Shell::new();
    shell.app = Some(first_state(
        100,
        true,
        &SettingsFile::default(),
        None,
        LanguageId::English,
        InstallChannel::Portable,
    ));
    shell
}

fn state(shell: &Shell) -> &AppState {
    shell.app.as_ref().unwrap()
}

fn state_mut(shell: &mut Shell) -> &mut AppState {
    shell.app.as_mut().unwrap()
}

fn release() -> ReleaseDescriptor {
    ReleaseDescriptor { latest_version: "2.0.0".to_string(), id: 4 }
}

const DAY: u64 = 86_400;

#[test]
fn search_is_due_after_a_day() {
    assert!(auto_update_check_due(None, 0));
    assert!(!auto_update_check_due(Some(1000), 1000 + DAY - 1));
    assert!(auto_update_check_due(Some(1000), 1000 + DAY));
    assert!(!auto_update_check_due(Some(1000), 0));
}

#[test]
fn timer_of_the_next_search_is_set() {
    let mut shell = app();
    let kill = || Action::KillTimer(TimerKind::UpdateCheck);
    let set = |ms: u32| Action::SetTimer { timer: TimerKind::UpdateCheck, ms };
    assert_eq!(schedule_auto_update_check(&shell, 5), vec![kill()]);
    state_mut(&mut shell).prefs.last_update_check_unix = Some(1000);
    assert_eq!(schedule_auto_update_check(&shell, 1000), vec![kill(), set(86_400_000)]);
    assert_eq!(schedule_auto_update_check(&shell, 999), vec![kill(), set(86_400_000)]);
    assert_eq!(schedule_auto_update_check(&shell, 1000 + DAY - 1), vec![kill(), set(1000)]);
    assert_eq!(schedule_auto_update_check(&shell, 1000 + DAY), vec![kill()]);
    assert!(schedule_auto_update_check(&Shell::new(), 0).is_empty());
}

#[test]
fn one_search_runs_at_a_time() {
    let mut shell = app();
    assert_eq!(
        begin_update_check(&mut shell, true),
        vec![Action::SpawnUpdateCheck {
            interactive: true,
            channel: InstallChannel::Portable,
            language: LanguageId::English,
        }]
    );
    assert!(update_in_progress(&state(&shell).update_status));
    assert!(begin_update_check(&mut shell, false).is_empty());
    let refusal = vec![Action::ShowNotice {
        notice: Notice::UpdateInProgress,
        language: LanguageId::English,
    }];
    assert_eq!(begin_update_check(&mut shell, true), refusal);
    assert_eq!(begin_update_apply(&mut shell, release()), refusal);
    assert!(begin_update_check(&mut Shell::new(), true).is_empty());
}

#[test]
fn outcomes_of_a_search_are_recorded() {
    let finish = |shell: &mut Shell, outcome: UpdateOutcome, interactive: bool| {
        finish_update_check(
            shell,
            outcome,
            77,
            interactive,
            InstallChannel::Winget,
            LanguageId::Dutch,
        )
    };
    let mut shell = app();
    assert_eq!(
        finish(&mut shell, UpdateOutcome::UpToDate, true),
        vec![
            Action::SaveSettings,
            Action::ShowNotice { notice: Notice::UpToDate, language: LanguageId::Dutch },
            Action::PostUpdateCheckComplete
        ]
    );
    assert_eq!(state(&shell).update_status, UpdateStatus::UpToDate);
    assert_eq!(state(&shell).prefs.last_update_check_unix, Some(77));
    assert_eq!(
        finish(&mut shell, UpdateOutcome::Available(release()), true),
        vec![
            Action::SaveSettings,
            Action::PromptUpdate {
                release: release(),
                channel: InstallChannel::Winget,
                language: LanguageId::Dutch,
            },
            Action::PostUpdateCheckComplete
        ]
    );
    assert_eq!(state(&shell).update_status, UpdateStatus::Available(release()));
    assert_eq!(
        finish(&mut shell, UpdateOutcome::Failed("offline".to_string()), true),
        vec![
            Action::SaveSettings,
            Action::ShowUpdateError {
                language: LanguageId::Dutch,
                error: "offline".to_string(),
            },
            Action::PostUpdateCheckComplete
        ]
    );
    assert_eq!(state(&shell).update_status, UpdateStatus::Idle);
    assert_eq!(
        finish(&mut shell, UpdateOutcome::Available(release()), false),
        vec![Action::SaveSettings, Action::PostUpdateCheckComplete]
    );
    assert_eq!(finish(&mut Shell::new(), UpdateOutcome::UpToDate, false).len(), 2);
}

#[test]
fn accepted_releases_are_installed() {
    assert_eq!(
        update_prompt_answered(true, InstallChannel::Portable, release()),
        vec![Action::BeginUpdateApply(release())]
    );
    assert_eq!(
        update_prompt_answered(true, InstallChannel::Winget, release()),
        vec![Action::BeginWingetUpdate]
    );
    assert!(update_prompt_answered(false, InstallChannel::Winget, release()).is_empty());
}

#[test]
fn failed_installations_offer_the_release_again() {
    let mut shell = app();
    assert_eq!(
        begin_update_apply(&mut shell, release()),
        vec![Action::SpawnUpdateApply {
            release: release(),
            language: LanguageId::English,
        }]
    );
    assert_eq!(state(&shell).update_status, UpdateStatus::Applying);
    let failed = finish_update_apply(
        &mut shell,
        Some("denied".to_string()),
        release(),
        LanguageId::English,
    );
    assert_eq!(
        failed,
        vec![
            Action::ShowUpdateError {
                language: LanguageId::English,
                error: "denied".to_string(),
            },
            Action::PostUpdateCheckComplete
        ]
    );
    assert_eq!(state(&shell).update_status, UpdateStatus::Available(release()));
    begin_update_apply(&mut shell, release());
    assert_eq!(
        finish_update_apply(&mut shell, None, release(), LanguageId::English),
        vec![Action::PostClose]
    );
    assert_eq!(state(&shell).update_status, UpdateStatus::Applying);
}

#[test]
fn winget_updates_close_the_program() {
    assert_eq!(finish_winget_update(None, LanguageId::English), vec![Action::PostClose]);
    assert_eq!(
        finish_winget_update(Some("missing".to_string()), LanguageId::French),
        vec![Action::ShowUpdateError {
            language: LanguageId::French,
            error: "missing".to_string(),
        }]
    );
    assert_eq!(interface_language(&Shell::new()), LanguageId::English);
    let mut shell = app();
    state_mut(&mut shell).language = LanguageId::French;
    assert_eq!(interface_language(&shell), LanguageId::French);
}

#[test]
fn messages_are_worded() {
    assert_eq!(
        notice_text(Notice::UpdateInProgress, &strings()),
        ("<updates>", "<update_in_progress>")
    );
    assert_eq!(notice_text(Notice::UpToDate, &strings()), ("<updates>", "<up_to_date>"));
    assert_eq!(update_failure_text(&strings(), "offline"), "<update_failed>.\n\noffline");
    let mut phrases = strings();
    phrases.update_prompt_now = "Install {version}? ({version})";
    assert_eq!(update_prompt_text(&phrases, &release()), "Install 2.0.0? (2.0.0)");
}

#[test]
fn version_entry_tells_the_status() {
    let label = |channel, status: UpdateStatus| {
        version_action_label(&strings(), "winget", channel, &status, "1.0")
    };
    let portable = InstallChannel::Portable;
    assert_eq!(label(portable, UpdateStatus::Idle), "v1.0 - <check_for_updates>");
    assert_eq!(label(portable, UpdateStatus::Checking), "v1.0 - <checking_for_updates>");
    assert_eq!(label(portable, UpdateStatus::Applying), "v1.0 - <applying_update>");
    assert_eq!(label(portable, UpdateStatus::UpToDate), "v1.0 - <up_to_date_short>");
    assert_eq!(
        label(portable, UpdateStatus::Available(release())),
        "v1.0 - <update_to> v2.0.0"
    );
    assert_eq!(
        label(InstallChannel::Winget, UpdateStatus::Available(release())),
        "v1.0 - winget v2.0.0"
    );
}
