use usage_monitor::launch::first_state;
use usage_monitor::localization::LanguageId;
use usage_monitor::models::AppUsageData;
use usage_monitor::models::Percent;
use usage_monitor::models::Timestamp;
use usage_monitor::models::UsageData;
use usage_monitor::poll::auth_watch_mode_after;
use usage_monitor::poll::credentials_sampled;
use usage_monitor::poll::on_poll_timer;
use usage_monitor::poll::on_reset_poll_timer;
use usage_monitor::poll::poll_error_status;
use usage_monitor::poll::poll_failed;
use usage_monitor::poll::poll_succeeded;
use usage_monitor::poll::polls_model;
use usage_monitor::poll::refresh_usage_texts;
use usage_monitor::poll::retry_delay_ms;
use usage_monitor::poll::schedule_countdown_timer;
use usage_monitor::poll::update_display;
use usage_monitor::poll::PollError;
use usage_monitor::poll::UsageLines;
use usage_monitor::settings::SettingsFile;
use usage_monitor::state::Action;
use usage_monitor::state::AppState;
use usage_monitor::state::CredentialWatchMode;
use usage_monitor::state::InstallChannel;
use usage_monitor::state::Shell;
use usage_monitor::state::TimerKind;
use usage_monitor::state::TrayIconKind;
use usage_monitor::state::UsagePollStatus;

fn app(settings: &SettingsFile) -> Shell {
    let mut shell = Shell::new();
    shell.app = Some(first_state(
        100,
        true,
        settings,
        None,
        LanguageId::English,
        InstallChannel::Portable,
    ));
    shell
}

fn state(shell: &Shell) -> &AppState {
    shell.app.as_ref().unwrap()
}

fn state_mut(shell: &mut Shell) -> &mut AppState {
    shell.app.as_mut().unwrap()
}

fn lines() -> UsageLines {
    UsageLines { session: "84% \u{b7} 2h".to_string(), weekly: "12% \u{b7} 3d".to_string() }
}

fn answer(session: f64, weekly: f64) -> AppUsageData {
    let mut usage = UsageData::default();
    usage.session.percentage = Percent { bits: session.to_bits() };
    usage.session.resets_at = Some(Timestamp { nanos: 99 });
    usage.weekly.percentage = Percent { bits: weekly.to_bits() };
    AppUsageData { claude_code: Some(usage) }
}

const AT: Timestamp = Timestamp { nanos: 1000 };

#[test]
fn answers_are_recorded() {
    let mut shell = app(&SettingsFile::default());
    let actions = poll_succeeded(&mut shell, answer(84.0, 12.0), AT, false, lines());
    assert_eq!(
        actions,
        vec![Action::KillTimer(TimerKind::ResetPoll), Action::PostUsageUpdated]
    );
    let s = state(&shell);
    assert_eq!(s.figures.session_percent.bits, 84.0f64.to_bits());
    assert_eq!(s.figures.weekly_percent.bits, 12.0f64.to_bits());
    assert_eq!(s.figures.session_text, "84% \u{b7} 2h");
    assert_eq!(s.figures.weekly_text, "12% \u{b7} 3d");
    assert_eq!(s.figures.session_resets_at, Some(Timestamp { nanos: 99 }));
    assert!(s.polling.last_poll_ok);
    assert_eq!(s.polling.last_poll_at, Some(AT));
    assert_eq!(s.polling.last_poll_status, Some(UsagePollStatus::Success));
    let actions = poll_succeeded(&mut shell, answer(84.0, 12.0), AT, true, lines());
    assert_eq!(actions, vec![Action::PostUsageUpdated]);
}

#[test]
fn answer_without_the_model_is_marked() {
    let mut shell = app(&SettingsFile::default());
    poll_succeeded(&mut shell, answer(84.0, 12.0), AT, true, lines());
    poll_succeeded(&mut shell, AppUsageData::default(), AT, true, lines());
    let s = state(&shell);
    assert_eq!(s.figures.session_percent, Percent::zero());
    assert_eq!(s.figures.session_text, "!");
    assert_eq!(s.figures.weekly_text, "!");
    assert_eq!(s.figures.session_resets_at, None);
}

#[test]
fn answer_without_a_hidden_model_changes_no_figure() {
    let hidden = SettingsFile { show_claude_code: false, ..SettingsFile::default() };
    let mut shell = app(&hidden);
    poll_succeeded(&mut shell, answer(84.0, 12.0), AT, true, lines());
    poll_succeeded(&mut shell, AppUsageData::default(), AT, true, lines());
    let s = state(&shell);
    assert_eq!(s.figures.session_percent.bits, 84.0f64.to_bits());
    assert_eq!(s.figures.session_text, "84% \u{b7} 2h");
    assert!(!polls_model(&shell));
    assert!(polls_model(&Shell::new()));
}

#[test]
fn success_after_failures_restores_the_interval() {
    let mut shell = app(&SettingsFile::default());
    poll_failed(&mut shell, PollError::RequestFailed, AT, vec![]);
    assert_eq!(state(&shell).polling.retry_count, 1);
    let actions = poll_succeeded(&mut shell, answer(1.0, 1.0), AT, true, lines());
    assert_eq!(
        actions,
        vec![
            Action::SetTimer { timer: TimerKind::Poll, ms: 900_000 },
            Action::PostUsageUpdated
        ]
    );
    assert_eq!(state(&shell).polling.retry_count, 0);
}

#[test]
fn network_failures_are_tried_again_at_growing_intervals() {
    let mut shell = app(&SettingsFile::default());
    for ms in [30_000, 60_000, 120_000, 240_000, 480_000, 900_000, 900_000] {
        let actions = poll_failed(&mut shell, PollError::RequestFailed, AT, vec![]);
        assert_eq!(
            actions,
            vec![
                Action::KillTimer(TimerKind::ResetPoll),
                Action::SetTimer { timer: TimerKind::Poll, ms },
                Action::PostUsageUpdated
            ]
        );
    }
    let s = state(&shell);
    assert_eq!(s.figures.session_text, "...");
    assert_eq!(s.figures.weekly_text, "...");
    assert!(!s.polling.last_poll_ok);
    assert_eq!(s.polling.last_poll_status, Some(UsagePollStatus::RequestFailed));
}

#[test]
fn retry_delays_saturate() {
    assert_eq!(retry_delay_ms(1, 900_000), 30_000);
    assert_eq!(retry_delay_ms(1, 10_000), 10_000);
    assert_eq!(retry_delay_ms(7, u32::MAX), 1_920_000);
    assert_eq!(retry_delay_ms(17, u32::MAX), 1_966_080_000);
    assert_eq!(retry_delay_ms(18, u32::MAX), 3_932_160_000);
    assert_eq!(retry_delay_ms(19, u32::MAX), u32::MAX);
    assert_eq!(retry_delay_ms(33, 900_000), 900_000);
    assert_eq!(retry_delay_ms(u32::MAX, 900_000), 900_000);
}

#[test]
fn retry_count_saturates() {
    let mut shell = app(&SettingsFile::default());
    state_mut(&mut shell).polling.retry_count = u32::MAX;
    poll_failed(&mut shell, PollError::RequestFailed, AT, vec![]);
    assert_eq!(state(&shell).polling.retry_count, u32::MAX);
}

#[test]
fn credential_failures_are_told_once() {
    let mut shell = app(&SettingsFile::default());
    let timers = vec![
        Action::KillTimer(TimerKind::Poll),
        Action::KillTimer(TimerKind::ResetPoll),
        Action::KillTimer(TimerKind::Countdown),
        Action::SetTimer { timer: TimerKind::Poll, ms: 900_000 },
    ];
    let mut first = poll_failed(&mut shell, PollError::AuthRequired, AT, vec!["a".to_string()]);
    assert_eq!(first.split_off(4), vec![
        Action::NotifyAuthError { kind: TrayIconKind::Claude, language: LanguageId::English },
        Action::PostUsageUpdated
    ]);
    assert_eq!(first, timers);
    let s = state(&shell);
    assert_eq!(s.figures.session_text, "!");
    assert!(s.polling.auth_error_paused_polling);
    assert_eq!(s.polling.auth_watch_mode, CredentialWatchMode::ActiveSource);
    assert_eq!(s.polling.auth_watch_snapshot, vec!["a".to_string()]);
    let mut second = poll_failed(&mut shell, PollError::NoCredentials, AT, vec![]);
    assert_eq!(second.split_off(4), vec![Action::PostUsageUpdated]);
    assert_eq!(state(&shell).polling.auth_watch_mode, CredentialWatchMode::AllSources);
    state_mut(&mut shell).polling.force_notify_auth_error = true;
    let mut third = poll_failed(&mut shell, PollError::TokenExpired, AT, vec![]);
    assert_eq!(third.split_off(4).len(), 2);
    assert!(!state(&shell).polling.force_notify_auth_error);
}

#[test]
fn each_failure_has_its_status() {
    assert_eq!(poll_error_status(PollError::AuthRequired), UsagePollStatus::AuthRequired);
    assert_eq!(poll_error_status(PollError::NoCredentials), UsagePollStatus::NoCredentials);
    assert_eq!(poll_error_status(PollError::TokenExpired), UsagePollStatus::TokenExpired);
    assert_eq!(poll_error_status(PollError::RequestFailed), UsagePollStatus::RequestFailed);
    assert_eq!(
        auth_watch_mode_after(PollError::TokenExpired),
        Some(CredentialWatchMode::ActiveSource)
    );
    assert_eq!(
        auth_watch_mode_after(PollError::NoCredentials),
        Some(CredentialWatchMode::AllSources)
    );
    assert_eq!(auth_watch_mode_after(PollError::RequestFailed), None);
}

#[test]
fn failures_keep_the_last_answer() {
    let mut shell = app(&SettingsFile::default());
    poll_succeeded(&mut shell, answer(84.0, 12.0), AT, true, lines());
    poll_failed(&mut shell, PollError::RequestFailed, AT, vec![]);
    update_display(&mut shell, lines());
    let s = state(&shell);
    assert!(s.figures.data.is_some());
    assert_eq!(s.figures.session_percent.bits, 84.0f64.to_bits());
    assert_eq!(s.figures.session_text, "...");
}

#[test]
fn refreshing_texts_twice_is_refreshing_once() {
    let mut shell = app(&SettingsFile::default());
    poll_succeeded(&mut shell, answer(84.0, 12.0), AT, true, lines());
    let figures = &mut state_mut(&mut shell).figures;
    let other = || UsageLines { session: "a".to_string(), weekly: "b".to_string() };
    refresh_usage_texts(figures, true, true, other());
    refresh_usage_texts(figures, true, true, other());
    assert_eq!((figures.session_text.as_str(), figures.weekly_text.as_str()), ("a", "b"));
    refresh_usage_texts(figures, false, true, lines());
    assert_eq!(figures.session_text, "a");
}

#[test]
fn without_a_state_polls_only_tell_the_window() {
    let mut shell = Shell::new();
    assert_eq!(
        poll_succeeded(&mut shell, answer(1.0, 1.0), AT, false, lines()),
        vec![Action::PostUsageUpdated]
    );
    assert_eq!(
        poll_failed(&mut shell, PollError::AuthRequired, AT, vec![]),
        vec![Action::PostUsageUpdated]
    );
    assert!(on_poll_timer(&shell).is_empty());
    assert!(on_reset_poll_timer(&shell).is_empty());
    assert!(schedule_countdown_timer(&shell, true, None, None).is_empty());
}

#[test]
fn poll_timer_waits_for_the_credentials_to_change() {
    let mut shell = app(&SettingsFile::default());
    assert_eq!(on_poll_timer(&shell), vec![Action::SpawnPoll]);
    assert_eq!(on_reset_poll_timer(&shell), vec![Action::SpawnPoll]);
    poll_failed(&mut shell, PollError::AuthRequired, AT, vec!["old".to_string()]);
    assert_eq!(
        on_poll_timer(&shell),
        vec![Action::SampleCredentials {
            mode: CredentialWatchMode::ActiveSource,
            previous: vec!["old".to_string()],
        }]
    );
    assert!(on_reset_poll_timer(&shell).is_empty());
    let same = credentials_sampled(
        &mut shell,
        CredentialWatchMode::ActiveSource,
        vec!["old".to_string()],
        vec!["old".to_string()],
    );
    assert!(same.is_empty());
    let changed = credentials_sampled(
        &mut shell,
        CredentialWatchMode::ActiveSource,
        vec!["old".to_string()],
        vec!["new".to_string()],
    );
    assert_eq!(changed, vec![Action::SpawnPoll]);
    assert_eq!(state(&shell).polling.auth_watch_snapshot, vec!["new".to_string()]);
    let other = credentials_sampled(
        &mut shell,
        CredentialWatchMode::AllSources,
        vec!["old".to_string()],
        vec!["newer".to_string(), "two".to_string()],
    );
    assert_eq!(other, vec![Action::SpawnPoll]);
    assert_eq!(state(&shell).polling.auth_watch_snapshot, vec!["new".to_string()]);
}

#[test]
fn countdowns_are_drawn_again_in_time() {
    let mut shell = app(&SettingsFile::default());
    assert_eq!(
        schedule_countdown_timer(&shell, false, None, None),
        vec![
            Action::KillTimer(TimerKind::Countdown),
            Action::KillTimer(TimerKind::ResetPoll)
        ]
    );
    poll_succeeded(&mut shell, answer(1.0, 1.0), AT, true, lines());
    let set = |ms: u32| Action::SetTimer { timer: TimerKind::Countdown, ms };
    let wait = |a, b| schedule_countdown_timer(&shell, false, a, b);
    assert_eq!(wait(None, None), vec![set(60_000)]);
    assert_eq!(wait(Some(5_000), None), vec![set(5_000)]);
    assert_eq!(wait(Some(5_000), Some(4_000)), vec![set(4_000)]);
    assert_eq!(wait(None, Some(10)), vec![set(1_000)]);
    assert_eq!(wait(Some(0x1_0000_0001), None), vec![set(1)]);
    assert_eq!(
        schedule_countdown_timer(&shell, true, Some(2_000), None),
        vec![Action::SetTimer { timer: TimerKind::ResetPoll, ms: 5_000 }, set(2_000)]
    );
    state_mut(&mut shell).figures.data = None;
    assert!(schedule_countdown_timer(&shell, true, None, None).is_empty());
}
