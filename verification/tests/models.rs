use usage_monitor::models::AppUsageData;
use usage_monitor::models::Percent;
use usage_monitor::models::Timestamp;
use usage_monitor::models::UsageData;
use usage_monitor::models::UsageSection;
use usage_monitor::sections::panel_issue_from_poll_status;
use usage_monitor::sections::panel_model_issue;
use usage_monitor::sections::panel_usage_status;
use usage_monitor::sections::panel_usage_window;
use usage_monitor::sections::state_from_utilization;
use usage_monitor::sections::PanelIssue;
use usage_monitor::sections::PanelUsageStatus;
use usage_monitor::sections::SessionState;
use usage_monitor::state::UsagePollStatus;

fn percent(p: f64) -> Percent {
    Percent { bits: p.to_bits() }
}

#[test]
fn thresholds_agree_with_floating_point() {
    let figures = [
        0.0,
        -0.0,
        1e-320,
        0.5,
        39.999999999999,
        40.0,
        49.9,
        50.0,
        79.99,
        80.0,
        84.99999999999999,
        85.0,
        99.99999999999999,
        100.0,
        100.1,
        1e300,
        f64::INFINITY,
        f64::NEG_INFINITY,
        f64::NAN,
        -5.0,
        f64::MIN_POSITIVE,
        f64::MAX,
    ];
    for p in figures {
        for threshold in [1, 40, 50, 80, 85, 100, u32::MAX] {
            assert_eq!(
                percent(p).at_least(threshold),
                p >= threshold as f64,
                "{p} against {threshold}"
            );
        }
    }
    assert_eq!(Percent::zero(), percent(0.0));
}

#[test]
fn sessions_go_through_their_states() {
    assert_eq!(state_from_utilization(None), SessionState::PlentyLeft);
    assert_eq!(state_from_utilization(Some(percent(0.0))), SessionState::PlentyLeft);
    assert_eq!(state_from_utilization(Some(percent(39.9))), SessionState::PlentyLeft);
    assert_eq!(state_from_utilization(Some(percent(40.0))), SessionState::GoingSteady);
    assert_eq!(state_from_utilization(Some(percent(85.0))), SessionState::SlowingDown);
    assert_eq!(state_from_utilization(Some(percent(100.0))), SessionState::Capped);
    assert_eq!(state_from_utilization(Some(percent(250.0))), SessionState::Capped);
    assert_eq!(state_from_utilization(Some(percent(f64::NAN))), SessionState::PlentyLeft);
}

#[test]
fn windows_near_their_limits_are_told() {
    assert_eq!(panel_usage_status(None), PanelUsageStatus::Unknown);
    assert_eq!(panel_usage_status(Some(percent(49.0))), PanelUsageStatus::Normal);
    assert_eq!(panel_usage_status(Some(percent(50.0))), PanelUsageStatus::Caution);
    assert_eq!(panel_usage_status(Some(percent(80.0))), PanelUsageStatus::NearLimit);
    assert_eq!(panel_usage_status(Some(percent(100.0))), PanelUsageStatus::AtLimit);
    let window = panel_usage_window(
        Some(percent(81.0)),
        Some(Timestamp { nanos: 7 }),
        "3:45 PM".to_string(),
    );
    assert_eq!(window.status, PanelUsageStatus::NearLimit);
    assert_eq!(window.reset_time, "3:45 PM");
    assert_eq!(window.resets_at, Some(Timestamp { nanos: 7 }));
    assert_eq!(window.percentage, Some(percent(81.0)));
}

#[test]
fn issues_come_from_the_poll() {
    let of = panel_issue_from_poll_status;
    assert_eq!(of(Some(UsagePollStatus::NoCredentials)), Some(PanelIssue::MissingCredentials));
    assert_eq!(of(Some(UsagePollStatus::AuthRequired)), Some(PanelIssue::TokenExpired));
    assert_eq!(of(Some(UsagePollStatus::TokenExpired)), Some(PanelIssue::TokenExpired));
    assert_eq!(of(Some(UsagePollStatus::RequestFailed)), Some(PanelIssue::Network));
    assert_eq!(of(Some(UsagePollStatus::Success)), None);
    assert_eq!(of(None), None);
    let network = Some(PanelIssue::Network);
    assert_eq!(panel_model_issue(network, false, true), network);
    assert_eq!(panel_model_issue(network, true, false), Some(PanelIssue::Partial));
    assert_eq!(panel_model_issue(network, true, true), None);
}

#[test]
fn defaults_hold_nothing() {
    assert!(AppUsageData::default().claude_code.is_none());
    let usage = UsageData::default();
    for section in [&usage.session, &usage.weekly] {
        assert!(section.message_count.is_none() && section.token_count.is_none());
    }
    assert_eq!(usage.session.percentage, Percent::zero());
    assert!(usage.user_label.is_none() && usage.email.is_none());
    let section = UsageSection::default();
    assert!(section.resets_at.is_none());
    assert!(section.message_count.is_none() && section.token_count.is_none());
}

#[test]
fn seconds_between_moments_are_whole() {
    let start = Timestamp { nanos: 5_000_000_000 };
    assert_eq!(Timestamp { nanos: 65_999_999_999 }.secs_since(&start), 60);
    assert_eq!(Timestamp { nanos: 1 }.secs_since(&start), 0);
    assert!(start.is_in_range());
    assert!(!Timestamp { nanos: i128::MAX }.is_in_range());
}

#[test]
fn negative_percentages_reach_nothing() {
    for p in [-0.0f64, -1.0, -100.0, -1.0e300, f64::NEG_INFINITY] {
        assert!(!Percent { bits: p.to_bits() }.at_least(1));
    }
    assert!(Percent { bits: f64::INFINITY.to_bits() }.at_least(100));
}
