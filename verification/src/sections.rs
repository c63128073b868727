//! What the panel tells of each model: its usage, how far it has got, and what
//! went wrong.

use crate::localization::Strings;
use crate::models::lemma_larger_reaches_as_much;
use crate::models::lemma_reaches_is_monotone;
use crate::models::Percent;
use crate::models::Timestamp;
use crate::models::UsageData;
use crate::poll::usage_of;
use crate::state::AppState;
use crate::state::UsagePollStatus;
use vstd::prelude::*;

verus! {

/// What keeps figures from being shown or from being fresh.
#[derive(Clone, Copy, Debug, PartialEq, Eq, Structural)]
pub enum PanelIssue {
    MissingCredentials,
    TokenExpired,
    Network,
    Partial,
}

/// How near a window is to its limit.
#[derive(Clone, Copy, Debug, PartialEq, Eq, Structural)]
pub enum PanelUsageStatus {
    Normal,
    Caution,
    NearLimit,
    AtLimit,
    Unknown,
}

/// How the session is going.
#[derive(Clone, Copy, Debug, PartialEq, Eq, Structural)]
pub enum SessionState {
    PlentyLeft,
    GoingSteady,
    SlowingDown,
    Capped,
}

/// How a session of that utilization is going; one of unknown utilization has
/// plenty left.
pub open spec fn session_state(percentage: Option<Percent>) -> SessionState {
    match percentage {
        Some(p) => if p.reaches(100) {
            SessionState::Capped
        } else if p.reaches(85) {
            SessionState::SlowingDown
        } else if p.reaches(40) {
            SessionState::GoingSteady
        } else {
            SessionState::PlentyLeft
        },
        None => SessionState::PlentyLeft,
    }
}

/// Tells how a session of that utilization is going.
pub fn state_from_utilization(percentage: Option<Percent>) -> (r: SessionState)
    ensures
        r == session_state(percentage),
        percentage is None ==> r is PlentyLeft,
        percentage matches Some(p) ==> {
            &&& r is Capped <==> p.reaches(100)
            &&& r is SlowingDown <==> p.reaches(85) && !p.reaches(100)
            &&& r is GoingSteady <==> p.reaches(40) && !p.reaches(85)
            &&& r is PlentyLeft <==> !p.reaches(40)
        },
{
    proof {
        if let Some(p) = percentage {
            if p.reaches(100) {
                lemma_reaches_is_monotone(p, 85, 100);
            }
            if p.reaches(85) {
                lemma_reaches_is_monotone(p, 40, 85);
            }
        }
    }
    match percentage {
        Some(p) => if p.at_least(100) {
            SessionState::Capped
        } else if p.at_least(85) {
            SessionState::SlowingDown
        } else if p.at_least(40) {
            SessionState::GoingSteady
        } else {
            SessionState::PlentyLeft
        },
        None => SessionState::PlentyLeft,
    }
}

/// How near a window of that utilization is to its limit.
pub open spec fn usage_status(percentage: Option<Percent>) -> PanelUsageStatus {
    match percentage {
        Some(p) => if p.reaches(100) {
            PanelUsageStatus::AtLimit
        } else if p.reaches(80) {
            PanelUsageStatus::NearLimit
        } else if p.reaches(50) {
            PanelUsageStatus::Caution
        } else {
            PanelUsageStatus::Normal
        },
        None => PanelUsageStatus::Unknown,
    }
}

/// Tells how near a window of that utilization is to its limit.
pub fn panel_usage_status(percentage: Option<Percent>) -> (r: PanelUsageStatus)
    ensures
        r == usage_status(percentage),
        percentage is None ==> r is Unknown,
        percentage matches Some(p) ==> {
            &&& r is AtLimit <==> p.reaches(100)
            &&& r is NearLimit <==> p.reaches(80) && !p.reaches(100)
            &&& r is Caution <==> p.reaches(50) && !p.reaches(80)
            &&& r is Normal <==> !p.reaches(50)
        },
{
    proof {
        if let Some(p) = percentage {
            if p.reaches(100) {
                lemma_reaches_is_monotone(p, 80, 100);
            }
            if p.reaches(80) {
                lemma_reaches_is_monotone(p, 50, 80);
            }
        }
    }
    match percentage {
        Some(p) => if p.at_least(100) {
            PanelUsageStatus::AtLimit
        } else if p.at_least(80) {
            PanelUsageStatus::NearLimit
        } else if p.at_least(50) {
            PanelUsageStatus::Caution
        } else {
            PanelUsageStatus::Normal
        },
        None => PanelUsageStatus::Unknown,
    }
}

/// How far along a state is, from plenty left to the cap.
pub open spec fn severity(state: SessionState) -> int {
    match state {
        SessionState::PlentyLeft => 0,
        SessionState::GoingSteady => 1,
        SessionState::SlowingDown => 2,
        SessionState::Capped => 3,
    }
}

/// A session that has been used more is in no milder state, and a session is
/// capped exactly when its window is at the limit.
pub proof fn lemma_more_use_is_no_milder(a: Percent, b: Percent)
    ensures
        a.at_most(b) ==> severity(session_state(Some(a))) <= severity(session_state(Some(b))),
        session_state(Some(a)) is Capped <==> usage_status(Some(a)) is AtLimit,
{
    if a.at_most(b) {
        if a.reaches(100) {
            lemma_larger_reaches_as_much(a, b, 100);
        } else if a.reaches(85) {
            lemma_larger_reaches_as_much(a, b, 85);
        } else if a.reaches(40) {
            lemma_larger_reaches_as_much(a, b, 40);
        }
    }
}

/// What a failed poll keeps a model from.
pub open spec fn issue_of(status: Option<UsagePollStatus>) -> Option<PanelIssue> {
    match status {
        Some(UsagePollStatus::NoCredentials) => Some(PanelIssue::MissingCredentials),
        Some(UsagePollStatus::AuthRequired) => Some(PanelIssue::TokenExpired),
        Some(UsagePollStatus::TokenExpired) => Some(PanelIssue::TokenExpired),
        Some(UsagePollStatus::RequestFailed) => Some(PanelIssue::Network),
        Some(UsagePollStatus::Success) => None,
        None => None,
    }
}

/// Tells what a failed poll keeps a model from.
pub fn panel_issue_from_poll_status(status: Option<UsagePollStatus>) -> (r: Option<PanelIssue>)
    ensures
        r == issue_of(status),
{
    match status {
        Some(UsagePollStatus::NoCredentials) => Some(PanelIssue::MissingCredentials),
        Some(UsagePollStatus::AuthRequired) => Some(PanelIssue::TokenExpired),
        Some(UsagePollStatus::TokenExpired) => Some(PanelIssue::TokenExpired),
        Some(UsagePollStatus::RequestFailed) => Some(PanelIssue::Network),
        _ => None,
    }
}

/// The issue of one model: that of the failed poll, or that a poll that went
/// well brought nothing for it.
pub open spec fn model_issue(
    base: Option<PanelIssue>,
    poll_ok: bool,
    has_data: bool,
) -> Option<PanelIssue> {
    if !poll_ok {
        base
    } else if !has_data {
        Some(PanelIssue::Partial)
    } else {
        None
    }
}

/// Tells the issue of one model.
pub fn panel_model_issue(base: Option<PanelIssue>, poll_ok: bool, has_data: bool) -> (r: Option<
    PanelIssue,
>)
    ensures
        r == model_issue(base, poll_ok, has_data),
{
    if !poll_ok {
        base
    } else if !has_data {
        Some(PanelIssue::Partial)
    } else {
        None
    }
}

/// One window of usage. `reset_time` is the local time of its reset as a text,
/// empty where it is not known.
#[derive(Debug)]
pub struct PanelUsageWindow {
    pub percentage: Option<Percent>,
    pub reset_time: String,
    pub resets_at: Option<Timestamp>,
    pub status: PanelUsageStatus,
}

/// Makes up a window of usage.
pub fn panel_usage_window(
    percentage: Option<Percent>,
    resets_at: Option<Timestamp>,
    reset_time: String,
) -> (r: PanelUsageWindow)
    ensures
        r == (PanelUsageWindow {
            percentage,
            reset_time,
            resets_at,
            status: usage_status(percentage),
        }),
{
    PanelUsageWindow { percentage, reset_time, resets_at, status: panel_usage_status(percentage) }
}

/// What the panel tells of one model.
#[derive(Debug)]
pub struct PanelModelSection {
    pub name: &'static str,
    pub session: PanelUsageWindow,
    pub weekly: PanelUsageWindow,
    pub session_state: SessionState,
    pub issue: Option<PanelIssue>,
    pub user_label: Option<String>,
    pub message_count: Option<u32>,
    pub token_count: Option<u64>,
    pub email: Option<String>,
}

/// The local times of the two resets as texts, empty where they are not known.
#[derive(Debug)]
pub struct ResetTimes {
    pub session: String,
    pub weekly: String,
}

/// The section of a model.
pub open spec fn section_of(s: AppState, name: &'static str, times: ResetTimes) -> PanelModelSection {
    let usage = usage_of(s.figures.data);
    let session_percent = match usage {
        Some(u) => Some(u.session.percentage),
        None => None,
    };
    let weekly_percent = match usage {
        Some(u) => Some(u.weekly.percentage),
        None => None,
    };
    PanelModelSection {
        name,
        session: PanelUsageWindow {
            percentage: session_percent,
            reset_time: times.session,
            resets_at: match usage {
                Some(u) => u.session.resets_at,
                None => None,
            },
            status: usage_status(session_percent),
        },
        weekly: PanelUsageWindow {
            percentage: weekly_percent,
            reset_time: times.weekly,
            resets_at: match usage {
                Some(u) => u.weekly.resets_at,
                None => None,
            },
            status: usage_status(weekly_percent),
        },
        session_state: session_state(session_percent),
        issue: model_issue(
            issue_of(s.polling.last_poll_status),
            s.polling.last_poll_ok,
            usage is Some,
        ),
        user_label: match usage {
            Some(u) => u.user_label,
            None => None,
        },
        message_count: match usage {
            Some(u) => u.session.message_count,
            None => None,
        },
        token_count: match usage {
            Some(u) => u.session.token_count,
            None => None,
        },
        email: match usage {
            Some(u) => u.email,
            None => None,
        },
    }
}

fn copy_text(text: &Option<String>) -> (r: Option<String>)
    ensures
        r == *text,
{
    match text {
        Some(text) => Some(text.clone()),
        None => None,
    }
}

/// The sections of the models that are shown. `times` are the local times of the
/// resets of the data at hand.
pub fn panel_model_sections(s: &AppState, strings: &Strings, times: ResetTimes) -> (r: Vec<
    PanelModelSection,
>)
    ensures
        r@ == if s.prefs.show_claude_code {
            seq![section_of(*s, strings.claude_code_model, times)]
        } else {
            Seq::empty()
        },
{
    let mut sections: Vec<PanelModelSection> = Vec::new();
    if !s.prefs.show_claude_code {
        return sections;
    }
    let base = panel_issue_from_poll_status(s.polling.last_poll_status);
    let usage: Option<&UsageData> = match &s.figures.data {
        Some(data) => match &data.claude_code {
            Some(usage) => Some(usage),
            None => None,
        },
        None => None,
    };
    let section = match usage {
        Some(u) => PanelModelSection {
            name: strings.claude_code_model,
            session: panel_usage_window(
                Some(u.session.percentage),
                u.session.resets_at,
                times.session,
            ),
            weekly: panel_usage_window(
                Some(u.weekly.percentage),
                u.weekly.resets_at,
                times.weekly,
            ),
            session_state: state_from_utilization(Some(u.session.percentage)),
            issue: panel_model_issue(base, s.polling.last_poll_ok, true),
            user_label: copy_text(&u.user_label),
            message_count: u.session.message_count,
            token_count: u.session.token_count,
            email: copy_text(&u.email),
        },
        None => PanelModelSection {
            name: strings.claude_code_model,
            session: panel_usage_window(None, None, times.session),
            weekly: panel_usage_window(None, None, times.weekly),
            session_state: state_from_utilization(None),
            issue: panel_model_issue(base, s.polling.last_poll_ok, false),
            user_label: None,
            message_count: None,
            token_count: None,
            email: None,
        },
    };
    sections.push(section);
    sections
}

/// A model shows no issue exactly when the last poll went well and brought figures
/// for it, or when no poll has failed yet.
pub proof fn lemma_issue_free_sections(s: AppState, name: &'static str, times: ResetTimes)
    ensures
        section_of(s, name, times).issue is None <==> if s.polling.last_poll_ok {
            usage_of(s.figures.data) is Some
        } else {
            s.polling.last_poll_status is None || s.polling.last_poll_status == Some(
                UsagePollStatus::Success,
            )
        },
{
}

} // verus!
