//! Polling: what an answer or a failure does to the state, and when the next
//! poll is due.

use crate::models::AppUsageData;
use crate::models::Percent;
use crate::models::Timestamp;
use crate::models::UsageData;
use crate::settings::or_default;
use crate::state::Action;
use crate::state::AppState;
use crate::state::CredentialWatchMode;
use crate::state::Figures;
use crate::state::Polling;
use crate::state::Shell;
use crate::state::TimerKind;
use crate::state::TrayIconKind;
use crate::state::UsagePollStatus;
use vstd::arithmetic::power2::pow2;
use vstd::prelude::*;

verus! {

/// The wait before the first retry, in milliseconds.
pub const RETRY_BASE_MS: u32 = 30_000;

/// How often a poll runs while fresh data is overdue, in milliseconds.
pub const RESET_POLL_MS: u32 = 5_000;

/// Why a poll brought no data.
#[derive(Clone, Copy, Debug, PartialEq, Eq, Structural)]
pub enum PollError {
    AuthRequired,
    NoCredentials,
    TokenExpired,
    RequestFailed,
}

/// The status that a failure leaves behind.
pub open spec fn status_of(error: PollError) -> UsagePollStatus {
    match error {
        PollError::AuthRequired => UsagePollStatus::AuthRequired,
        PollError::NoCredentials => UsagePollStatus::NoCredentials,
        PollError::TokenExpired => UsagePollStatus::TokenExpired,
        PollError::RequestFailed => UsagePollStatus::RequestFailed,
    }
}

/// The status that a failure leaves behind.
pub fn poll_error_status(error: PollError) -> (r: UsagePollStatus)
    ensures
        r == status_of(error),
{
    match error {
        PollError::AuthRequired => UsagePollStatus::AuthRequired,
        PollError::NoCredentials => UsagePollStatus::NoCredentials,
        PollError::TokenExpired => UsagePollStatus::TokenExpired,
        PollError::RequestFailed => UsagePollStatus::RequestFailed,
    }
}

/// The credential sources to watch after a failure; none after one that has
/// nothing to do with credentials.
pub open spec fn watch_after(error: PollError) -> Option<CredentialWatchMode> {
    match error {
        PollError::AuthRequired => Some(CredentialWatchMode::ActiveSource),
        PollError::TokenExpired => Some(CredentialWatchMode::ActiveSource),
        PollError::NoCredentials => Some(CredentialWatchMode::AllSources),
        PollError::RequestFailed => None,
    }
}

/// The credential sources to watch after a failure.
pub fn auth_watch_mode_after(error: PollError) -> (r: Option<CredentialWatchMode>)
    ensures
        r == watch_after(error),
{
    match error {
        PollError::AuthRequired => Some(CredentialWatchMode::ActiveSource),
        PollError::TokenExpired => Some(CredentialWatchMode::ActiveSource),
        PollError::NoCredentials => Some(CredentialWatchMode::AllSources),
        PollError::RequestFailed => None,
    }
}

/// The usage of the model that the state holds.
pub open spec fn usage_of(data: Option<AppUsageData>) -> Option<UsageData> {
    match data {
        Some(data) => data.claude_code,
        None => None,
    }
}

/// The two lines of figures, as formatted for the usage at hand.
#[derive(Debug)]
pub struct UsageLines {
    pub session: String,
    pub weekly: String,
}

/// What refreshing the texts does: figures where there are some, exclamation
/// marks where the model is shown and the poll brought none for it, and nothing
/// after a failed poll.
pub open spec fn texts_refreshed(
    a: Figures,
    b: Figures,
    poll_ok: bool,
    shown: bool,
    lines: UsageLines,
) -> bool {
    if !poll_ok || a.data is None {
        b == a
    } else {
        match usage_of(a.data) {
            Some(usage) => b == (Figures {
                session_text: lines.session,
                session_resets_at: usage.session.resets_at,
                weekly_text: lines.weekly,
                ..a
            }),
            None => if shown {
                &&& b.session_text@ == "!"@
                &&& b.weekly_text@ == "!"@
                &&& b == (Figures {
                    session_text: b.session_text,
                    session_resets_at: None,
                    weekly_text: b.weekly_text,
                    ..a
                })
            } else {
                b == a
            },
        }
    }
}

/// Refreshes the texts on display from the data at hand. `lines` are the figures
/// of that data, `poll_ok` tells whether the last poll succeeded, and `shown`
/// whether the model is shown.
pub fn refresh_usage_texts(figures: &mut Figures, poll_ok: bool, shown: bool, lines: UsageLines)
    ensures
        texts_refreshed(*old(figures), *final(figures), poll_ok, shown, lines),
{
    if !poll_ok {
        return;
    }
    let (has_usage, resets_at) = match &figures.data {
        Some(data) => match &data.claude_code {
            Some(usage) => (true, usage.session.resets_at),
            None => (false, None),
        },
        None => return,
    };
    if has_usage {
        figures.session_text = lines.session;
        figures.session_resets_at = resets_at;
        figures.weekly_text = lines.weekly;
    } else if shown {
        figures.session_text = "!".to_owned();
        figures.session_resets_at = None;
        figures.weekly_text = "!".to_owned();
    }
}

/// The texts of the figures at hand are brought up to date.
pub open spec fn display_updated(a: Shell, b: Shell, lines: UsageLines) -> bool {
    &&& b == (Shell { app: b.app, ..a })
    &&& match a.app {
        Some(s) => {
            &&& b.app matches Some(t)
            &&& t == (AppState { figures: t.figures, ..s })
            &&& texts_refreshed(
                s.figures,
                t.figures,
                s.polling.last_poll_ok,
                s.prefs.show_claude_code,
                lines,
            )
        },
        None => b.app is None,
    }
}

/// Brings the countdowns on display up to date. An error text stays: cached data
/// does not take its place.
pub fn update_display(shell: &mut Shell, lines: UsageLines)
    ensures
        display_updated(*old(shell), *final(shell), lines),
{
    match &mut shell.app {
        Some(s) => {
            let poll_ok = s.polling.last_poll_ok;
            let shown = s.prefs.show_claude_code;
            refresh_usage_texts(&mut s.figures, poll_ok, shown, lines);
        },
        None => {},
    }
}

/// Whether a poll asks for the model: it is shown, or there is no state to tell.
pub fn polls_model(shell: &Shell) -> (r: bool)
    ensures
        r == match shell.app {
            Some(s) => s.prefs.show_claude_code,
            None => true,
        },
{
    match &shell.app {
        Some(s) => s.prefs.show_claude_code,
        None => true,
    }
}

/// The figures of a fresh answer, before the texts follow.
pub open spec fn with_answer(a: Figures, shown: bool, data: AppUsageData) -> Figures {
    Figures {
        session_percent: match data.claude_code {
            Some(usage) => usage.session.percentage,
            None => if shown {
                Percent { bits: 0 }
            } else {
                a.session_percent
            },
        },
        weekly_percent: match data.claude_code {
            Some(usage) => usage.weekly.percentage,
            None => if shown {
                Percent { bits: 0 }
            } else {
                a.weekly_percent
            },
        },
        data: Some(data),
        ..a
    }
}

/// Polling after a success: no retries, no watch on the credentials.
pub open spec fn polling_recovered(b: Polling, at: Timestamp) -> bool {
    &&& b.retry_count == 0
    &&& !b.force_notify_auth_error
    &&& !b.auth_error_paused_polling
    &&& b.auth_watch_mode == CredentialWatchMode::ActiveSource
    &&& b.auth_watch_snapshot@.len() == 0
    &&& b.last_poll_ok
    &&& b.last_poll_at == Some(at)
    &&& b.last_poll_status == Some(UsagePollStatus::Success)
}

/// What a successful poll does to the state.
pub open spec fn answer_recorded(
    a: AppState,
    b: AppState,
    data: AppUsageData,
    at: Timestamp,
    lines: UsageLines,
) -> bool {
    &&& b == (AppState { figures: b.figures, polling: b.polling, ..a })
    &&& polling_recovered(b.polling, at)
    &&& texts_refreshed(
        with_answer(a.figures, a.prefs.show_claude_code, data),
        b.figures,
        true,
        a.prefs.show_claude_code,
        lines,
    )
}

/// The work after a successful poll: no fast polling once the data is fresh, and
/// the normal interval again after a failure.
pub open spec fn answer_actions(a: AppState, past_reset: bool) -> Seq<Action> {
    (if past_reset {
        Seq::empty()
    } else {
        seq![Action::KillTimer(TimerKind::ResetPoll)]
    }) + (if a.polling.retry_count > 0 {
        seq![Action::SetTimer { timer: TimerKind::Poll, ms: a.prefs.poll_interval_ms }]
    } else {
        Seq::empty()
    }) + seq![Action::PostUsageUpdated]
}

fn record_answer(figures: &mut Figures, shown: bool, data: AppUsageData, lines: UsageLines)
    ensures
        texts_refreshed(
            with_answer(*old(figures), shown, data),
            *final(figures),
            true,
            shown,
            lines,
        ),
{
    match &data.claude_code {
        Some(usage) => {
            figures.session_percent = usage.session.percentage;
            figures.weekly_percent = usage.weekly.percentage;
        },
        None => {
            if shown {
                figures.session_percent = Percent::zero();
                figures.weekly_percent = Percent::zero();
            }
        },
    }
    figures.data = Some(data);
    refresh_usage_texts(figures, true, shown, lines);
}

/// The data that a poll brought are those of the program.
pub open spec fn answer_taken(
    a: Shell,
    b: Shell,
    data: AppUsageData,
    at: Timestamp,
    lines: UsageLines,
) -> bool {
    &&& b == (Shell { app: b.app, ..a })
    &&& match a.app {
        Some(s) => b.app matches Some(t) && answer_recorded(s, t, data, at, lines),
        None => b.app is None,
    }
}

/// A poll brought data. `past_reset` tells whether a window of the data has run
/// out already; `lines` are the figures of the data.
pub fn poll_succeeded(
    shell: &mut Shell,
    data: AppUsageData,
    completed_at: Timestamp,
    past_reset: bool,
    lines: UsageLines,
) -> (r: Vec<Action>)
    ensures
        answer_taken(*old(shell), *final(shell), data, completed_at, lines),
        r@ == match old(shell).app {
            Some(a) => answer_actions(a, past_reset),
            None => seq![Action::PostUsageUpdated],
        },
        old(shell).app is Some && old(shell).app->0.polling.retry_count > 0 ==> r@.len() >= 2
            && r@[r@.len() - 2] == (Action::SetTimer {
            timer: TimerKind::Poll,
            ms: old(shell).app->0.prefs.poll_interval_ms,
        }),
{
    let mut actions: Vec<Action> = Vec::new();
    let ghost before = shell.app;
    match &mut shell.app {
        Some(s) => {
            if !past_reset {
                actions.push(Action::KillTimer(TimerKind::ResetPoll));
            }
            let shown = s.prefs.show_claude_code;
            record_answer(&mut s.figures, shown, data, lines);
            if s.polling.retry_count > 0 {
                actions.push(
                    Action::SetTimer { timer: TimerKind::Poll, ms: s.prefs.poll_interval_ms },
                );
            }
            s.polling = Polling {
                retry_count: 0,
                force_notify_auth_error: false,
                auth_error_paused_polling: false,
                auth_watch_mode: CredentialWatchMode::ActiveSource,
                auth_watch_snapshot: Vec::new(),
                last_poll_ok: true,
                last_poll_at: Some(completed_at),
                last_poll_status: Some(UsagePollStatus::Success),
            };
        },
        None => {},
    }
    actions.push(Action::PostUsageUpdated);
    assert(before matches Some(a) ==> actions@ =~= answer_actions(a, past_reset));
    actions
}

/// The wait before retry number `retry`: it doubles from retry to retry, but is
/// never longer than the poll interval.
pub open spec fn retry_delay(retry: nat, interval: nat) -> nat {
    let backoff = RETRY_BASE_MS as nat * pow2((retry - 1) as nat);
    if backoff < interval {
        backoff
    } else {
        interval
    }
}

/// The wait before retry number `retry`, in milliseconds.
pub fn retry_delay_ms(retry: u32, interval: u32) -> (r: u32)
    requires
        retry > 0,
    ensures
        r == retry_delay(retry as nat, interval as nat),
{
    let doublings: u32 = retry - 1;
    proof {
        vstd::arithmetic::power2::lemma2_to64();
        if doublings >= 32 {
            if doublings > 32 {
                vstd::arithmetic::power2::lemma_pow2_strictly_increases(32, doublings as nat);
            }
            assert(pow2(doublings as nat) >= 0x1_0000_0000);
        } else {
            vstd::arithmetic::power2::lemma_pow2_strictly_increases(doublings as nat, 32);
            vstd::bits::lemma_u64_shl_is_mul(1, doublings as u64);
        }
    }
    if doublings >= 32 {
        return interval;
    }
    let factor: u64 = 1u64 << (doublings as u64);
    let backoff: u64 = RETRY_BASE_MS as u64 * factor;
    if backoff < interval as u64 {
        backoff as u32
    } else {
        interval
    }
}

/// Whether a failure is told in a balloon: the first one of a row, or one that
/// the user asked for.
pub open spec fn notifies(a: Polling, error: PollError) -> bool {
    watch_after(error) is Some && (a.retry_count == 0 || a.force_notify_auth_error)
}

pub open spec fn one_more(n: u32) -> u32 {
    if n == u32::MAX {
        n
    } else {
        (n + 1) as u32
    }
}

/// Polling after a failure.
pub open spec fn polling_failed(
    a: Polling,
    b: Polling,
    error: PollError,
    at: Timestamp,
    snapshot: Vec<String>,
) -> bool {
    &&& match watch_after(error) {
        Some(_) => b.auth_watch_snapshot == snapshot,
        None => b.auth_watch_snapshot@.len() == 0,
    }
    &&& b == (Polling {
        retry_count: one_more(a.retry_count),
        force_notify_auth_error: false,
        auth_error_paused_polling: watch_after(error) is Some,
        auth_watch_mode: or_default(watch_after(error), CredentialWatchMode::ActiveSource),
        auth_watch_snapshot: b.auth_watch_snapshot,
        last_poll_ok: false,
        last_poll_at: Some(at),
        last_poll_status: Some(status_of(error)),
    })
}

/// The text in the place of figures after a failure.
pub open spec fn failure_text(error: PollError) -> Seq<char> {
    if watch_after(error) is Some {
        "!"@
    } else {
        "..."@
    }
}

/// What a failed poll does to the state.
pub open spec fn failure_recorded(
    a: AppState,
    b: AppState,
    error: PollError,
    at: Timestamp,
    snapshot: Vec<String>,
) -> bool {
    &&& b == (AppState { figures: b.figures, polling: b.polling, ..a })
    &&& polling_failed(a.polling, b.polling, error, at, snapshot)
    &&& b.figures.session_text@ == failure_text(error)
    &&& b.figures.weekly_text@ == failure_text(error)
    &&& b.figures == (Figures {
        session_text: b.figures.session_text,
        weekly_text: b.figures.weekly_text,
        ..a.figures
    })
}

/// The work after a failed poll. A problem with the credentials stops the
/// countdowns and waits for the credentials to change; anything else is tried
/// again, at growing intervals.
pub open spec fn failure_actions(a: AppState, error: PollError) -> Seq<Action> {
    (if watch_after(error) is Some {
        seq![
            Action::KillTimer(TimerKind::Poll),
            Action::KillTimer(TimerKind::ResetPoll),
            Action::KillTimer(TimerKind::Countdown),
            Action::SetTimer { timer: TimerKind::Poll, ms: a.prefs.poll_interval_ms },
        ]
    } else {
        seq![
            Action::KillTimer(TimerKind::ResetPoll),
            Action::SetTimer {
                timer: TimerKind::Poll,
                ms: retry_delay(
                    one_more(a.polling.retry_count) as nat,
                    a.prefs.poll_interval_ms as nat,
                ) as u32,
            },
        ]
    }) + (if notifies(a.polling, error) {
        seq![Action::NotifyAuthError { kind: TrayIconKind::Claude, language: a.language }]
    } else {
        Seq::empty()
    }) + seq![Action::PostUsageUpdated]
}

/// Puts a text in the place of both lines of figures.
pub fn set_texts(figures: &mut Figures, text: &str)
    ensures
        final(figures).session_text@ == text@,
        final(figures).weekly_text@ == text@,
        *final(figures) == (Figures {
            session_text: final(figures).session_text,
            weekly_text: final(figures).weekly_text,
            ..*old(figures)
        }),
{
    figures.session_text = text.to_owned();
    figures.weekly_text = text.to_owned();
}

/// The failure of a poll is on record.
pub open spec fn failure_taken(
    a: Shell,
    b: Shell,
    error: PollError,
    at: Timestamp,
    snapshot: Vec<String>,
) -> bool {
    &&& b == (Shell { app: b.app, ..a })
    &&& match a.app {
        Some(s) => b.app matches Some(t) && failure_recorded(s, t, error, at, snapshot),
        None => b.app is None,
    }
}

/// A poll failed. `snapshot` is the state of the credential sources to watch
/// after such a failure, of no account where none is watched.
pub fn poll_failed(
    shell: &mut Shell,
    error: PollError,
    completed_at: Timestamp,
    snapshot: Vec<String>,
) -> (r: Vec<Action>)
    ensures
        failure_taken(*old(shell), *final(shell), error, completed_at, snapshot),
        r@ == match old(shell).app {
            Some(a) => failure_actions(a, error),
            None => seq![Action::PostUsageUpdated],
        },
{
    let mut actions: Vec<Action> = Vec::new();
    let ghost before = shell.app;
    match &mut shell.app {
        Some(s) => {
            let retry_count: u32 = s.polling.retry_count.saturating_add(1);
            let interval: u32 = s.prefs.poll_interval_ms;
            match auth_watch_mode_after(error) {
                Some(mode) => {
                    let notify = s.polling.retry_count == 0 || s.polling.force_notify_auth_error;
                    s.polling = Polling {
                        retry_count,
                        force_notify_auth_error: false,
                        auth_error_paused_polling: true,
                        auth_watch_mode: mode,
                        auth_watch_snapshot: snapshot,
                        last_poll_ok: false,
                        last_poll_at: Some(completed_at),
                        last_poll_status: Some(poll_error_status(error)),
                    };
                    set_texts(&mut s.figures, "!");
                    actions.push(Action::KillTimer(TimerKind::Poll));
                    actions.push(Action::KillTimer(TimerKind::ResetPoll));
                    actions.push(Action::KillTimer(TimerKind::Countdown));
                    actions.push(Action::SetTimer { timer: TimerKind::Poll, ms: interval });
                    if notify {
                        actions.push(
                            Action::NotifyAuthError {
                                kind: TrayIconKind::Claude,
                                language: s.language,
                            },
                        );
                    }
                },
                None => {
                    s.polling = Polling {
                        retry_count,
                        force_notify_auth_error: false,
                        auth_error_paused_polling: false,
                        auth_watch_mode: CredentialWatchMode::ActiveSource,
                        auth_watch_snapshot: Vec::new(),
                        last_poll_ok: false,
                        last_poll_at: Some(completed_at),
                        last_poll_status: Some(poll_error_status(error)),
                    };
                    set_texts(&mut s.figures, "...");
                    let ms: u32 = retry_delay_ms(retry_count, interval);
                    actions.push(Action::KillTimer(TimerKind::ResetPoll));
                    actions.push(Action::SetTimer { timer: TimerKind::Poll, ms });
                },
            }
        },
        None => {},
    }
    actions.push(Action::PostUsageUpdated);
    assert(before matches Some(a) ==> actions@ =~= failure_actions(a, error));
    actions
}

/// The texts of a list.
pub open spec fn views(list: Seq<String>) -> Seq<Seq<char>> {
    list.map_values(|text: String| text@)
}

fn same_snapshot(a: &Vec<String>, b: &Vec<String>) -> (r: bool)
    ensures
        r == (views(a@) == views(b@)),
{
    if a.len() != b.len() {
        assert(views(a@).len() != views(b@).len());
        return false;
    }
    let mut i: usize = 0;
    while i < a.len()
        invariant
            i <= a.len(),
            a.len() == b.len(),
            forall|k: int| 0 <= k < i ==> a@[k]@ == b@[k]@,
        decreases a.len() - i,
    {
        if a[i] != b[i] {
            assert(views(a@)[i as int] != views(b@)[i as int]);
            return false;
        }
        i += 1;
    }
    assert(views(a@) =~= views(b@));
    true
}

fn copy_snapshot(list: &Vec<String>) -> (r: Vec<String>)
    ensures
        r@ == list@,
{
    let mut out: Vec<String> = Vec::new();
    let mut i: usize = 0;
    while i < list.len()
        invariant
            i <= list.len(),
            out@ =~= list@.take(i as int),
        decreases list.len() - i,
    {
        out.push(list[i].clone());
        i += 1;
    }
    assert(list@.take(list@.len() as int) =~= list@);
    out
}

/// The poll timer fired: poll, or, while a problem with the credentials stops
/// polling, look whether they have changed.
pub fn on_poll_timer(shell: &Shell) -> (r: Vec<Action>)
    ensures
        match shell.app {
            Some(s) => if s.polling.auth_error_paused_polling {
                &&& r@.len() == 1
                &&& r@[0] matches Action::SampleCredentials { mode, previous } && mode
                    == s.polling.auth_watch_mode && previous@ == s.polling.auth_watch_snapshot@
            } else {
                r@ == seq![Action::SpawnPoll]
            },
            None => r@.len() == 0,
        },
{
    let mut actions: Vec<Action> = Vec::new();
    match &shell.app {
        Some(s) => {
            if s.polling.auth_error_paused_polling {
                actions.push(
                    Action::SampleCredentials {
                        mode: s.polling.auth_watch_mode,
                        previous: copy_snapshot(&s.polling.auth_watch_snapshot),
                    },
                );
            } else {
                actions.push(Action::SpawnPoll);
            }
        },
        None => {},
    }
    actions
}

/// The shell once the watched credential sources were looked at: where they have
/// changed and are still watched, their new state is the one to compare with.
pub open spec fn credentials_compared(
    a: Shell,
    mode: CredentialWatchMode,
    previous: Vec<String>,
    current: Vec<String>,
) -> Shell {
    match a.app {
        Some(s) if views(current@) != views(previous@) && s.polling.auth_error_paused_polling
            && s.polling.auth_watch_mode == mode => Shell {
            app: Some(
                AppState {
                    polling: Polling { auth_watch_snapshot: current, ..s.polling },
                    ..s
                },
            ),
            ..a
        },
        _ => a,
    }
}

/// The watched credential sources were looked at: a poll follows if they have
/// changed since, and the new state of the sources is the one to compare with.
pub fn credentials_sampled(
    shell: &mut Shell,
    mode: CredentialWatchMode,
    previous: Vec<String>,
    current: Vec<String>,
) -> (r: Vec<Action>)
    ensures
        *final(shell) == credentials_compared(*old(shell), mode, previous, current),
        r@ == if views(current@) != views(previous@) {
            seq![Action::SpawnPoll]
        } else {
            Seq::empty()
        },
{
    let mut actions: Vec<Action> = Vec::new();
    if !same_snapshot(&current, &previous) {
        match &mut shell.app {
            Some(s) => {
                if s.polling.auth_error_paused_polling && s.polling.auth_watch_mode == mode {
                    s.polling.auth_watch_snapshot = current;
                }
            },
            None => {},
        }
        actions.push(Action::SpawnPoll);
    }
    actions
}

/// The fast poll timer fired.
pub fn on_reset_poll_timer(shell: &Shell) -> (r: Vec<Action>)
    ensures
        r@ == match shell.app {
            Some(s) if !s.polling.auth_error_paused_polling => seq![Action::SpawnPoll],
            _ => Seq::empty(),
        },
{
    let mut actions: Vec<Action> = Vec::new();
    match &shell.app {
        Some(s) => {
            if !s.polling.auth_error_paused_polling {
                actions.push(Action::SpawnPoll);
            }
        },
        None => {},
    }
    actions
}

/// The shorter of two waits, where there are any.
pub open spec fn sooner(a: Option<u128>, b: Option<u128>) -> Option<u128> {
    match (a, b) {
        (Some(x), Some(y)) => Some(
            if x <= y {
                x
            } else {
                y
            },
        ),
        (Some(x), None) => Some(x),
        (None, y) => y,
    }
}

/// When the countdowns have to be drawn again: when the first of them changes, in
/// a minute where none is known to, and not sooner than in a second. The wait is
/// cut to 32 bits.
pub open spec fn countdown_ms(session: Option<u128>, weekly: Option<u128>) -> u32 {
    let wait = or_default(sooner(session, weekly), 60_000u128);
    (if wait >= 1000 {
        wait
    } else {
        1000u128
    }) as u32
}

/// The timers of the countdowns.
pub open spec fn countdown_actions(
    s: AppState,
    past_reset: bool,
    session: Option<u128>,
    weekly: Option<u128>,
) -> Seq<Action> {
    if !s.polling.last_poll_ok {
        seq![Action::KillTimer(TimerKind::Countdown), Action::KillTimer(TimerKind::ResetPoll)]
    } else if s.figures.data is None {
        Seq::empty()
    } else {
        (if past_reset {
            seq![Action::SetTimer { timer: TimerKind::ResetPoll, ms: RESET_POLL_MS }]
        } else {
            Seq::empty()
        }) + seq![
            Action::SetTimer { timer: TimerKind::Countdown, ms: countdown_ms(session, weekly) },
        ]
    }
}

/// Sets the timers of the countdowns. `past_reset` tells whether a window of the
/// data at hand has run out; `session` and `weekly` are the milliseconds until
/// the two countdowns read differently.
pub fn schedule_countdown_timer(
    shell: &Shell,
    past_reset: bool,
    session: Option<u128>,
    weekly: Option<u128>,
) -> (r: Vec<Action>)
    ensures
        r@ == match shell.app {
            Some(s) => countdown_actions(s, past_reset, session, weekly),
            None => Seq::empty(),
        },
{
    let mut actions: Vec<Action> = Vec::new();
    let s = match &shell.app {
        Some(s) => s,
        None => return actions,
    };
    if !s.polling.last_poll_ok {
        actions.push(Action::KillTimer(TimerKind::Countdown));
        actions.push(Action::KillTimer(TimerKind::ResetPoll));
        return actions;
    }
    if s.figures.data.is_none() {
        return actions;
    }
    if past_reset {
        actions.push(Action::SetTimer { timer: TimerKind::ResetPoll, ms: RESET_POLL_MS });
    }
    let wait: u128 = match (session, weekly) {
        (Some(x), Some(y)) => if x <= y {
            x
        } else {
            y
        },
        (Some(x), None) => x,
        (None, Some(y)) => y,
        (None, None) => 60_000,
    };
    let ms: u32 = (if wait >= 1000 {
        wait
    } else {
        1000
    }) as u32;
    actions.push(Action::SetTimer { timer: TimerKind::Countdown, ms });
    assert(actions@ =~= countdown_actions(*s, past_reset, session, weekly));
    actions
}

/// Retries never come faster than after the base wait or the poll interval,
/// whichever is shorter, and never slower than the poll interval.
pub proof fn lemma_retry_delay_bounds(retry: nat, interval: nat)
    requires
        retry > 0,
    ensures
        retry_delay(retry, interval) <= interval,
        interval <= retry_delay(retry, interval) || RETRY_BASE_MS <= retry_delay(retry, interval),
{
    vstd::arithmetic::power2::lemma_pow2_pos((retry - 1) as nat);
    assert(RETRY_BASE_MS as nat * pow2((retry - 1) as nat) >= RETRY_BASE_MS) by (nonlinear_arith)
        requires
            pow2((retry - 1) as nat) >= 1,
    ;
}

/// Each further retry waits twice as long as the one before, up to the poll
/// interval; from there on the wait stays.
pub proof fn lemma_retry_delay_doubles(retry: nat, interval: nat)
    requires
        retry > 0,
    ensures
        retry_delay(retry + 1, interval) == if 2 * retry_delay(retry, interval) < interval {
            2 * retry_delay(retry, interval)
        } else {
            interval
        },
{
    vstd::arithmetic::power2::lemma_pow2_unfold(retry);
    let p = pow2((retry - 1) as nat);
    assert(RETRY_BASE_MS as nat * (2 * p) == 2 * (RETRY_BASE_MS as nat * p)) by (nonlinear_arith);
}

/// A row of credential failures is told once: the failure after a failure shows
/// no balloon unless the user asked for the poll in between.
pub proof fn lemma_second_failure_is_silent(
    a: Polling,
    b: Polling,
    first: PollError,
    second: PollError,
    at: Timestamp,
    snapshot: Vec<String>,
)
    requires
        polling_failed(a, b, first, at, snapshot),
    ensures
        !notifies(b, second),
        notifies(Polling { force_notify_auth_error: true, ..b }, second) == (watch_after(second)
            is Some),
{
}

/// The first credential failure after a success is told.
pub proof fn lemma_first_failure_after_success_is_told(b: Polling, at: Timestamp, error: PollError)
    requires
        polling_recovered(b, at),
        watch_after(error) is Some,
    ensures
        notifies(b, error),
{
}

/// A failed poll keeps the figures: the data and the percentages of the last
/// answer stay, and no text takes the place of the error until a poll succeeds.
pub proof fn lemma_failure_keeps_the_last_answer(
    a: AppState,
    b: AppState,
    c: Figures,
    error: PollError,
    at: Timestamp,
    snapshot: Vec<String>,
    lines: UsageLines,
)
    requires
        failure_recorded(a, b, error, at, snapshot),
        texts_refreshed(
            b.figures,
            c,
            b.polling.last_poll_ok,
            b.prefs.show_claude_code,
            lines,
        ),
    ensures
        b.figures.data == a.figures.data,
        b.figures.session_percent == a.figures.session_percent,
        b.figures.weekly_percent == a.figures.weekly_percent,
        c == b.figures,
{
}

/// Refreshing the texts twice is refreshing them once.
pub proof fn lemma_refresh_is_idempotent(
    a: Figures,
    b: Figures,
    c: Figures,
    poll_ok: bool,
    shown: bool,
    lines: UsageLines,
)
    requires
        texts_refreshed(a, b, poll_ok, shown, lines),
        texts_refreshed(b, c, poll_ok, shown, lines),
    ensures
        c.session_text@ == b.session_text@,
        c.weekly_text@ == b.weekly_text@,
        c.session_resets_at == b.session_resets_at,
{
}

/// Polling leaves what the user chose alone, so it keeps the state well formed.
pub proof fn lemma_polling_keeps_the_preferences(
    a: AppState,
    b: AppState,
    data: AppUsageData,
    error: PollError,
    at: Timestamp,
    lines: UsageLines,
    snapshot: Vec<String>,
)
    requires
        answer_recorded(a, b, data, at, lines) || failure_recorded(a, b, error, at, snapshot),
    ensures
        b.prefs == a.prefs,
        a.well_formed() ==> b.well_formed(),
{
}

/// The countdowns are drawn again after a second at the earliest, and no later
/// than the first of them changes if that is later than a second.
pub proof fn lemma_countdowns_are_drawn_in_time(session: Option<u128>, weekly: Option<u128>)
    requires
        sooner(session, weekly) matches Some(wait) ==> wait <= u32::MAX,
    ensures
        countdown_ms(session, weekly) >= 1000,
        session matches Some(wait) ==> wait < 1000 || countdown_ms(session, weekly) <= wait,
        weekly matches Some(wait) ==> wait < 1000 || countdown_ms(session, weekly) <= wait,
{
}

} // verus!
