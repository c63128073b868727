//! Polling: answers and failures, retries, and the timers that they leave behind.

use crate::models::AppUsageData;
use crate::models::Timestamp;
use crate::poll::credentials_sampled;
use crate::poll::on_poll_timer;
use crate::poll::on_reset_poll_timer;
use crate::poll::poll_failed;
use crate::poll::poll_succeeded;
use crate::poll::polls_model;
use crate::poll::schedule_countdown_timer;
use crate::poll::update_display;
use crate::poll::PollError;
use crate::poll::UsageLines;
use crate::state::Action;
use crate::state::AppState;
use crate::state::CredentialWatchMode;
use crate::state::Shell;
use crate::state::TimerKind;
use crate::state::UsagePollStatus;
use vstd::prelude::*;

verus! {

/// The interval at which a timer runs once some work is done, none where it does
/// not run. `before` is its interval up to then.
pub open spec fn timer_after(
    actions: Seq<Action>,
    timer: TimerKind,
    before: Option<u32>,
) -> Option<u32>
    decreases actions.len(),
{
    if actions.len() == 0 {
        before
    } else {
        match actions.last() {
            Action::SetTimer { timer: set, ms } if set == timer => Some(ms),
            Action::KillTimer(killed) if killed == timer => None,
            _ => timer_after(actions.drop_last(), timer, before),
        }
    }
}

/// What stays as it is when a poll ends: everything but figures and polling.
pub open spec fn only_figures_and_polling(a: AppState, b: AppState) -> bool {
    &&& b.windows == a.windows
    &&& b.is_dark == a.is_dark
    &&& b.embedded == a.embedded
    &&& b.language == a.language
    &&& b.install_channel == a.install_channel
    &&& b.prefs == a.prefs
    &&& b.update_status == a.update_status
    &&& b.drag == a.drag
    &&& b.panel == a.panel
    &&& b.panel_menu_open == a.panel_menu_open
    &&& b.popup_text == a.popup_text
    &&& b.mouse_over_widget == a.mouse_over_widget
    &&& b.shimmer_phase == a.shimmer_phase
}

/// After a success polling goes on at the interval that the user chose, whatever
/// went before: a retry interval is given up, whether or not a window of the data
/// has run out. Fast polling ends exactly when none has, and the countdowns are
/// left alone.
pub proof fn success_restores_the_interval(
    shell: &mut Shell,
    data: AppUsageData,
    at: Timestamp,
    past_reset: bool,
    lines: UsageLines,
    r: Vec<Action>,
    before: Option<u32>,
)
    requires
        call_ensures(poll_succeeded, (shell, data, at, past_reset, lines), r),
        old(shell).app is Some,
    ensures
        timer_after(r@, TimerKind::Poll, before) == if old(shell).app->0.polling.retry_count > 0 {
            Some(old(shell).app->0.prefs.poll_interval_ms)
        } else {
            before
        },
        timer_after(r@, TimerKind::ResetPoll, before) == if past_reset {
            before
        } else {
            None
        },
        timer_after(r@, TimerKind::Countdown, before) == before,
        timer_after(r@, TimerKind::UpdateCheck, before) == before,
        r@.last() == Action::PostUsageUpdated,
        forall|i: int|
            0 <= i < r@.len() - 1 ==> (#[trigger] r@[i]) is SetTimer || r@[i] is KillTimer,
{
    reveal_with_fuel(timer_after, 5);
    let ms = old(shell).app->0.prefs.poll_interval_ms;
    let set = Action::SetTimer { timer: TimerKind::Poll, ms };
    let kill = Action::KillTimer(TimerKind::ResetPoll);
    if old(shell).app->0.polling.retry_count > 0 {
        if past_reset {
            assert(r@ =~= seq![set, Action::PostUsageUpdated]);
        } else {
            assert(r@ =~= seq![kill, set, Action::PostUsageUpdated]);
            assert(r@.drop_last() =~= seq![kill, set]);
            assert(r@.drop_last().drop_last() =~= seq![kill]);
        }
    } else if past_reset {
        assert(r@ =~= seq![Action::PostUsageUpdated]);
    } else {
        assert(r@ =~= seq![kill, Action::PostUsageUpdated]);
        assert(r@.drop_last() =~= seq![kill]);
    }
}

/// After a success nothing is left of the failures before it: no retries are
/// counted, no credentials are watched, and the status and the time are those of
/// this poll.
pub proof fn success_ends_the_failures(
    shell: &mut Shell,
    data: AppUsageData,
    at: Timestamp,
    past_reset: bool,
    lines: UsageLines,
    r: Vec<Action>,
)
    requires
        call_ensures(poll_succeeded, (shell, data, at, past_reset, lines), r),
    ensures
        old(shell).app is None ==> final(shell).app is None && r@ =~= seq![
            Action::PostUsageUpdated,
        ],
        old(shell).app matches Some(a) ==> (final(shell).app matches Some(b) && {
            &&& only_figures_and_polling(a, b)
            &&& b.polling.retry_count == 0
            &&& !b.polling.auth_error_paused_polling
            &&& !b.polling.force_notify_auth_error
            &&& b.polling.auth_watch_snapshot@.len() == 0
            &&& b.polling.auth_watch_mode == CredentialWatchMode::ActiveSource
            &&& b.polling.last_poll_ok
            &&& b.polling.last_poll_at == Some(at)
            &&& b.polling.last_poll_status == Some(UsagePollStatus::Success)
        }),
        final(shell).panel_reopen_until == old(shell).panel_reopen_until,
        final(shell).tray_reposition_until == old(shell).tray_reposition_until,
        final(shell).last_reposition == old(shell).last_reposition,
{
}

/// What is shown after a success is what the poll brought: its percentages, its
/// texts and its reset. A shown model of which it brought nothing shows zero and
/// exclamation marks, and a model that is not shown keeps its figures.
pub proof fn success_shows_the_answer(
    shell: &mut Shell,
    data: AppUsageData,
    at: Timestamp,
    past_reset: bool,
    lines: UsageLines,
    r: Vec<Action>,
)
    requires
        call_ensures(poll_succeeded, (shell, data, at, past_reset, lines), r),
        old(shell).app is Some,
    ensures
        final(shell).app is Some,
        ({
            let a = old(shell).app->0.figures;
            let b = final(shell).app->0.figures;
            let shown = old(shell).app->0.prefs.show_claude_code;
            &&& b.data == Some(data)
            &&& data.claude_code matches Some(usage) ==> {
                &&& b.session_percent == usage.session.percentage
                &&& b.weekly_percent == usage.weekly.percentage
                &&& b.session_resets_at == usage.session.resets_at
                &&& b.session_text == lines.session
                &&& b.weekly_text == lines.weekly
            }
            &&& data.claude_code is None && shown ==> {
                &&& b.session_percent.bits == 0
                &&& b.weekly_percent.bits == 0
                &&& b.session_resets_at is None
                &&& b.session_text@ == "!"@
                &&& b.weekly_text@ == "!"@
            }
            &&& data.claude_code is None && !shown ==> {
                &&& b.session_percent == a.session_percent
                &&& b.weekly_percent == a.weekly_percent
                &&& b.session_resets_at == a.session_resets_at
                &&& b.session_text == a.session_text
                &&& b.weekly_text == a.weekly_text
            }
        }),
{
}

/// A failure that has nothing to do with credentials is retried: the poll timer
/// runs at a retry interval, the first retry comes after half a minute or the
/// user's interval, whichever is shorter, and no balloon is shown.
pub proof fn network_failure_is_retried(
    shell: &mut Shell,
    at: Timestamp,
    snapshot: Vec<String>,
    r: Vec<Action>,
    before: Option<u32>,
)
    requires
        call_ensures(poll_failed, (shell, PollError::RequestFailed, at, snapshot), r),
        old(shell).app is Some,
    ensures
        timer_after(r@, TimerKind::Poll, before) is Some,
        timer_after(r@, TimerKind::Poll, before)->0 <= old(shell).app->0.prefs.poll_interval_ms,
        old(shell).app->0.polling.retry_count == 0 ==> timer_after(
            r@,
            TimerKind::Poll,
            before,
        )->0 == (if old(shell).app->0.prefs.poll_interval_ms <= 30_000 {
            old(shell).app->0.prefs.poll_interval_ms
        } else {
            30_000u32
        }),
        timer_after(r@, TimerKind::ResetPoll, before) is None,
        timer_after(r@, TimerKind::Countdown, before) == before,
        forall|i: int| 0 <= i < r@.len() ==> !((#[trigger] r@[i]) is NotifyAuthError),
        r@.last() == Action::PostUsageUpdated,
        final(shell).app matches Some(b) && {
            &&& !b.polling.auth_error_paused_polling
            &&& b.polling.auth_watch_snapshot@.len() == 0
            &&& b.polling.last_poll_status == Some(UsagePollStatus::RequestFailed)
            &&& b.figures.session_text@ == "..."@
            &&& b.figures.weekly_text@ == "..."@
        },
{
    reveal_with_fuel(timer_after, 5);
    let s = old(shell).app->0;
    let n = crate::poll::one_more(s.polling.retry_count);
    let ms = crate::poll::retry_delay(n as nat, s.prefs.poll_interval_ms as nat) as u32;
    let set = Action::SetTimer { timer: TimerKind::Poll, ms };
    let kill = Action::KillTimer(TimerKind::ResetPoll);
    assert(r@ =~= seq![kill, set, Action::PostUsageUpdated]);
    assert(r@.drop_last() =~= seq![kill, set]);
    assert(r@.drop_last().drop_last() =~= seq![kill]);
    crate::poll::lemma_retry_delay_bounds(n as nat, s.prefs.poll_interval_ms as nat);
    vstd::arithmetic::power2::lemma2_to64();
}

/// Each further retry waits twice as long as the one before, up to the user's
/// interval.
pub proof fn retries_wait_twice_as_long(
    shell: &mut Shell,
    again: &mut Shell,
    at: Timestamp,
    later: Timestamp,
    snapshot: Vec<String>,
    other: Vec<String>,
    r: Vec<Action>,
    q: Vec<Action>,
    before: Option<u32>,
)
    requires
        call_ensures(poll_failed, (shell, PollError::RequestFailed, at, snapshot), r),
        old(shell).app is Some,
        old(shell).app->0.polling.retry_count < u32::MAX - 1,
        *old(again) == *final(shell),
        call_ensures(poll_failed, (again, PollError::RequestFailed, later, other), q),
    ensures
        ({
            let first = timer_after(r@, TimerKind::Poll, before)->0;
            let second = timer_after(q@, TimerKind::Poll, before)->0;
            let interval = old(shell).app->0.prefs.poll_interval_ms;
            second == if 2 * first <= interval {
                2 * first
            } else {
                interval as int
            }
        }),
{
    reveal_with_fuel(timer_after, 5);
    let s = old(shell).app->0;
    let t = final(shell).app->0;
    let interval = s.prefs.poll_interval_ms as nat;
    let n = (s.polling.retry_count + 1) as nat;
    assert(t.polling.retry_count == n);
    crate::poll::lemma_retry_delay_doubles(n, interval);
    crate::poll::lemma_retry_delay_bounds(n, interval);
    crate::poll::lemma_retry_delay_bounds(n + 1, interval);
    let kill = Action::KillTimer(TimerKind::ResetPoll);
    let set = Action::SetTimer {
        timer: TimerKind::Poll,
        ms: crate::poll::retry_delay(n, interval) as u32,
    };
    let set2 = Action::SetTimer {
        timer: TimerKind::Poll,
        ms: crate::poll::retry_delay(n + 1, interval) as u32,
    };
    assert(r@ =~= seq![kill, set, Action::PostUsageUpdated]);
    assert(r@.drop_last() =~= seq![kill, set]);
    assert(q@ =~= seq![kill, set2, Action::PostUsageUpdated]);
    assert(q@.drop_last() =~= seq![kill, set2]);
}

/// A failure of the credentials stops polling and the countdowns: fast polling and
/// countdowns end, the poll timer runs at the user's interval to look for a change
/// of the credentials, and the sources to watch depend on the failure.
pub proof fn credential_failure_pauses_polling(
    shell: &mut Shell,
    error: PollError,
    at: Timestamp,
    snapshot: Vec<String>,
    r: Vec<Action>,
    before: Option<u32>,
)
    requires
        call_ensures(poll_failed, (shell, error, at, snapshot), r),
        old(shell).app is Some,
        error != PollError::RequestFailed,
    ensures
        timer_after(r@, TimerKind::Poll, before) == Some(
            old(shell).app->0.prefs.poll_interval_ms,
        ),
        timer_after(r@, TimerKind::ResetPoll, before) is None,
        timer_after(r@, TimerKind::Countdown, before) is None,
        r@.last() == Action::PostUsageUpdated,
        final(shell).app matches Some(b) && {
            &&& b.polling.auth_error_paused_polling
            &&& b.polling.auth_watch_snapshot == snapshot
            &&& b.polling.auth_watch_mode == (if error == PollError::NoCredentials {
                CredentialWatchMode::AllSources
            } else {
                CredentialWatchMode::ActiveSource
            })
            &&& b.polling.last_poll_status == Some(
                match error {
                    PollError::NoCredentials => UsagePollStatus::NoCredentials,
                    PollError::TokenExpired => UsagePollStatus::TokenExpired,
                    _ => UsagePollStatus::AuthRequired,
                },
            )
            &&& b.figures.session_text@ == "!"@
            &&& b.figures.weekly_text@ == "!"@
        },
{
    reveal_with_fuel(timer_after, 8);
    let s = old(shell).app->0;
    let k1 = Action::KillTimer(TimerKind::Poll);
    let k2 = Action::KillTimer(TimerKind::ResetPoll);
    let k3 = Action::KillTimer(TimerKind::Countdown);
    let set = Action::SetTimer { timer: TimerKind::Poll, ms: s.prefs.poll_interval_ms };
    let told = Action::NotifyAuthError {
        kind: crate::state::TrayIconKind::Claude,
        language: s.language,
    };
    if s.polling.retry_count == 0 || s.polling.force_notify_auth_error {
        assert(r@ =~= seq![k1, k2, k3, set, told, Action::PostUsageUpdated]);
        assert(r@.drop_last() =~= seq![k1, k2, k3, set, told]);
        assert(r@.drop_last().drop_last() =~= seq![k1, k2, k3, set]);
        assert(r@.drop_last().drop_last().drop_last() =~= seq![k1, k2, k3]);
        assert(r@.drop_last().drop_last().drop_last().drop_last() =~= seq![k1, k2]);
    } else {
        assert(r@ =~= seq![k1, k2, k3, set, Action::PostUsageUpdated]);
        assert(r@.drop_last() =~= seq![k1, k2, k3, set]);
        assert(r@.drop_last().drop_last() =~= seq![k1, k2, k3]);
        assert(r@.drop_last().drop_last().drop_last() =~= seq![k1, k2]);
    }
}

/// A balloon tells of a failure of the credentials exactly when it is the first
/// failure of a row or the user asked for the poll, and it does so once, in the
/// language of the interface.
pub proof fn credential_failure_is_told_once(
    shell: &mut Shell,
    error: PollError,
    at: Timestamp,
    snapshot: Vec<String>,
    r: Vec<Action>,
)
    requires
        call_ensures(poll_failed, (shell, error, at, snapshot), r),
        old(shell).app is Some,
    ensures
        (exists|i: int| 0 <= i < r@.len() && (#[trigger] r@[i]) is NotifyAuthError) <==> error
            != PollError::RequestFailed && (old(shell).app->0.polling.retry_count == 0 || old(
            shell,
        ).app->0.polling.force_notify_auth_error),
        forall|i: int|
            0 <= i < r@.len() && (#[trigger] r@[i]) is NotifyAuthError ==> (r@[i] matches
                Action::NotifyAuthError { kind, language } && language == old(
                shell,
            ).app->0.language),
        forall|i: int, j: int|
            0 <= i < r@.len() && 0 <= j < r@.len() && (#[trigger] r@[i]) is NotifyAuthError && (
            #[trigger] r@[j]) is NotifyAuthError ==> i == j,
        final(shell).app->0.polling.retry_count > 0,
        !final(shell).app->0.polling.force_notify_auth_error,
{
    let s = old(shell).app->0;
    if error != PollError::RequestFailed && (s.polling.retry_count == 0
        || s.polling.force_notify_auth_error) {
        assert(r@[4] is NotifyAuthError);
    }
}

/// A failure keeps the last answer: data, percentages and reset stay, nothing but
/// figures and polling changes, and one more failure is counted.
pub proof fn failure_keeps_the_answer(
    shell: &mut Shell,
    error: PollError,
    at: Timestamp,
    snapshot: Vec<String>,
    r: Vec<Action>,
)
    requires
        call_ensures(poll_failed, (shell, error, at, snapshot), r),
    ensures
        old(shell).app is None ==> final(shell).app is None && r@ =~= seq![
            Action::PostUsageUpdated,
        ],
        old(shell).app matches Some(a) ==> (final(shell).app matches Some(b) && {
            &&& only_figures_and_polling(a, b)
            &&& b.figures.data == a.figures.data
            &&& b.figures.session_percent == a.figures.session_percent
            &&& b.figures.weekly_percent == a.figures.weekly_percent
            &&& b.figures.session_resets_at == a.figures.session_resets_at
            &&& !b.polling.last_poll_ok
            &&& b.polling.last_poll_at == Some(at)
            &&& a.polling.retry_count < u32::MAX ==> b.polling.retry_count
                == a.polling.retry_count + 1
            &&& a.polling.retry_count == u32::MAX ==> b.polling.retry_count == u32::MAX
        }),
        final(shell).panel_reopen_until == old(shell).panel_reopen_until,
        final(shell).tray_reposition_until == old(shell).tray_reposition_until,
        final(shell).last_reposition == old(shell).last_reposition,
{
}

/// While the credentials stop polling no timer polls: the poll timer looks at the
/// sources that are watched, with what they were before. Otherwise both poll.
pub proof fn timers_poll_unless_paused(shell: Shell, r: Vec<Action>, q: Vec<Action>)
    requires
        call_ensures(on_poll_timer, (&shell,), r),
        call_ensures(on_reset_poll_timer, (&shell,), q),
    ensures
        shell.app is None ==> r@.len() == 0 && q@.len() == 0,
        shell.app matches Some(s) ==> {
            &&& r@.len() == 1
            &&& r@[0] == Action::SpawnPoll <==> !s.polling.auth_error_paused_polling
            &&& s.polling.auth_error_paused_polling ==> {
                &&& q@.len() == 0
                &&& r@[0] is SampleCredentials
                &&& r@[0]->mode == s.polling.auth_watch_mode
                &&& r@[0]->previous@ == s.polling.auth_watch_snapshot@
            }
            &&& !s.polling.auth_error_paused_polling ==> q@.len() == 1 && q@[0]
                == Action::SpawnPoll
        },
{
}

/// Polling is tried again exactly when the watched sources read otherwise than
/// before; what they read now is then the state to compare with, if they are still
/// the ones that are watched. Nothing else changes.
pub proof fn changed_credentials_are_tried(
    shell: &mut Shell,
    mode: CredentialWatchMode,
    previous: Vec<String>,
    current: Vec<String>,
    r: Vec<Action>,
)
    requires
        call_ensures(credentials_sampled, (shell, mode, previous, current), r),
    ensures
        ({
            let changed = current@.len() != previous@.len() || exists|i: int|
                0 <= i < current@.len() && (#[trigger] current@[i])@ != previous@[i]@;
            &&& changed ==> r@.len() == 1 && r@[0] == Action::SpawnPoll
            &&& !changed ==> r@.len() == 0 && *final(shell) == *old(shell)
            &&& old(shell).app is None ==> final(shell).app is None
            &&& old(shell).app matches Some(a) ==> (final(shell).app matches Some(b) && {
                &&& only_figures_and_polling(a, b)
                &&& b.figures == a.figures
                &&& changed && a.polling.auth_error_paused_polling && a.polling.auth_watch_mode
                    == mode ==> b.polling.auth_watch_snapshot == current
                &&& !(a.polling.auth_error_paused_polling && a.polling.auth_watch_mode == mode)
                    ==> b == a
                &&& b.polling.auth_error_paused_polling == a.polling.auth_error_paused_polling
                &&& b.polling.auth_watch_mode == a.polling.auth_watch_mode
                &&& b.polling.retry_count == a.polling.retry_count
                &&& b.polling.last_poll_ok == a.polling.last_poll_ok
            })
        }),
{
    let x = crate::poll::views(current@);
    let y = crate::poll::views(previous@);
    if current@.len() == previous@.len() && (forall|i: int|
        0 <= i < current@.len() ==> (#[trigger] current@[i])@ == previous@[i]@) {
        assert(x =~= y);
    } else if current@.len() == previous@.len() {
        let i = choose|i: int|
            0 <= i < current@.len() && (#[trigger] current@[i])@ != previous@[i]@;
        assert(x[i] != y[i]);
    } else {
        assert(x.len() != y.len());
    }
}

/// Bringing the display up to date puts the figures of the data at hand on
/// display, but never in the place of the text of a failure.
pub proof fn display_follows_the_data(shell: &mut Shell, lines: UsageLines, r: ())
    requires
        call_ensures(update_display, (shell, lines), r),
    ensures
        old(shell).app is None ==> final(shell).app is None,
        old(shell).app matches Some(a) ==> (final(shell).app matches Some(b) && {
            &&& only_figures_and_polling(a, b)
            &&& b.polling == a.polling
            &&& b.figures.data == a.figures.data
            &&& b.figures.session_percent == a.figures.session_percent
            &&& b.figures.weekly_percent == a.figures.weekly_percent
            &&& !a.polling.last_poll_ok || a.figures.data is None ==> b.figures == a.figures
            &&& a.polling.last_poll_ok ==> (a.figures.data matches Some(data) ==> (
            data.claude_code matches Some(usage) ==> {
                &&& b.figures.session_text == lines.session
                &&& b.figures.weekly_text == lines.weekly
                &&& b.figures.session_resets_at == usage.session.resets_at
            }))
            &&& a.polling.last_poll_ok ==> (a.figures.data matches Some(data) ==> (
            data.claude_code is None && a.prefs.show_claude_code ==> {
                &&& b.figures.session_text@ == "!"@
                &&& b.figures.weekly_text@ == "!"@
                &&& b.figures.session_resets_at is None
            }))
            &&& a.polling.last_poll_ok ==> (a.figures.data matches Some(data) ==> (
            data.claude_code is None && !a.prefs.show_claude_code ==> b.figures == a.figures))
        }),
        final(shell).panel_reopen_until == old(shell).panel_reopen_until,
        final(shell).tray_reposition_until == old(shell).tray_reposition_until,
        final(shell).last_reposition == old(shell).last_reposition,
{
}

/// A poll asks for the model that is shown, and without a state for every model.
pub proof fn shown_model_is_polled(shell: Shell, r: bool)
    requires
        call_ensures(polls_model, (&shell,), r),
    ensures
        shell.app is None ==> r,
        shell.app matches Some(s) ==> r == s.prefs.show_claude_code,
{
}

/// The countdowns are drawn again when the first of them changes, but not within a
/// second, and in a minute where none is known to change. A window that has run
/// out is polled for every five seconds. After a failure no countdown runs.
pub proof fn countdowns_are_drawn_when_they_change(
    shell: Shell,
    past_reset: bool,
    session: Option<u128>,
    weekly: Option<u128>,
    r: Vec<Action>,
    before: Option<u32>,
)
    requires
        call_ensures(schedule_countdown_timer, (&shell, past_reset, session, weekly), r),
        session matches Some(wait) ==> wait <= u32::MAX,
        weekly matches Some(wait) ==> wait <= u32::MAX,
    ensures
        shell.app is None ==> r@.len() == 0,
        timer_after(r@, TimerKind::Poll, before) == before,
        shell.app matches Some(s) ==> {
            let countdown = timer_after(r@, TimerKind::Countdown, before);
            let reset = timer_after(r@, TimerKind::ResetPoll, before);
            &&& !s.polling.last_poll_ok ==> countdown is None && reset is None
            &&& s.polling.last_poll_ok && s.figures.data is None ==> r@.len() == 0
            &&& s.polling.last_poll_ok && s.figures.data is Some ==> {
                &&& reset == if past_reset {
                    Some(5_000u32)
                } else {
                    before
                }
                &&& countdown is Some
                &&& countdown->0 >= 1000
                &&& session is None && weekly is None ==> countdown->0 == 60_000
                &&& session matches Some(wait) ==> countdown->0 <= wait || countdown->0 == 1000
                &&& weekly matches Some(wait) ==> countdown->0 <= wait || countdown->0 == 1000
                &&& countdown->0 > 1000 && (session is Some || weekly is Some) ==> session == Some(
                    countdown->0 as u128,
                ) || weekly == Some(countdown->0 as u128)
                &&& countdown->0 == 1000 && (session is Some || weekly is Some) ==> (
                session matches Some(wait) && wait <= 1000) || (weekly matches Some(wait) && wait
                    <= 1000)
            }
        },
{
    reveal_with_fuel(timer_after, 4);
    if shell.app is Some {
        let s = shell.app->0;
        let k1 = Action::KillTimer(TimerKind::Countdown);
        let k2 = Action::KillTimer(TimerKind::ResetPoll);
        let fast = Action::SetTimer { timer: TimerKind::ResetPoll, ms: 5_000 };
        let set = Action::SetTimer {
            timer: TimerKind::Countdown,
            ms: crate::poll::countdown_ms(session, weekly),
        };
        if !s.polling.last_poll_ok {
            assert(r@ =~= seq![k1, k2]);
            assert(r@.drop_last() =~= seq![k1]);
        } else if s.figures.data is Some {
            if past_reset {
                assert(r@ =~= seq![fast, set]);
                assert(r@.drop_last() =~= seq![fast]);
            } else {
                assert(r@ =~= seq![set]);
            }
        }
    }
}

/// The countdowns wait for the shorter of the two waits, a second at least; a wait that
/// 32 bits do not hold is cut to its low half.
pub proof fn countdown_waits_for_the_sooner_change(
    shell: Shell,
    past_reset: bool,
    session: Option<u128>,
    weekly: Option<u128>,
    r: Vec<Action>,
)
    requires
        call_ensures(schedule_countdown_timer, (&shell, past_reset, session, weekly), r),
        shell.app is Some,
        shell.app->0.polling.last_poll_ok,
        shell.app->0.figures.data is Some,
    ensures
        r@.len() == if past_reset {
            2
        } else {
            1int
        },
        r@.last() matches Action::SetTimer { timer, ms } && timer is Countdown && ({
            let sooner = if session is Some && (weekly is None || session->0 <= weekly->0) {
                session
            } else {
                weekly
            };
            let wait = if sooner is Some {
                sooner->0 as int
            } else {
                60_000
            };
            &&& wait >= 1000 ==> ms == wait % 0x1_0000_0000
            &&& wait < 1000 ==> ms == 1000
        }),
{
    let sooner = if session is Some && (weekly is None || session->0 <= weekly->0) {
        session
    } else {
        weekly
    };
    if let Some(wait) = sooner {
        assert(wait as u32 == wait % 0x1_0000_0000u128) by (bit_vector);
    }
}

} // verus!
