//! The search for newer releases: when it is due, and what its outcome leads to.

use crate::localization::LanguageId;
use crate::localization::Strings;
use crate::state::update_in_progress;
use crate::state::Action;
use crate::state::AppState;
use crate::state::InstallChannel;
use crate::state::Notice;
use crate::state::Preferences;
use crate::state::ReleaseDescriptor;
use crate::state::Shell;
use crate::state::TimerKind;
use crate::state::UpdateStatus;
use crate::text::join3;
use crate::text::replace;
use crate::text::replaced;
use vstd::prelude::*;

verus! {

/// The time between two searches, in seconds.
pub const UPDATE_CHECK_INTERVAL_SECS: u64 = 86_400;

/// The seconds since the last search, none where the clock was set back.
pub open spec fn since(last: u64, now: u64) -> int {
    if now >= last {
        now - last
    } else {
        0
    }
}

/// A search is due where there was none yet, and a day after the last one.
pub open spec fn check_due(last: Option<u64>, now: u64) -> bool {
    match last {
        Some(last) => since(last, now) >= UPDATE_CHECK_INTERVAL_SECS,
        None => true,
    }
}

/// Whether a search for newer releases is due. Both times are seconds since the
/// start of 1970.
pub fn auto_update_check_due(last: Option<u64>, now: u64) -> (r: bool)
    ensures
        r == check_due(last, now),
{
    match last {
        Some(last) => now.saturating_sub(last) >= UPDATE_CHECK_INTERVAL_SECS,
        None => true,
    }
}

/// The timer of the next search.
pub open spec fn check_timer(last: Option<u64>, now: u64) -> Seq<Action> {
    if check_due(last, now) {
        seq![Action::KillTimer(TimerKind::UpdateCheck)]
    } else {
        seq![
            Action::KillTimer(TimerKind::UpdateCheck),
            Action::SetTimer {
                timer: TimerKind::UpdateCheck,
                ms: ((UPDATE_CHECK_INTERVAL_SECS - since(last->0, now)) * 1000) as u32,
            },
        ]
    }
}

/// Sets the timer of the next search; a search that is due already has none.
pub fn schedule_auto_update_check(shell: &Shell, now: u64) -> (r: Vec<Action>)
    ensures
        r@ == match shell.app {
            Some(s) => check_timer(s.prefs.last_update_check_unix, now),
            None => Seq::empty(),
        },
{
    let mut actions: Vec<Action> = Vec::new();
    let last = match &shell.app {
        Some(s) => s.prefs.last_update_check_unix,
        None => return actions,
    };
    actions.push(Action::KillTimer(TimerKind::UpdateCheck));
    if !auto_update_check_due(last, now) {
        let elapsed: u64 = now.saturating_sub(last.unwrap_or(0));
        let remaining: u64 = UPDATE_CHECK_INTERVAL_SECS - elapsed;
        let ms: u32 = (remaining * 1000) as u32;
        actions.push(Action::SetTimer { timer: TimerKind::UpdateCheck, ms });
    }
    assert(actions@ =~= check_timer(last, now));
    actions
}

/// The timer fires exactly when the search becomes due: a day after the last
/// one, and at once never.
pub proof fn lemma_check_timer_fires_when_due(last: u64, now: u64, ms: u32)
    requires
        last <= now,
        check_timer(Some(last), now).contains(
            Action::SetTimer { timer: TimerKind::UpdateCheck, ms },
        ),
    ensures
        ms > 0,
        ms % 1000 == 0,
        now + ms / 1000 == last + UPDATE_CHECK_INTERVAL_SECS,
{
    let timer = check_timer(Some(last), now);
    assert(!check_due(Some(last), now)) by {
        if check_due(Some(last), now) {
            let i = choose|i: int|
                0 <= i < timer.len() && timer[i] == (Action::SetTimer {
                    timer: TimerKind::UpdateCheck,
                    ms,
                });
            assert(i == 0);
        }
    }
    let i = choose|i: int|
        0 <= i < timer.len() && timer[i] == (Action::SetTimer {
            timer: TimerKind::UpdateCheck,
            ms,
        });
    assert(i == 1);
}

/// What a request for a search leads to: a refusal while one is under way, told
/// only to a user who asked for it, and else the search.
pub open spec fn check_requested(
    a: AppState,
    b: AppState,
    interactive: bool,
    actions: Seq<Action>,
) -> bool {
    if a.update_status.in_progress() {
        &&& b == a
        &&& actions == if interactive {
            seq![Action::ShowNotice { notice: Notice::UpdateInProgress, language: a.language }]
        } else {
            Seq::empty()
        }
    } else {
        &&& b == (AppState { update_status: UpdateStatus::Checking, ..a })
        &&& actions == seq![
            Action::SpawnUpdateCheck {
                interactive,
                channel: a.install_channel,
                language: a.language,
            },
        ]
    }
}

/// What a request for a search does to the shell.
pub open spec fn check_begun(
    a: Shell,
    b: Shell,
    interactive: bool,
    actions: Seq<Action>,
) -> bool {
    &&& b == (Shell { app: b.app, ..a })
    &&& match a.app {
        Some(s) => b.app matches Some(t) && check_requested(s, t, interactive, actions),
        None => b.app is None && actions.len() == 0,
    }
}

/// A search for newer releases is asked for, by the user or by the timer.
pub fn begin_update_check(shell: &mut Shell, interactive: bool) -> (r: Vec<Action>)
    ensures
        check_begun(*old(shell), *final(shell), interactive, r@),
        old(shell).app matches Some(a) ==> (a.update_status is Idle || a.update_status is UpToDate
            || a.update_status is Available ==> {
            &&& final(shell).app matches Some(b)
            &&& b.update_status is Checking
            &&& r@.len() == 1
            &&& r@[0] == (Action::SpawnUpdateCheck {
                interactive,
                channel: a.install_channel,
                language: a.language,
            })
        }),
{
    let mut actions: Vec<Action> = Vec::new();
    match &mut shell.app {
        Some(s) => {
            if update_in_progress(&s.update_status) {
                if interactive {
                    actions.push(
                        Action::ShowNotice {
                            notice: Notice::UpdateInProgress,
                            language: s.language,
                        },
                    );
                }
            } else {
                s.update_status = UpdateStatus::Checking;
                actions.push(
                    Action::SpawnUpdateCheck {
                        interactive,
                        channel: s.install_channel,
                        language: s.language,
                    },
                );
            }
        },
        None => {},
    }
    actions
}

/// What a search found.
#[derive(Debug)]
pub enum UpdateOutcome {
    UpToDate,
    Available(ReleaseDescriptor),
    Failed(String),
}

/// The status that a search leaves behind; a failed one leaves none.
pub open spec fn status_after(outcome: UpdateOutcome) -> UpdateStatus {
    match outcome {
        UpdateOutcome::UpToDate => UpdateStatus::UpToDate,
        UpdateOutcome::Available(release) => UpdateStatus::Available(release),
        UpdateOutcome::Failed(_) => UpdateStatus::Idle,
    }
}

/// The work after a search: the time of it is kept, and a user who asked for it
/// is told the outcome.
pub open spec fn outcome_actions(
    outcome: UpdateOutcome,
    interactive: bool,
    channel: InstallChannel,
    language: LanguageId,
) -> Seq<Action> {
    let told = match outcome {
        UpdateOutcome::UpToDate => Action::ShowNotice { notice: Notice::UpToDate, language },
        UpdateOutcome::Available(release) => Action::PromptUpdate { release, channel, language },
        UpdateOutcome::Failed(error) => Action::ShowUpdateError { language, error },
    };
    if interactive {
        seq![Action::SaveSettings, told, Action::PostUpdateCheckComplete]
    } else {
        seq![Action::SaveSettings, Action::PostUpdateCheckComplete]
    }
}

/// The shell after a search.
pub open spec fn check_finished(a: Shell, outcome: UpdateOutcome, checked_at: u64) -> Shell {
    match a.app {
        Some(s) => Shell {
            app: Some(
                AppState {
                    update_status: status_after(outcome),
                    prefs: Preferences { last_update_check_unix: Some(checked_at), ..s.prefs },
                    ..s
                },
            ),
            ..a
        },
        None => a,
    }
}

/// A search ended. `channel` and `language` are those of its beginning.
pub fn finish_update_check(
    shell: &mut Shell,
    outcome: UpdateOutcome,
    checked_at: u64,
    interactive: bool,
    channel: InstallChannel,
    language: LanguageId,
) -> (r: Vec<Action>)
    ensures
        *final(shell) == check_finished(*old(shell), outcome, checked_at),
        r@ == outcome_actions(outcome, interactive, channel, language),
{
    let mut actions: Vec<Action> = Vec::new();
    actions.push(Action::SaveSettings);
    let (status, told) = match outcome {
        UpdateOutcome::UpToDate => (
            UpdateStatus::UpToDate,
            Action::ShowNotice { notice: Notice::UpToDate, language },
        ),
        UpdateOutcome::Available(release) => (
            UpdateStatus::Available(release.duplicate()),
            Action::PromptUpdate { release, channel, language },
        ),
        UpdateOutcome::Failed(error) => (
            UpdateStatus::Idle,
            Action::ShowUpdateError { language, error },
        ),
    };
    match &mut shell.app {
        Some(s) => {
            s.update_status = status;
            s.prefs.last_update_check_unix = Some(checked_at);
        },
        None => {},
    }
    if interactive {
        actions.push(told);
    }
    actions.push(Action::PostUpdateCheckComplete);
    assert(actions@ =~= outcome_actions(outcome, interactive, channel, language));
    actions
}

/// The installation that suits the way the program was installed.
pub open spec fn install_action(channel: InstallChannel, release: ReleaseDescriptor) -> Action {
    match channel {
        InstallChannel::Portable => Action::BeginUpdateApply(release),
        InstallChannel::Winget => Action::BeginWingetUpdate,
    }
}

/// The user answered whether to install a release that was found.
pub fn update_prompt_answered(
    accepted: bool,
    channel: InstallChannel,
    release: ReleaseDescriptor,
) -> (r: Vec<Action>)
    ensures
        r@ == if accepted {
            seq![install_action(channel, release)]
        } else {
            Seq::empty()
        },
{
    let mut actions: Vec<Action> = Vec::new();
    if accepted {
        match channel {
            InstallChannel::Portable => actions.push(Action::BeginUpdateApply(release)),
            InstallChannel::Winget => actions.push(Action::BeginWingetUpdate),
        }
    }
    actions
}

/// The user chose the version entry of the menu: install the release that was
/// found, or search for one.
pub open spec fn version_actions(s: Option<AppState>) -> Seq<Action> {
    match s {
        Some(s) => match s.update_status {
            UpdateStatus::Available(release) => seq![install_action(s.install_channel, release)],
            _ => seq![Action::BeginUpdateCheck { interactive: true }],
        },
        None => seq![Action::BeginUpdateCheck { interactive: true }],
    }
}

/// The user chose the version entry of the menu.
pub fn on_version_action(shell: &Shell) -> (r: Vec<Action>)
    ensures
        r@ == version_actions(shell.app),
{
    let mut actions: Vec<Action> = Vec::new();
    match &shell.app {
        Some(s) => match &s.update_status {
            UpdateStatus::Available(release) => match s.install_channel {
                InstallChannel::Portable => {
                    actions.push(Action::BeginUpdateApply(release.duplicate()));
                },
                InstallChannel::Winget => {
                    actions.push(Action::BeginWingetUpdate);
                },
            },
            _ => {
                actions.push(Action::BeginUpdateCheck { interactive: true });
            },
        },
        None => {
            actions.push(Action::BeginUpdateCheck { interactive: true });
        },
    }
    actions
}

/// What a request to install a release leads to.
pub open spec fn apply_requested(
    a: AppState,
    b: AppState,
    release: ReleaseDescriptor,
    actions: Seq<Action>,
) -> bool {
    if a.update_status.in_progress() {
        &&& b == a
        &&& actions == seq![
            Action::ShowNotice { notice: Notice::UpdateInProgress, language: a.language },
        ]
    } else {
        &&& b == (AppState { update_status: UpdateStatus::Applying, ..a })
        &&& actions == seq![Action::SpawnUpdateApply { release, language: a.language }]
    }
}

/// What a request for an installation does to the shell.
pub open spec fn apply_begun(
    a: Shell,
    b: Shell,
    release: ReleaseDescriptor,
    actions: Seq<Action>,
) -> bool {
    &&& b == (Shell { app: b.app, ..a })
    &&& match a.app {
        Some(s) => b.app matches Some(t) && apply_requested(s, t, release, actions),
        None => b.app is None && actions.len() == 0,
    }
}

/// The installation of a release is asked for.
pub fn begin_update_apply(shell: &mut Shell, release: ReleaseDescriptor) -> (r: Vec<Action>)
    ensures
        apply_begun(*old(shell), *final(shell), release, r@),
{
    let mut actions: Vec<Action> = Vec::new();
    match &mut shell.app {
        Some(s) => {
            if update_in_progress(&s.update_status) {
                actions.push(
                    Action::ShowNotice { notice: Notice::UpdateInProgress, language: s.language },
                );
            } else {
                s.update_status = UpdateStatus::Applying;
                actions.push(Action::SpawnUpdateApply { release, language: s.language });
            }
        },
        None => {},
    }
    actions
}

/// The shell after an installation was to start: a release that could not be
/// installed is on offer again.
pub open spec fn apply_finished(
    a: Shell,
    failure: Option<String>,
    release: ReleaseDescriptor,
) -> Shell {
    match (a.app, failure) {
        (Some(s), Some(_)) => Shell {
            app: Some(AppState { update_status: UpdateStatus::Available(release), ..s }),
            ..a
        },
        _ => a,
    }
}

/// An installation has started, so the program closes, or it could not be
/// started, so the release is on offer again.
pub fn finish_update_apply(
    shell: &mut Shell,
    failure: Option<String>,
    release: ReleaseDescriptor,
    language: LanguageId,
) -> (r: Vec<Action>)
    ensures
        *final(shell) == apply_finished(*old(shell), failure, release),
        r@ == match failure {
            None => seq![Action::PostClose],
            Some(error) => seq![
                Action::ShowUpdateError { language, error },
                Action::PostUpdateCheckComplete,
            ],
        },
{
    let mut actions: Vec<Action> = Vec::new();
    match failure {
        None => {
            actions.push(Action::PostClose);
        },
        Some(error) => {
            match &mut shell.app {
                Some(s) => {
                    s.update_status = UpdateStatus::Available(release);
                },
                None => {},
            }
            actions.push(Action::ShowUpdateError { language, error });
            actions.push(Action::PostUpdateCheckComplete);
        },
    }
    actions
}

/// An update through winget has started, so the program closes, or it could not
/// be started.
pub fn finish_winget_update(failure: Option<String>, language: LanguageId) -> (r: Vec<Action>)
    ensures
        r@ == match failure {
            None => seq![Action::PostClose],
            Some(error) => seq![Action::ShowUpdateError { language, error }],
        },
{
    let mut actions: Vec<Action> = Vec::new();
    match failure {
        None => actions.push(Action::PostClose),
        Some(error) => actions.push(Action::ShowUpdateError { language, error }),
    }
    actions
}

/// Title and text of a message box.
pub fn notice_text(notice: Notice, strings: &Strings) -> (r: (&'static str, &'static str))
    ensures
        r.0@ == strings.updates@,
        r.1@ == match notice {
            Notice::UpdateInProgress => strings.update_in_progress@,
            Notice::UpToDate => strings.up_to_date@,
        },
{
    match notice {
        Notice::UpdateInProgress => (strings.updates, strings.update_in_progress),
        Notice::UpToDate => (strings.updates, strings.up_to_date),
    }
}

/// The text of the message box after a failed search or installation.
pub fn update_failure_text(strings: &Strings, error: &str) -> (r: String)
    ensures
        r@ == strings.update_failed@ + ".\n\n"@ + error@,
{
    join3(strings.update_failed, ".\n\n", error)
}

/// The question whether to install a release.
pub fn update_prompt_text(strings: &Strings, release: &ReleaseDescriptor) -> (r: String)
    ensures
        r@ == replaced(strings.update_prompt_now@, "{version}"@, release.latest_version@),
{
    proof {
        reveal_strlit("{version}");
    }
    replace(strings.update_prompt_now, "{version}", release.latest_version.as_str())
}

/// What the version entry of the menu offers, behind the current version.
pub open spec fn version_offer(
    strings: Strings,
    via_winget: Seq<char>,
    channel: InstallChannel,
    status: UpdateStatus,
) -> Seq<char> {
    match status {
        UpdateStatus::Idle => strings.check_for_updates@,
        UpdateStatus::Checking => strings.checking_for_updates@,
        UpdateStatus::Applying => strings.applying_update@,
        UpdateStatus::UpToDate => strings.up_to_date_short@,
        UpdateStatus::Available(release) => match channel {
            InstallChannel::Portable => strings.update_to@ + " v"@ + release.latest_version@,
            InstallChannel::Winget => via_winget + " v"@ + release.latest_version@,
        },
    }
}

/// The label of the version entry of the menu. `current` is the version that
/// runs, `via_winget` the phrase for an update through winget.
pub fn version_action_label(
    strings: &Strings,
    via_winget: &str,
    channel: InstallChannel,
    status: &UpdateStatus,
    current: &str,
) -> (r: String)
    ensures
        r@ == "v"@ + current@ + " - "@ + version_offer(*strings, via_winget@, channel, *status),
{
    let mut label = join3("v", current, " - ");
    match status {
        UpdateStatus::Idle => label.append(strings.check_for_updates),
        UpdateStatus::Checking => label.append(strings.checking_for_updates),
        UpdateStatus::Applying => label.append(strings.applying_update),
        UpdateStatus::UpToDate => label.append(strings.up_to_date_short),
        UpdateStatus::Available(release) => {
            let phrase = match channel {
                InstallChannel::Portable => strings.update_to,
                InstallChannel::Winget => via_winget,
            };
            let offer = join3(phrase, " v", release.latest_version.as_str());
            label.append(offer.as_str());
        },
    }
    label
}

/// At most one search or installation runs at a time: a request that starts one
/// finds none under way, and leaves one under way.
pub proof fn lemma_one_update_at_a_time(
    a: AppState,
    b: AppState,
    release: ReleaseDescriptor,
    interactive: bool,
    actions: Seq<Action>,
    i: int,
)
    requires
        check_requested(a, b, interactive, actions) || apply_requested(a, b, release, actions),
        0 <= i < actions.len(),
        actions[i] is SpawnUpdateCheck || actions[i] is SpawnUpdateApply,
    ensures
        !a.update_status.in_progress(),
        b.update_status.in_progress(),
{
}

/// An update leaves what the user chose alone, but for the time of the search.
pub proof fn lemma_update_keeps_the_interval(
    a: AppState,
    b: AppState,
    release: ReleaseDescriptor,
    interactive: bool,
    actions: Seq<Action>,
)
    requires
        check_requested(a, b, interactive, actions) || apply_requested(a, b, release, actions),
    ensures
        b.prefs == a.prefs,
        b.well_formed() == a.well_formed(),
{
}

/// A search that ended leaves nothing under way, and the next one is a day after
/// it, if nothing else asks for it.
pub proof fn lemma_next_check_is_a_day_later(a: Shell, outcome: UpdateOutcome, checked_at: u64)
    requires
        a.app is Some,
    ensures
        check_finished(a, outcome, checked_at).app matches Some(t) && {
            &&& !t.update_status.in_progress()
            &&& check_timer(t.prefs.last_update_check_unix, checked_at) =~= seq![
                Action::KillTimer(TimerKind::UpdateCheck),
                Action::SetTimer { timer: TimerKind::UpdateCheck, ms: 86_400_000 },
            ]
        },
{
}

} // verus!
