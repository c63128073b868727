//! The search for newer releases: once a day or on demand, one at a time.

use crate::localization::LanguageId;
use crate::localization::Strings;
use crate::promises::polling::timer_after;
use crate::state::Action;
use crate::state::AppState;
use crate::state::InstallChannel;
use crate::state::Notice;
use crate::state::Preferences;
use crate::state::ReleaseDescriptor;
use crate::state::Shell;
use crate::state::TimerKind;
use crate::state::UpdateStatus;
use crate::update::auto_update_check_due;
use crate::update::begin_update_apply;
use crate::update::begin_update_check;
use crate::update::finish_update_apply;
use crate::update::finish_update_check;
use crate::update::finish_winget_update;
use crate::update::on_version_action;
use crate::update::schedule_auto_update_check;
use crate::update::update_prompt_answered;
use crate::update::version_action_label;
use crate::update::UpdateOutcome;
use vstd::prelude::*;

verus! {

/// The moments up to which reactions are held back are the same in two shells.
pub open spec fn same_moments(a: Shell, b: Shell) -> bool {
    &&& b.panel_reopen_until == a.panel_reopen_until
    &&& b.tray_reposition_until == a.tray_reposition_until
    &&& b.last_reposition == a.last_reposition
}

/// A search is refused exactly while another one or an installation is under way,
/// and a user who asked for it is told so. In every other status, also after a
/// search that found nothing, it starts.
pub proof fn search_starts_unless_one_is_under_way(
    shell: &mut Shell,
    interactive: bool,
    r: Vec<Action>,
)
    requires
        call_ensures(begin_update_check, (shell, interactive), r),
    ensures
        same_moments(*old(shell), *final(shell)),
        old(shell).app is None ==> final(shell).app is None && r@.len() == 0,
        old(shell).app matches Some(a) ==> (final(shell).app matches Some(b) && {
            let free = a.update_status is Idle || a.update_status is UpToDate
                || a.update_status is Available;
            &&& free ==> {
                &&& b.update_status is Checking
                &&& r@.len() == 1
                &&& r@[0] == Action::SpawnUpdateCheck {
                    interactive,
                    channel: a.install_channel,
                    language: a.language,
                }
            }
            &&& !free ==> b.update_status == a.update_status
            &&& !free && interactive ==> r@.len() == 1 && r@[0] == Action::ShowNotice {
                notice: Notice::UpdateInProgress,
                language: a.language,
            }
            &&& !free && !interactive ==> r@.len() == 0
            &&& b == (AppState { update_status: b.update_status, ..a })
        }),
{
}

/// The end of a search: its time is kept and saved, a release that was found is on
/// offer, and a user who asked for it is told the outcome. The next search can
/// start.
pub proof fn search_ends_with_its_outcome(
    shell: &mut Shell,
    outcome: UpdateOutcome,
    at: u64,
    interactive: bool,
    channel: InstallChannel,
    language: LanguageId,
    r: Vec<Action>,
)
    requires
        call_ensures(
            finish_update_check,
            (shell, outcome, at, interactive, channel, language),
            r,
        ),
    ensures
        same_moments(*old(shell), *final(shell)),
        old(shell).app is None ==> final(shell).app is None,
        old(shell).app matches Some(a) ==> (final(shell).app matches Some(b) && {
            &&& outcome is UpToDate ==> b.update_status is UpToDate
            &&& outcome is Failed ==> b.update_status is Idle
            &&& outcome matches UpdateOutcome::Available(release) ==> b.update_status
                == UpdateStatus::Available(release)
            &&& b.prefs == (Preferences { last_update_check_unix: Some(at), ..a.prefs })
            &&& b == (AppState { update_status: b.update_status, prefs: b.prefs, ..a })
        }),
        r@[0] == Action::SaveSettings,
        r@.last() == Action::PostUpdateCheckComplete,
        !interactive ==> r@.len() == 2,
        interactive ==> {
            &&& r@.len() == 3
            &&& outcome is UpToDate ==> r@[1] == Action::ShowNotice {
                notice: Notice::UpToDate,
                language,
            }
            &&& outcome matches UpdateOutcome::Available(release) ==> r@[1]
                == Action::PromptUpdate { release, channel, language }
            &&& outcome matches UpdateOutcome::Failed(error) ==> r@[1] == Action::ShowUpdateError {
                language,
                error,
            }
        },
{
}

/// The search is due a day after the last one, and at once where there was none.
/// Before that the timer is set to that very moment; after it there is no timer.
pub proof fn search_comes_once_a_day(
    shell: Shell,
    last: Option<u64>,
    now: u64,
    due: bool,
    r: Vec<Action>,
    before: Option<u32>,
)
    requires
        call_ensures(auto_update_check_due, (last, now), due),
        call_ensures(schedule_auto_update_check, (&shell, now), r),
        shell.app is Some ==> shell.app->0.prefs.last_update_check_unix == last,
    ensures
        last is None ==> due,
        last matches Some(at) ==> (due <==> now >= at + 86_400),
        shell.app is None ==> r@.len() == 0,
        shell.app is Some && due ==> timer_after(r@, TimerKind::UpdateCheck, before) is None,
        shell.app is Some && !due ==> {
            let ms = timer_after(r@, TimerKind::UpdateCheck, before);
            &&& ms is Some
            &&& now >= last->0 ==> ms->0 == (last->0 + 86_400 - now) * 1000
            &&& now < last->0 ==> ms->0 == 86_400_000
        },
        timer_after(r@, TimerKind::Poll, before) == before,
{
    reveal_with_fuel(timer_after, 4);
    if shell.app is Some {
        let kill = Action::KillTimer(TimerKind::UpdateCheck);
        if due {
            assert(r@ =~= seq![kill]);
        } else {
            assert(r@.len() == 2);
            assert(r@.drop_last() =~= seq![kill]);
        }
    }
}

/// An installation is refused exactly while a search or another one is under way,
/// and the user is told so; else it starts, with the release that was asked for.
pub proof fn installation_starts_unless_one_is_under_way(
    shell: &mut Shell,
    release: ReleaseDescriptor,
    r: Vec<Action>,
)
    requires
        call_ensures(begin_update_apply, (shell, release), r),
    ensures
        same_moments(*old(shell), *final(shell)),
        old(shell).app is None ==> final(shell).app is None && r@.len() == 0,
        old(shell).app matches Some(a) ==> (final(shell).app matches Some(b) && {
            let busy = a.update_status is Checking || a.update_status is Applying;
            &&& r@.len() == 1
            &&& !busy ==> b.update_status is Applying && r@[0] == Action::SpawnUpdateApply {
                release,
                language: a.language,
            }
            &&& busy ==> b.update_status == a.update_status && r@[0] == Action::ShowNotice {
                notice: Notice::UpdateInProgress,
                language: a.language,
            }
            &&& b == (AppState { update_status: b.update_status, ..a })
        }),
{
}

/// An installation that started closes the program; one that could not start is
/// told, and its release is on offer again.
pub proof fn installation_closes_the_program_or_is_told(
    shell: &mut Shell,
    failure: Option<String>,
    release: ReleaseDescriptor,
    language: LanguageId,
    r: Vec<Action>,
    winget: Vec<Action>,
)
    requires
        call_ensures(finish_update_apply, (shell, failure, release, language), r),
        call_ensures(finish_winget_update, (failure, language), winget),
    ensures
        failure is None ==> {
            &&& *final(shell) == *old(shell)
            &&& r@.len() == 1 && r@[0] == Action::PostClose
            &&& winget@.len() == 1 && winget@[0] == Action::PostClose
        },
        failure matches Some(error) ==> {
            &&& r@.len() == 2
            &&& r@[0] == Action::ShowUpdateError { language, error }
            &&& r@[1] == Action::PostUpdateCheckComplete
            &&& winget@.len() == 1 && winget@[0] == Action::ShowUpdateError { language, error }
            &&& old(shell).app is None ==> final(shell).app is None
            &&& old(shell).app matches Some(a) ==> final(shell).app == Some(
                AppState { update_status: UpdateStatus::Available(release), ..a },
            )
        },
        same_moments(*old(shell), *final(shell)),
{
}

/// A release is installed the way the program was: by itself where it is portable,
/// else through winget. A release that is on offer is installed by the version
/// entry of the menu, which searches in any other status; an offer that is turned
/// down installs nothing.
pub proof fn release_is_installed_as_the_program_was(
    shell: Shell,
    accepted: bool,
    channel: InstallChannel,
    release: ReleaseDescriptor,
    answered: Vec<Action>,
    chosen: Vec<Action>,
)
    requires
        call_ensures(update_prompt_answered, (accepted, channel, release), answered),
        call_ensures(on_version_action, (&shell,), chosen),
    ensures
        !accepted ==> answered@.len() == 0,
        accepted ==> answered@.len() == 1,
        accepted && channel is Portable ==> answered@[0] == Action::BeginUpdateApply(release),
        accepted && channel is Winget ==> answered@[0] == Action::BeginWingetUpdate,
        chosen@.len() == 1,
        shell.app is Some && shell.app->0.update_status is Available ==> {
            &&& shell.app->0.install_channel is Winget ==> chosen@[0] == Action::BeginWingetUpdate
            &&& shell.app->0.install_channel is Portable ==> (chosen@[0] matches
                Action::BeginUpdateApply(release) && shell.app->0.update_status
                == UpdateStatus::Available(release))
        },
        shell.app is None || !(shell.app->0.update_status is Available) ==> chosen@[0] == (
            Action::BeginUpdateCheck { interactive: true }),
{
}

/// The version entry of the menu tells the version that runs, and what the entry
/// offers in this status.
pub proof fn version_entry_tells_the_status(
    strings: Strings,
    via_winget: &str,
    channel: InstallChannel,
    status: UpdateStatus,
    current: &str,
    r: String,
)
    requires
        call_ensures(
            version_action_label,
            (&strings, via_winget, channel, &status, current),
            r,
        ),
    ensures
        ({
            let head = "v"@ + current@ + " - "@;
            &&& status is Idle ==> r@ =~= head + strings.check_for_updates@
            &&& status is Checking ==> r@ =~= head + strings.checking_for_updates@
            &&& status is Applying ==> r@ =~= head + strings.applying_update@
            &&& status is UpToDate ==> r@ =~= head + strings.up_to_date_short@
            &&& status matches UpdateStatus::Available(release) ==> {
                &&& channel is Portable ==> r@ =~= head + (strings.update_to@ + " v"@
                    + release.latest_version@)
                &&& channel is Winget ==> r@ =~= head + (via_winget@ + " v"@
                    + release.latest_version@)
            }
        }),
{
}

} // verus!
