//! What the user can choose: the commands of the menu, and the menu itself.

use crate::commands::apply_language_to_state;
use crate::commands::check_language_change;
use crate::commands::check_theme_change;
use crate::commands::on_command;
use crate::localization::LanguageId;
use crate::menu::show_context_menu;
use crate::menu::steps;
use crate::menu::MenuFlag;
use crate::menu::MenuSources;
use crate::menu::MenuStep;
use crate::menu::StepView;
use crate::promises::polling::timer_after;
use crate::promises::updates::same_moments;
use crate::settings::PanelBackground;
use crate::state::Action;
use crate::state::AppState;
use crate::state::Figures;
use crate::state::Polling;
use crate::state::Preferences;
use crate::state::Shell;
use crate::state::TimerKind;
use crate::state::UpdateStatus;
use vstd::prelude::*;

verus! {

/// The commands that the menu has of its own; showing and hiding the widget comes
/// under a number from outside.
pub open spec fn own_command(id: u16) -> bool {
    ||| id == 1
    ||| id == 2
    ||| 10 <= id <= 13
    ||| id == 20
    ||| id == 30
    ||| id == 31
    ||| 40 <= id <= 48
    ||| id == 60
    ||| id == 70
    ||| id == 71
    ||| id == 80
    ||| id == 81
}

/// A frequency that the user chooses is the one at which polling goes on from then
/// on: a minute, five, fifteen or an hour. It is saved, and nothing else changes.
pub proof fn chosen_frequency_takes_effect(
    shell: &mut Shell,
    id: u16,
    toggle: u16,
    r: Vec<Action>,
    before: Option<u32>,
)
    requires
        call_ensures(on_command, (shell, id, toggle), r),
        10 <= id <= 13,
    ensures
        ({
            let ms: u32 = if id == 10 {
                60_000
            } else if id == 11 {
                300_000
            } else if id == 12 {
                900_000
            } else {
                3_600_000
            };
            &&& old(shell).app matches Some(a) ==> final(shell).app == Some(
                AppState { prefs: Preferences { poll_interval_ms: ms, ..a.prefs }, ..a },
            )
            &&& timer_after(r@, TimerKind::Poll, before) == Some(ms)
            &&& timer_after(r@, TimerKind::Countdown, before) == before
            &&& r@.len() == 2
            &&& r@[0] == Action::SaveSettings
        }),
        old(shell).app is None ==> final(shell).app is None,
        same_moments(*old(shell), *final(shell)),
{
    reveal_with_fuel(timer_after, 4);
    assert(r@.drop_last() =~= seq![Action::SaveSettings]);
}

/// The other preferences that the menu changes: the place of the widget, the length
/// of the countdowns and the background of the panel. Each is saved, and nothing
/// else changes.
pub proof fn chosen_preference_takes_effect(
    shell: &mut Shell,
    id: u16,
    toggle: u16,
    r: Vec<Action>,
)
    requires
        call_ensures(on_command, (shell, id, toggle), r),
        id == 30 || id == 70 || id == 71 || id == 80 || id == 81,
    ensures
        old(shell).app matches Some(a) ==> final(shell).app == Some(
            AppState {
                prefs: if id == 30 {
                    Preferences { tray_offset: 0, ..a.prefs }
                } else if id == 70 {
                    Preferences { compound_countdown: true, ..a.prefs }
                } else if id == 71 {
                    Preferences { compound_countdown: false, ..a.prefs }
                } else if id == 80 {
                    Preferences { panel_background: PanelBackground::Solid, ..a.prefs }
                } else {
                    Preferences { panel_background: PanelBackground::Translucent, ..a.prefs }
                },
                ..a
            },
        ),
        old(shell).app is None ==> final(shell).app is None,
        same_moments(*old(shell), *final(shell)),
        r@.contains(Action::SaveSettings),
        id == 30 ==> r@ =~= seq![Action::SaveSettings, Action::PositionAtTaskbar],
        id == 80 || id == 81 ==> r@.len() == 1,
        id == 70 || id == 71 ==> {
            &&& r@.len() == 5
            &&& r@[0] == Action::RefreshTexts
            &&& r@[2] == Action::RenderLayered
            &&& r@[3] == Action::RefreshPanelView
            &&& r@[4] == Action::ScheduleCountdown
        },
{
    if id == 70 || id == 71 {
        assert(r@[1] == Action::SaveSettings);
    } else {
        assert(r@[0] == Action::SaveSettings);
    }
}

/// A refresh polls at once, puts dots in the place of the figures, and has a failure
/// told even if one was told before. Nothing else changes.
pub proof fn refresh_polls_at_once(shell: &mut Shell, toggle: u16, r: Vec<Action>)
    requires
        call_ensures(on_command, (shell, 1u16, toggle), r),
    ensures
        r@.len() == 2,
        r@[0] == Action::RenderLayered,
        r@[1] == Action::SpawnPoll,
        same_moments(*old(shell), *final(shell)),
        old(shell).app is None ==> final(shell).app is None,
        old(shell).app matches Some(a) ==> (final(shell).app matches Some(b) && {
            &&& b == (AppState { figures: b.figures, polling: b.polling, ..a })
            &&& b.polling == (Polling { force_notify_auth_error: true, ..a.polling })
            &&& b.figures == (Figures {
                session_text: b.figures.session_text,
                weekly_text: b.figures.weekly_text,
                ..a.figures
            })
            &&& b.figures.session_text@ == "..."@
            &&& b.figures.weekly_text@ == "..."@
        }),
{
}

/// The model that the user chooses is shown, saved and polled for, with dots in the
/// place of its figures.
pub proof fn chosen_model_is_shown(shell: &mut Shell, toggle: u16, r: Vec<Action>)
    requires
        call_ensures(on_command, (shell, 60u16, toggle), r),
    ensures
        r@ =~= seq![
            Action::SaveSettings,
            Action::PositionAtTaskbar,
            Action::RefreshPanelView,
            Action::RenderLayered,
            Action::SyncTrayIcons,
            Action::SpawnPoll,
        ],
        same_moments(*old(shell), *final(shell)),
        old(shell).app is None ==> final(shell).app is None,
        old(shell).app matches Some(a) ==> (final(shell).app matches Some(b) && {
            &&& b.prefs == (Preferences { show_claude_code: true, ..a.prefs })
            &&& b == (AppState { prefs: b.prefs, figures: b.figures, ..a })
            &&& b.figures.session_text@ == "..."@
            &&& b.figures.weekly_text@ == "..."@
            &&& b.figures == (Figures {
                session_text: b.figures.session_text,
                weekly_text: b.figures.weekly_text,
                ..a.figures
            })
        }),
{
}

/// A language that the user chooses is applied and saved: number 40 stands for the
/// system's language, the numbers behind it for one language each.
pub proof fn chosen_language_is_applied(shell: &mut Shell, id: u16, toggle: u16, r: Vec<Action>)
    requires
        call_ensures(on_command, (shell, id, toggle), r),
        40 <= id <= 48,
    ensures
        *final(shell) == *old(shell),
        r@.len() == 3,
        r@[1] == Action::SaveSettings,
        r@[2] == Action::RenderLayered,
        r@[0] == Action::ApplyLanguage(
            if id == 40 {
                None
            } else if id == 41 {
                Some(LanguageId::English)
            } else if id == 42 {
                Some(LanguageId::Dutch)
            } else if id == 43 {
                Some(LanguageId::Spanish)
            } else if id == 44 {
                Some(LanguageId::French)
            } else if id == 45 {
                Some(LanguageId::German)
            } else if id == 46 {
                Some(LanguageId::Japanese)
            } else if id == 47 {
                Some(LanguageId::Korean)
            } else {
                Some(LanguageId::TraditionalChinese)
            },
        ),
{
}

/// Showing and hiding the widget: what was hidden is shown, what was shown is
/// hidden and the panel with it, and either is saved. Every other number does
/// nothing.
pub proof fn widget_is_shown_or_hidden(shell: &mut Shell, id: u16, toggle: u16, r: Vec<Action>)
    requires
        call_ensures(on_command, (shell, id, toggle), r),
        !own_command(id),
    ensures
        id != toggle ==> *final(shell) == *old(shell) && r@.len() == 0,
        old(shell).app is None ==> final(shell).app is None && r@.len() == 0,
        id == toggle ==> (old(shell).app matches Some(a) ==> {
            &&& final(shell).app == Some(
                AppState {
                    prefs: Preferences {
                        widget_visible: !a.prefs.widget_visible,
                        ..a.prefs
                    },
                    ..a
                },
            )
            &&& a.prefs.widget_visible ==> r@ =~= seq![
                Action::SaveSettings,
                Action::HidePanel,
                Action::HideWidget,
            ]
            &&& !a.prefs.widget_visible ==> r@ =~= seq![
                Action::SaveSettings,
                Action::PositionAtTaskbar,
                Action::ShowWidget,
                Action::RenderLayered,
            ]
        }),
        same_moments(*old(shell), *final(shell)),
{
}

/// The commands that leave the state alone: leaving the program, which takes the
/// hook away first, starting with the system, and the version entry.
pub proof fn exit_and_startup_leave_the_state_alone(
    shell: &mut Shell,
    id: u16,
    toggle: u16,
    r: Vec<Action>,
    version: Vec<Action>,
)
    requires
        call_ensures(on_command, (shell, id, toggle), r),
        call_ensures(crate::update::on_version_action, (&*old(shell),), version),
        id == 2 || id == 20 || id == 31,
    ensures
        *final(shell) == *old(shell),
        id == 20 ==> r@ =~= seq![Action::ToggleStartup],
        id == 2 ==> r@.last() == Action::PostQuit,
        id == 2 && old(shell).app is Some && old(shell).app->0.windows.win_event_hook is Some ==> r@
            =~= seq![
            Action::Unhook(old(shell).app->0.windows.win_event_hook->0),
            Action::PostQuit,
        ],
        id == 2 && (old(shell).app is None || old(shell).app->0.windows.win_event_hook is None)
            ==> r@.len() == 1,
        id == 31 ==> r@.len() == 1 && r@.len() == version@.len(),
        id == 31 ==> (r@[0] is BeginUpdateApply <==> version@[0] is BeginUpdateApply),
        id == 31 && !(r@[0] is BeginUpdateApply) ==> r@[0] == version@[0],
        id == 31 ==> (r@[0] matches Action::BeginUpdateApply(release) ==> old(shell).app is Some
            && old(shell).app->0.update_status == UpdateStatus::Available(release)),
{
}

/// A language that is applied is the one on display and the choice that is kept;
/// titles and texts follow.
pub proof fn applied_language_is_on_display(
    shell: &mut Shell,
    chosen: Option<LanguageId>,
    resolved: LanguageId,
    r: Vec<Action>,
)
    requires
        call_ensures(apply_language_to_state, (shell, chosen, resolved), r),
    ensures
        old(shell).app is None ==> final(shell).app is None && r@.len() == 0,
        old(shell).app matches Some(a) ==> {
            &&& final(shell).app == Some(
                AppState {
                    language: resolved,
                    prefs: Preferences { language_override: chosen, ..a.prefs },
                    ..a
                },
            )
            &&& r@[0] == Action::SetWindowTitle
            &&& r@.last() == Action::RefreshTexts
            &&& a.panel.hwnd is Some ==> r@.len() == 3 && r@[1] == Action::SetPanelTitle
            &&& a.panel.hwnd is None ==> r@.len() == 2
        },
        same_moments(*old(shell), *final(shell)),
{
}

/// The language on display follows the system's exactly when the user chose none
/// and the system's is another; the colours follow the system's theme at once.
pub proof fn language_and_theme_follow_the_system(
    shell: &mut Shell,
    other: Shell,
    detected: LanguageId,
    dark: bool,
    language: Vec<Action>,
    theme: Vec<Action>,
)
    requires
        call_ensures(check_language_change, (&other, detected), language),
        call_ensures(check_theme_change, (shell, dark), theme),
    ensures
        ({
            let follows = other.app is Some && other.app->0.prefs.language_override is None
                && other.app->0.language != detected;
            &&& follows ==> language@ =~= seq![Action::ApplyLanguage(None), Action::RenderLayered]
            &&& !follows ==> language@.len() == 0
        }),
        old(shell).app is None ==> final(shell).app is None && theme@.len() == 0,
        old(shell).app matches Some(a) ==> {
            &&& final(shell).app == Some(AppState { is_dark: dark, ..a })
            &&& a.is_dark != dark ==> theme@ =~= seq![Action::RenderLayered]
            &&& a.is_dark == dark ==> theme@.len() == 0
        },
        same_moments(*old(shell), *final(shell)),
{
}

/// An entry of the menu.
pub open spec fn is_entry(step: StepView, id: u16, label: Seq<char>, flag: MenuFlag) -> bool {
    step == (StepView::Entry { id, label, flag })
}

/// Checked where something holds, and else plain.
pub open spec fn check(on: bool) -> MenuFlag {
    if on {
        MenuFlag::Checked
    } else {
        MenuFlag::Plain
    }
}

/// The upper half of the menu: a refresh, and submenus for the format, the
/// background, the frequency and the model, in which what is in effect is checked.
pub proof fn menu_checks_what_is_in_effect(shell: Shell, from: MenuSources, r: Vec<MenuStep>)
    requires
        call_ensures(show_context_menu, (&shell, &from), r),
        shell.app is Some,
    ensures
        ({
            let m = steps(r@);
            let p = shell.app->0.prefs;
            let s = from.strings;
            &&& m.len() == 30 + from.languages@.len()
            &&& is_entry(m[0], 1, s.refresh@, MenuFlag::Plain)
            &&& m[1] is Open
            &&& is_entry(m[2], 70, s.format_long@, check(p.compound_countdown))
            &&& is_entry(m[3], 71, s.format_short@, check(!p.compound_countdown))
            &&& m[4] == (StepView::Close { label: s.format@ })
            &&& m[5] is Open
            &&& is_entry(m[6], 80, "Solid"@, check(p.panel_background is Solid))
            &&& is_entry(m[7], 81, "Translucent"@, check(p.panel_background is Translucent))
            &&& m[8] == (StepView::Close { label: "Panel Background"@ })
            &&& m[9] is Open
            &&& is_entry(m[10], 10, s.one_minute@, check(p.poll_interval_ms == 60_000))
            &&& is_entry(m[11], 11, s.five_minutes@, check(p.poll_interval_ms == 300_000))
            &&& is_entry(m[12], 12, s.fifteen_minutes@, check(p.poll_interval_ms == 900_000))
            &&& is_entry(m[13], 13, s.one_hour@, check(p.poll_interval_ms == 3_600_000))
            &&& m[14] == (StepView::Close { label: s.update_frequency@ })
            &&& m[15] is Open
            &&& is_entry(m[16], 60, s.claude_code_model@, check(p.show_claude_code))
            &&& m[17] == (StepView::Close { label: s.models@ })
        }),
{
    reveal(crate::menu::choice_flag);
}

/// The submenu of the settings: starting with the system, the place of the widget,
/// and the languages, of which the one that the user chose is checked.
pub proof fn menu_offers_the_settings(
    shell: Shell,
    from: MenuSources,
    r: Vec<MenuStep>,
    i: int,
)
    requires
        call_ensures(show_context_menu, (&shell, &from), r),
        shell.app is Some,
        0 <= i < from.languages@.len(),
    ensures
        ({
            let m = steps(r@);
            let p = shell.app->0.prefs;
            let s = from.strings;
            let l = from.languages@[i];
            &&& m[18] is Open
            &&& is_entry(m[19], 20, s.start_with_windows@, check(from.startup))
            &&& is_entry(m[20], 30, s.reset_position@, MenuFlag::Plain)
            &&& m[21] is Open
            &&& is_entry(m[22], 40, s.system_default@, check(p.language_override is None))
            &&& is_entry(
                m[23 + i],
                match l.language {
                    LanguageId::English => 41,
                    LanguageId::Dutch => 42,
                    LanguageId::Spanish => 43,
                    LanguageId::French => 44,
                    LanguageId::German => 45,
                    LanguageId::Japanese => 46,
                    LanguageId::Korean => 47,
                    LanguageId::TraditionalChinese => 48,
                },
                l.name@,
                check(p.language_override == Some(l.language)),
            )
        }),
{
    reveal(crate::menu::choice_flag);
}

/// The lower end of the menu: the version, grayed while a search or an installation
/// is under way, the widget's own entry, checked while it is shown, and the exit.
pub proof fn menu_ends_with_version_widget_and_exit(
    shell: Shell,
    from: MenuSources,
    r: Vec<MenuStep>,
    label: String,
)
    requires
        call_ensures(show_context_menu, (&shell, &from), r),
        shell.app is Some,
        call_ensures(
            crate::update::version_action_label,
            (
                &from.strings,
                from.via_winget,
                shell.app->0.install_channel,
                &shell.app->0.update_status,
                from.version,
            ),
            label,
        ),
    ensures
        ({
            let m = steps(r@);
            let s = from.strings;
            let n = m.len();
            let status = shell.app->0.update_status;
            &&& n >= 30
            &&& m[n - 7] == (StepView::Close { label: s.language@ })
            &&& m[n - 6] is Separator
            &&& is_entry(
                m[n - 5],
                31,
                label@,
                if status is Checking || status is Applying {
                    MenuFlag::Grayed
                } else {
                    MenuFlag::Plain
                },
            )
            &&& m[n - 4] == (StepView::Close { label: s.settings@ })
            &&& is_entry(
                m[n - 3],
                from.toggle,
                s.show_widget@,
                check(shell.app->0.prefs.widget_visible),
            )
            &&& m[n - 2] is Separator
            &&& is_entry(m[n - 1], 2, s.exit@, MenuFlag::Plain)
        }),
{
}

/// Without a state the menu goes by the settings of a first run.
pub proof fn menu_without_a_state_is_that_of_a_first_run(
    shell: Shell,
    fresh: Shell,
    from: MenuSources,
    r: Vec<MenuStep>,
    q: Vec<MenuStep>,
)
    requires
        call_ensures(show_context_menu, (&shell, &from), r),
        call_ensures(show_context_menu, (&fresh, &from), q),
        shell.app is None,
        fresh.app is Some,
        fresh.app->0.install_channel is Portable,
        fresh.app->0.update_status is Idle,
        ({
            let p = fresh.app->0.prefs;
            &&& p.poll_interval_ms == 900_000
            &&& p.compound_countdown
            &&& p.language_override is None
            &&& p.widget_visible
            &&& p.show_claude_code
            &&& p.panel_background is Solid
        }),
    ensures
        steps(r@) == steps(q@),
{
    reveal(crate::menu::choice_flag);
    let p = fresh.app->0.prefs;
    let d = crate::menu::stateless_prefs();
    assert forall|id: u16| crate::menu::choice_flag(p, id) == #[trigger] crate::menu::choice_flag(
        d,
        id,
    ) by {}
    assert(crate::menu::display_part(p, from.strings) =~= crate::menu::display_part(
        d,
        from.strings,
    ));
    assert(crate::menu::settings_part(p, from) =~= crate::menu::settings_part(d, from));
    assert(crate::menu::language_part(p, from.languages@) =~= crate::menu::language_part(
        d,
        from.languages@,
    ));
}

} // verus!
