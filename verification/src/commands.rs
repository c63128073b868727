//! The commands of the context menu, and the choices that they make.

use crate::localization::LanguageId;
use crate::panel_window::dotted;
use crate::panel_window::refresh_requested;
use crate::panel_window::request_refresh;
use crate::poll::set_texts;
use crate::settings::valid_poll_interval;
use crate::settings::PanelBackground;
use crate::settings::POLL_15_MIN;
use crate::settings::POLL_1_HOUR;
use crate::settings::POLL_1_MIN;
use crate::settings::POLL_5_MIN;
use crate::state::Action;
use crate::state::AppState;
use crate::state::Preferences;
use crate::state::Shell;
use crate::state::TimerKind;
use crate::update::on_version_action;
use crate::update::version_actions;
use vstd::prelude::*;

verus! {

pub const IDM_REFRESH: u16 = 1;

pub const IDM_EXIT: u16 = 2;

pub const IDM_FREQ_1MIN: u16 = 10;

pub const IDM_FREQ_5MIN: u16 = 11;

pub const IDM_FREQ_15MIN: u16 = 12;

pub const IDM_FREQ_1HOUR: u16 = 13;

pub const IDM_START_WITH_WINDOWS: u16 = 20;

pub const IDM_RESET_POSITION: u16 = 30;

pub const IDM_VERSION_ACTION: u16 = 31;

pub const IDM_LANG_SYSTEM: u16 = 40;

pub const IDM_LANG_ENGLISH: u16 = 41;

pub const IDM_LANG_DUTCH: u16 = 42;

pub const IDM_LANG_SPANISH: u16 = 43;

pub const IDM_LANG_FRENCH: u16 = 44;

pub const IDM_LANG_GERMAN: u16 = 45;

pub const IDM_LANG_JAPANESE: u16 = 46;

pub const IDM_LANG_KOREAN: u16 = 47;

pub const IDM_LANG_TRADITIONAL_CHINESE: u16 = 48;

pub const IDM_MODEL_CLAUDE_CODE: u16 = 60;

pub const IDM_FORMAT_LONG: u16 = 70;

pub const IDM_FORMAT_SHORT: u16 = 71;

pub const IDM_PANEL_BG_SOLID: u16 = 80;

pub const IDM_PANEL_BG_TRANSLUCENT: u16 = 81;

/// The poll interval that a command chooses, if it chooses one.
pub open spec fn interval_chosen(id: u16) -> Option<u32> {
    if id == IDM_FREQ_1MIN {
        Some(POLL_1_MIN)
    } else if id == IDM_FREQ_5MIN {
        Some(POLL_5_MIN)
    } else if id == IDM_FREQ_15MIN {
        Some(POLL_15_MIN)
    } else if id == IDM_FREQ_1HOUR {
        Some(POLL_1_HOUR)
    } else {
        None
    }
}

/// The poll interval that a command chooses, if it chooses one.
pub fn interval_of_command(id: u16) -> (r: Option<u32>)
    ensures
        r == interval_chosen(id),
{
    if id == IDM_FREQ_1MIN {
        Some(POLL_1_MIN)
    } else if id == IDM_FREQ_5MIN {
        Some(POLL_5_MIN)
    } else if id == IDM_FREQ_15MIN {
        Some(POLL_15_MIN)
    } else if id == IDM_FREQ_1HOUR {
        Some(POLL_1_HOUR)
    } else {
        None
    }
}

/// The command that chooses a language.
pub open spec fn language_id(language: LanguageId) -> u16 {
    match language {
        LanguageId::English => IDM_LANG_ENGLISH,
        LanguageId::Dutch => IDM_LANG_DUTCH,
        LanguageId::Spanish => IDM_LANG_SPANISH,
        LanguageId::French => IDM_LANG_FRENCH,
        LanguageId::German => IDM_LANG_GERMAN,
        LanguageId::Japanese => IDM_LANG_JAPANESE,
        LanguageId::Korean => IDM_LANG_KOREAN,
        LanguageId::TraditionalChinese => IDM_LANG_TRADITIONAL_CHINESE,
    }
}

/// The command that chooses a language.
pub fn command_of_language(language: LanguageId) -> (r: u16)
    ensures
        r == language_id(language),
{
    match language {
        LanguageId::English => IDM_LANG_ENGLISH,
        LanguageId::Dutch => IDM_LANG_DUTCH,
        LanguageId::Spanish => IDM_LANG_SPANISH,
        LanguageId::French => IDM_LANG_FRENCH,
        LanguageId::German => IDM_LANG_GERMAN,
        LanguageId::Japanese => IDM_LANG_JAPANESE,
        LanguageId::Korean => IDM_LANG_KOREAN,
        LanguageId::TraditionalChinese => IDM_LANG_TRADITIONAL_CHINESE,
    }
}

/// What a command says of the language: nothing, the system's language, or one
/// that overrides it.
pub open spec fn language_chosen(id: u16) -> Option<Option<LanguageId>> {
    if id == IDM_LANG_SYSTEM {
        Some(None)
    } else if id == IDM_LANG_ENGLISH {
        Some(Some(LanguageId::English))
    } else if id == IDM_LANG_DUTCH {
        Some(Some(LanguageId::Dutch))
    } else if id == IDM_LANG_SPANISH {
        Some(Some(LanguageId::Spanish))
    } else if id == IDM_LANG_FRENCH {
        Some(Some(LanguageId::French))
    } else if id == IDM_LANG_GERMAN {
        Some(Some(LanguageId::German))
    } else if id == IDM_LANG_JAPANESE {
        Some(Some(LanguageId::Japanese))
    } else if id == IDM_LANG_KOREAN {
        Some(Some(LanguageId::Korean))
    } else if id == IDM_LANG_TRADITIONAL_CHINESE {
        Some(Some(LanguageId::TraditionalChinese))
    } else {
        None
    }
}

/// What a command says of the language.
pub fn language_of_command(id: u16) -> (r: Option<Option<LanguageId>>)
    ensures
        r == language_chosen(id),
{
    if id == IDM_LANG_SYSTEM {
        Some(None)
    } else if id == IDM_LANG_ENGLISH {
        Some(Some(LanguageId::English))
    } else if id == IDM_LANG_DUTCH {
        Some(Some(LanguageId::Dutch))
    } else if id == IDM_LANG_SPANISH {
        Some(Some(LanguageId::Spanish))
    } else if id == IDM_LANG_FRENCH {
        Some(Some(LanguageId::French))
    } else if id == IDM_LANG_GERMAN {
        Some(Some(LanguageId::German))
    } else if id == IDM_LANG_JAPANESE {
        Some(Some(LanguageId::Japanese))
    } else if id == IDM_LANG_KOREAN {
        Some(Some(LanguageId::Korean))
    } else if id == IDM_LANG_TRADITIONAL_CHINESE {
        Some(Some(LanguageId::TraditionalChinese))
    } else {
        None
    }
}

/// The command of a language chooses that language, and no command chooses a
/// language whose command it is not.
pub proof fn lemma_language_commands_round_trip(language: LanguageId, id: u16)
    ensures
        language_chosen(language_id(language)) == Some(Some(language)),
        language_chosen(id) == Some(Some(language)) ==> id == language_id(language),
{
}

/// Every interval that a command chooses is one that polling may go on at, and
/// every such interval has exactly one command.
pub proof fn lemma_interval_commands(ms: u32)
    ensures
        forall|id: u16| (#[trigger] interval_chosen(id)) is Some ==> valid_poll_interval(
            interval_chosen(id)->0,
        ),
        valid_poll_interval(ms) ==> exists|id: u16| #[trigger] interval_chosen(id) == Some(ms),
        forall|i: u16, j: u16|
            (#[trigger] interval_chosen(i)) is Some && interval_chosen(i) == (
            #[trigger] interval_chosen(j)) ==> i == j,
{
    assert(interval_chosen(IDM_FREQ_1MIN) == Some(POLL_1_MIN));
    assert(interval_chosen(IDM_FREQ_5MIN) == Some(POLL_5_MIN));
    assert(interval_chosen(IDM_FREQ_15MIN) == Some(POLL_15_MIN));
    assert(interval_chosen(IDM_FREQ_1HOUR) == Some(POLL_1_HOUR));
}

/// The shell with other preferences in its state, if it has one.
pub open spec fn with_prefs(a: Shell, prefs: Preferences) -> Shell {
    match a.app {
        Some(s) => Shell { app: Some(AppState { prefs, ..s }), ..a },
        None => a,
    }
}

/// The preferences of the state, or arbitrary ones where there is no state.
pub open spec fn prefs_of(a: Shell) -> Preferences {
    a.app->0.prefs
}

/// The work of leaving the program by the menu.
pub open spec fn exit_actions(a: Shell) -> Seq<Action> {
    (match a.app {
        Some(s) => match s.windows.win_event_hook {
            Some(hook) => seq![Action::Unhook(hook)],
            None => Seq::empty(),
        },
        None => Seq::empty(),
    }) + seq![Action::PostQuit]
}

/// The user leaves the program by the menu.
pub fn on_exit(shell: &Shell) -> (r: Vec<Action>)
    ensures
        r@ == exit_actions(*shell),
{
    let mut actions: Vec<Action> = Vec::new();
    match &shell.app {
        Some(s) => match s.windows.win_event_hook {
            Some(hook) => {
                actions.push(Action::Unhook(hook));
            },
            None => {},
        },
        None => {},
    }
    actions.push(Action::PostQuit);
    assert(actions@ =~= exit_actions(*shell));
    actions
}

/// What choosing the model does: it is shown, whatever it was before, and the
/// figures give way to dots until the next answer.
pub open spec fn model_chosen(a: Shell, b: Shell) -> bool {
    &&& b == (Shell { app: b.app, ..a })
    &&& match a.app {
        Some(s) => {
            &&& b.app matches Some(t)
            &&& t == (AppState { prefs: t.prefs, figures: t.figures, ..s })
            &&& t.prefs == (Preferences { show_claude_code: true, ..s.prefs })
            &&& dotted(s.figures, t.figures)
        },
        None => b.app is None,
    }
}

/// The user chose the model in the menu. The model is always kept on.
pub fn choose_model(shell: &mut Shell) -> (r: Vec<Action>)
    ensures
        model_chosen(*old(shell), *final(shell)),
        r@ == seq![
            Action::SaveSettings,
            Action::PositionAtTaskbar,
            Action::RefreshPanelView,
            Action::RenderLayered,
            Action::SyncTrayIcons,
            Action::SpawnPoll,
        ],
{
    match &mut shell.app {
        Some(s) => {
            s.prefs.show_claude_code = !s.prefs.show_claude_code;
            if !s.prefs.show_claude_code {
                s.prefs.show_claude_code = true;
            }
            set_texts(&mut s.figures, "...");
        },
        None => {},
    }
    let mut actions: Vec<Action> = Vec::new();
    actions.push(Action::SaveSettings);
    actions.push(Action::PositionAtTaskbar);
    actions.push(Action::RefreshPanelView);
    actions.push(Action::RenderLayered);
    actions.push(Action::SyncTrayIcons);
    actions.push(Action::SpawnPoll);
    actions
}

/// The work of showing or hiding the widget.
pub open spec fn visibility_actions(a: Shell) -> Seq<Action> {
    match a.app {
        Some(s) => if s.prefs.widget_visible {
            seq![Action::SaveSettings, Action::HidePanel, Action::HideWidget]
        } else {
            seq![
                Action::SaveSettings,
                Action::PositionAtTaskbar,
                Action::ShowWidget,
                Action::RenderLayered,
            ]
        },
        None => Seq::empty(),
    }
}

/// Shows the widget if it is hidden, and else hides it and the panel with it.
pub fn toggle_widget_visibility(shell: &mut Shell) -> (r: Vec<Action>)
    ensures
        *final(shell) == with_prefs(
            *old(shell),
            Preferences {
                widget_visible: !prefs_of(*old(shell)).widget_visible,
                ..prefs_of(*old(shell))
            },
        ),
        r@ == visibility_actions(*old(shell)),
{
    let mut actions: Vec<Action> = Vec::new();
    match &mut shell.app {
        Some(s) => {
            s.prefs.widget_visible = !s.prefs.widget_visible;
            actions.push(Action::SaveSettings);
            if s.prefs.widget_visible {
                actions.push(Action::PositionAtTaskbar);
                actions.push(Action::ShowWidget);
                actions.push(Action::RenderLayered);
            } else {
                actions.push(Action::HidePanel);
                actions.push(Action::HideWidget);
            }
        },
        None => {},
    }
    actions
}

/// The preferences that a choice in the menu leads to.
pub open spec fn prefs_chosen(p: Preferences, id: u16) -> Preferences {
    if id == IDM_RESET_POSITION {
        Preferences { tray_offset: 0, ..p }
    } else if interval_chosen(id) is Some {
        Preferences { poll_interval_ms: interval_chosen(id)->0, ..p }
    } else if id == IDM_FORMAT_LONG || id == IDM_FORMAT_SHORT {
        Preferences { compound_countdown: id == IDM_FORMAT_LONG, ..p }
    } else if id == IDM_PANEL_BG_SOLID {
        Preferences { panel_background: PanelBackground::Solid, ..p }
    } else if id == IDM_PANEL_BG_TRANSLUCENT {
        Preferences { panel_background: PanelBackground::Translucent, ..p }
    } else {
        p
    }
}

/// What a command of the menu does. `toggle` is the command that shows or hides
/// the widget.
pub open spec fn command_executed(
    a: Shell,
    b: Shell,
    id: u16,
    toggle: u16,
    actions: Seq<Action>,
) -> bool {
    if id == IDM_REFRESH {
        &&& refresh_requested(a, b)
        &&& actions =~= seq![Action::RenderLayered, Action::SpawnPoll]
    } else if id == IDM_VERSION_ACTION {
        b == a && actions =~= version_actions(a.app)
    } else if id == IDM_EXIT {
        b == a && actions =~= exit_actions(a)
    } else if id == IDM_RESET_POSITION {
        &&& b == with_prefs(a, prefs_chosen(prefs_of(a), id))
        &&& actions =~= seq![Action::SaveSettings, Action::PositionAtTaskbar]
    } else if id == IDM_START_WITH_WINDOWS {
        b == a && actions =~= seq![Action::ToggleStartup]
    } else if interval_chosen(id) is Some {
        &&& b == with_prefs(a, prefs_chosen(prefs_of(a), id))
        &&& actions =~= seq![
            Action::SaveSettings,
            Action::SetTimer { timer: TimerKind::Poll, ms: interval_chosen(id)->0 },
        ]
    } else if id == IDM_FORMAT_LONG || id == IDM_FORMAT_SHORT {
        &&& b == with_prefs(a, prefs_chosen(prefs_of(a), id))
        &&& actions =~= seq![
            Action::RefreshTexts,
            Action::SaveSettings,
            Action::RenderLayered,
            Action::RefreshPanelView,
            Action::ScheduleCountdown,
        ]
    } else if id == IDM_PANEL_BG_SOLID || id == IDM_PANEL_BG_TRANSLUCENT {
        &&& b == with_prefs(a, prefs_chosen(prefs_of(a), id))
        &&& actions =~= seq![Action::SaveSettings]
    } else if id == IDM_MODEL_CLAUDE_CODE {
        &&& model_chosen(a, b)
        &&& actions =~= seq![
            Action::SaveSettings,
            Action::PositionAtTaskbar,
            Action::RefreshPanelView,
            Action::RenderLayered,
            Action::SyncTrayIcons,
            Action::SpawnPoll,
        ]
    } else if language_chosen(id) is Some {
        &&& b == a
        &&& actions =~= seq![
            Action::ApplyLanguage(language_chosen(id)->0),
            Action::SaveSettings,
            Action::RenderLayered,
        ]
    } else if id == toggle {
        &&& b == with_prefs(
            a,
            Preferences { widget_visible: !prefs_of(a).widget_visible, ..prefs_of(a) },
        )
        &&& actions =~= visibility_actions(a)
    } else {
        b == a && actions.len() == 0
    }
}

fn choose_preference(shell: &mut Shell, id: u16)
    requires
        id == IDM_RESET_POSITION || interval_chosen(id) is Some || id == IDM_FORMAT_LONG || id
            == IDM_FORMAT_SHORT || id == IDM_PANEL_BG_SOLID || id == IDM_PANEL_BG_TRANSLUCENT,
    ensures
        *final(shell) == with_prefs(*old(shell), prefs_chosen(prefs_of(*old(shell)), id)),
{
    match &mut shell.app {
        Some(s) => {
            if id == IDM_RESET_POSITION {
                s.prefs.tray_offset = 0;
            } else if let Some(ms) = interval_of_command(id) {
                s.prefs.poll_interval_ms = ms;
            } else if id == IDM_FORMAT_LONG || id == IDM_FORMAT_SHORT {
                s.prefs.compound_countdown = id == IDM_FORMAT_LONG;
            } else if id == IDM_PANEL_BG_SOLID {
                s.prefs.panel_background = PanelBackground::Solid;
            } else {
                s.prefs.panel_background = PanelBackground::Translucent;
            }
        },
        None => {},
    }
}

/// Executes a command of the menu. `toggle` is the command that shows or hides
/// the widget.
pub fn on_command(shell: &mut Shell, id: u16, toggle: u16) -> (r: Vec<Action>)
    ensures
        command_executed(*old(shell), *final(shell), id, toggle, r@),
{
    let mut actions: Vec<Action> = Vec::new();
    if id == IDM_REFRESH {
        request_refresh(shell);
        actions.push(Action::RenderLayered);
        actions.push(Action::SpawnPoll);
    } else if id == IDM_VERSION_ACTION {
        actions = on_version_action(shell);
    } else if id == IDM_EXIT {
        actions = on_exit(shell);
    } else if id == IDM_RESET_POSITION {
        choose_preference(shell, id);
        actions.push(Action::SaveSettings);
        actions.push(Action::PositionAtTaskbar);
    } else if id == IDM_START_WITH_WINDOWS {
        actions.push(Action::ToggleStartup);
    } else if let Some(ms) = interval_of_command(id) {
        choose_preference(shell, id);
        actions.push(Action::SaveSettings);
        actions.push(Action::SetTimer { timer: TimerKind::Poll, ms });
    } else if id == IDM_FORMAT_LONG || id == IDM_FORMAT_SHORT {
        choose_preference(shell, id);
        actions.push(Action::RefreshTexts);
        actions.push(Action::SaveSettings);
        actions.push(Action::RenderLayered);
        actions.push(Action::RefreshPanelView);
        actions.push(Action::ScheduleCountdown);
    } else if id == IDM_PANEL_BG_SOLID || id == IDM_PANEL_BG_TRANSLUCENT {
        choose_preference(shell, id);
        actions.push(Action::SaveSettings);
    } else if id == IDM_MODEL_CLAUDE_CODE {
        actions = choose_model(shell);
    } else if let Some(language) = language_of_command(id) {
        actions.push(Action::ApplyLanguage(language));
        actions.push(Action::SaveSettings);
        actions.push(Action::RenderLayered);
    } else if id == toggle {
        actions = toggle_widget_visibility(shell);
    }
    actions
}

/// Every command of the menu leaves polling at an interval that the menu offers.
pub proof fn lemma_commands_keep_the_state_well_formed(
    a: Shell,
    b: Shell,
    id: u16,
    toggle: u16,
    actions: Seq<Action>,
)
    requires
        command_executed(a, b, id, toggle, actions),
        a.well_formed(),
    ensures
        b.well_formed(),
{
}

/// The model that is shown stays shown, whatever the user chooses in the menu.
pub proof fn lemma_model_stays_shown(
    a: Shell,
    b: Shell,
    id: u16,
    toggle: u16,
    actions: Seq<Action>,
)
    requires
        command_executed(a, b, id, toggle, actions),
        a.app matches Some(s) && (s.prefs.show_claude_code || id == IDM_MODEL_CLAUDE_CODE),
    ensures
        b.app matches Some(t) && t.prefs.show_claude_code,
{
}

/// A change of the preferences by the menu is kept: the settings are saved after it.
pub proof fn lemma_changed_preferences_are_saved(
    a: Shell,
    b: Shell,
    id: u16,
    toggle: u16,
    actions: Seq<Action>,
)
    requires
        command_executed(a, b, id, toggle, actions),
        a.app is Some,
        prefs_of(b) != prefs_of(a),
    ensures
        actions.contains(Action::SaveSettings),
{
    assert(actions[0] == Action::SaveSettings || actions[1] == Action::SaveSettings);
}

/// Showing and hiding the widget undo each other.
pub proof fn lemma_toggle_widget_twice(a: Shell)
    requires
        a.app is Some,
    ensures
        ({
            let b = with_prefs(
                a,
                Preferences { widget_visible: !prefs_of(a).widget_visible, ..prefs_of(a) },
            );
            with_prefs(
                b,
                Preferences { widget_visible: !prefs_of(b).widget_visible, ..prefs_of(b) },
            ) == a
        }),
{
}

/// The state in another language.
pub open spec fn language_applied(
    a: Shell,
    chosen: Option<LanguageId>,
    resolved: LanguageId,
) -> Shell {
    match a.app {
        Some(s) => Shell {
            app: Some(
                AppState {
                    language: resolved,
                    prefs: Preferences { language_override: chosen, ..s.prefs },
                    ..s
                },
            ),
            ..a
        },
        None => a,
    }
}

/// The work of changing the language: titles and texts follow.
pub open spec fn language_actions(a: Shell) -> Seq<Action> {
    match a.app {
        Some(s) => seq![Action::SetWindowTitle] + (if s.panel.hwnd is Some {
            seq![Action::SetPanelTitle]
        } else {
            Seq::empty()
        }) + seq![Action::RefreshTexts],
        None => Seq::empty(),
    }
}

/// Changes the language of the interface. `resolved` is the language that the
/// choice comes to on this system.
pub fn apply_language_to_state(
    shell: &mut Shell,
    chosen: Option<LanguageId>,
    resolved: LanguageId,
) -> (r: Vec<Action>)
    ensures
        *final(shell) == language_applied(*old(shell), chosen, resolved),
        r@ == language_actions(*old(shell)),
{
    let ghost before = *shell;
    let mut actions: Vec<Action> = Vec::new();
    match &mut shell.app {
        Some(s) => {
            s.prefs.language_override = chosen;
            s.language = resolved;
            actions.push(Action::SetWindowTitle);
            if s.panel.hwnd.is_some() {
                actions.push(Action::SetPanelTitle);
            }
            actions.push(Action::RefreshTexts);
        },
        None => {},
    }
    assert(actions@ =~= language_actions(before));
    actions
}

/// The language on display follows the system's: no choice overrides it, and it
/// has changed to another one.
pub open spec fn language_outdated(a: Shell, detected: LanguageId) -> bool {
    a.app matches Some(s) && s.prefs.language_override is None && s.language != detected
}

/// Whether the language on display has to follow the system's. `detected` is the
/// language of the system.
pub fn update_language_change(shell: &Shell, detected: LanguageId) -> (r: bool)
    ensures
        r == language_outdated(*shell, detected),
{
    match &shell.app {
        Some(s) => s.prefs.language_override.is_none() && s.language != detected,
        None => false,
    }
}

/// Lets the language on display follow the system's.
pub fn check_language_change(shell: &Shell, detected: LanguageId) -> (r: Vec<Action>)
    ensures
        r@ == if language_outdated(*shell, detected) {
            seq![Action::ApplyLanguage(None), Action::RenderLayered]
        } else {
            Seq::empty()
        },
{
    let mut actions: Vec<Action> = Vec::new();
    if update_language_change(shell, detected) {
        actions.push(Action::ApplyLanguage(None));
        actions.push(Action::RenderLayered);
    }
    actions
}

/// Once the language has followed the system's it does not follow again, and a
/// language that the user chose never does.
pub proof fn lemma_language_follows_once(a: Shell, chosen: LanguageId, detected: LanguageId)
    ensures
        !language_outdated(language_applied(a, None, detected), detected),
        !language_outdated(language_applied(a, Some(chosen), chosen), detected),
{
}

/// The shell in the system's theme.
pub open spec fn theme_followed(a: Shell, dark: bool) -> Shell {
    match a.app {
        Some(s) => Shell { app: Some(AppState { is_dark: dark, ..s }), ..a },
        None => a,
    }
}

/// Lets the colours follow the system's theme.
pub fn check_theme_change(shell: &mut Shell, dark: bool) -> (r: Vec<Action>)
    ensures
        *final(shell) == theme_followed(*old(shell), dark),
        r@ == if old(shell).app matches Some(s) && s.is_dark != dark {
            seq![Action::RenderLayered]
        } else {
            Seq::empty()
        },
{
    let mut actions: Vec<Action> = Vec::new();
    match &mut shell.app {
        Some(s) => {
            if s.is_dark != dark {
                s.is_dark = dark;
                actions.push(Action::RenderLayered);
            }
        },
        None => {},
    }
    actions
}

} // verus!
