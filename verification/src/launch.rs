//! The launch of the program: its first state, and its first work.

use crate::localization::LanguageId;
use crate::models::Percent;
use crate::panel::PanelState;
use crate::settings::loaded_settings;
use crate::settings::SettingsFile;
use crate::state::Action;
use crate::state::AppState;
use crate::state::CredentialWatchMode;
use crate::state::Drag;
use crate::state::Figures;
use crate::state::InstallChannel;
use crate::state::Polling;
use crate::state::Preferences;
use crate::state::Shell;
use crate::state::TimerKind;
use crate::state::UpdateStatus;
use crate::state::Windows;
use crate::update::auto_update_check_due;
use crate::update::check_due;
use vstd::prelude::*;

verus! {

/// The figures before the first answer.
pub open spec fn figures_blank(f: Figures) -> bool {
    &&& f.session_text@ == "--"@
    &&& f.weekly_text@ == "--"@
    &&& f == (Figures {
        session_percent: Percent { bits: 0 },
        session_text: f.session_text,
        session_resets_at: None,
        weekly_percent: Percent { bits: 0 },
        weekly_text: f.weekly_text,
        data: None,
    })
}

/// Polling before the first poll.
pub open spec fn polling_blank(p: Polling) -> bool {
    &&& p.auth_watch_snapshot@.len() == 0
    &&& p == (Polling {
        retry_count: 0,
        force_notify_auth_error: false,
        auth_error_paused_polling: false,
        auth_watch_mode: CredentialWatchMode::ActiveSource,
        auth_watch_snapshot: p.auth_watch_snapshot,
        last_poll_ok: false,
        last_poll_at: None,
        last_poll_status: None,
    })
}

/// The panel before it was opened.
pub open spec fn panel_blank(p: PanelState) -> bool {
    &&& p.buttons@.len() == 0
    &&& p == (PanelState {
        hwnd: None,
        visible: false,
        hot_button: None,
        pressed_button: None,
        buttons: p.buttons,
    })
}

/// The first state: what the settings say, and nothing known yet.
pub fn first_state(
    hwnd: isize,
    is_dark: bool,
    settings: &SettingsFile,
    language_override: Option<LanguageId>,
    language: LanguageId,
    install_channel: InstallChannel,
) -> (r: AppState)
    ensures
        r.prefs == Preferences::restored(settings@, language_override),
        r.windows == (Windows {
            hwnd,
            taskbar_hwnd: None,
            tray_notify_hwnd: None,
            win_event_hook: None,
            popup_hwnd: None,
        }),
        r.is_dark == is_dark,
        !r.embedded,
        r.language == language,
        r.install_channel == install_channel,
        figures_blank(r.figures),
        polling_blank(r.polling),
        r.update_status is Idle,
        r.drag == (Drag { dragging: false, start_mouse_x: 0, start_offset: 0 }),
        panel_blank(r.panel),
        !r.panel_menu_open,
        r.popup_text@.len() == 0,
        !r.mouse_over_widget,
        !r.shimmer_phase,
{
    AppState {
        windows: Windows {
            hwnd,
            taskbar_hwnd: None,
            tray_notify_hwnd: None,
            win_event_hook: None,
            popup_hwnd: None,
        },
        is_dark,
        embedded: false,
        language,
        install_channel,
        prefs: Preferences::from_settings(settings, language_override),
        figures: Figures {
            session_percent: Percent::zero(),
            session_text: "--".to_owned(),
            session_resets_at: None,
            weekly_percent: Percent::zero(),
            weekly_text: "--".to_owned(),
            data: None,
        },
        polling: Polling {
            retry_count: 0,
            force_notify_auth_error: false,
            auth_error_paused_polling: false,
            auth_watch_mode: CredentialWatchMode::ActiveSource,
            auth_watch_snapshot: Vec::new(),
            last_poll_ok: false,
            last_poll_at: None,
            last_poll_status: None,
        },
        update_status: UpdateStatus::Idle,
        drag: Drag { dragging: false, start_mouse_x: 0, start_offset: 0 },
        panel: PanelState::default(),
        panel_menu_open: false,
        popup_text: String::new(),
        mouse_over_widget: false,
        shimmer_phase: false,
    }
}

/// The taskbar that the widget stands in, the notification area in it, and the
/// hook that tells of its moves.
#[derive(Clone, Copy, Debug)]
pub struct TaskbarWindows {
    pub taskbar: isize,
    pub tray_notify: Option<isize>,
    pub hook: Option<isize>,
}

/// The state of a widget in the taskbar. Without a notification area there is no
/// hook.
pub open spec fn embedded_in(s: AppState, found: TaskbarWindows) -> AppState {
    AppState {
        windows: Windows {
            taskbar_hwnd: Some(found.taskbar),
            tray_notify_hwnd: found.tray_notify,
            win_event_hook: if found.tray_notify is Some {
                found.hook
            } else {
                s.windows.win_event_hook
            },
            ..s.windows
        },
        embedded: true,
        ..s
    }
}

/// The shell once the taskbar was looked for.
pub open spec fn taskbar_known(a: Shell, found: Option<TaskbarWindows>) -> Shell {
    match (a.app, found) {
        (Some(s), Some(found)) => Shell { app: Some(embedded_in(s, found)), ..a },
        _ => a,
    }
}

/// The taskbar was looked for: the widget stands in it if it was found, and else
/// above all other windows.
pub fn taskbar_searched(shell: &mut Shell, found: Option<TaskbarWindows>) -> (r: Vec<Action>)
    ensures
        *final(shell) == taskbar_known(*old(shell), found),
        r@ == if found is Some {
            Seq::empty()
        } else {
            seq![Action::MakeTopmost]
        },
{
    let mut actions: Vec<Action> = Vec::new();
    match found {
        Some(found) => match &mut shell.app {
            Some(s) => {
                s.windows.taskbar_hwnd = Some(found.taskbar);
                s.embedded = true;
                s.windows.tray_notify_hwnd = found.tray_notify;
                if found.tray_notify.is_some() {
                    s.windows.win_event_hook = found.hook;
                }
            },
            None => {},
        },
        None => {
            actions.push(Action::MakeTopmost);
        },
    }
    actions
}

/// The shell with the windows of the popup and of the panel.
pub open spec fn windows_known(a: Shell, popup: Option<isize>, panel: Option<isize>) -> Shell {
    match a.app {
        Some(s) => Shell {
            app: Some(
                AppState {
                    windows: Windows { popup_hwnd: popup, ..s.windows },
                    panel: PanelState { hwnd: panel, ..s.panel },
                    ..s
                },
            ),
            ..a
        },
        None => a,
    }
}

/// The windows of the popup and of the panel stand, as far as they could be made.
pub fn windows_created(shell: &mut Shell, popup: Option<isize>, panel: Option<isize>)
    ensures
        *final(shell) == windows_known(*old(shell), popup, panel),
{
    match &mut shell.app {
        Some(s) => {
            s.windows.popup_hwnd = popup;
            s.panel.hwnd = panel;
        },
        None => {},
    }
}

/// The first work once the windows stand: the widget shows itself unless the user
/// hid it, a pinned panel opens again, polling begins, and a search for newer
/// releases is made if it is due.
pub open spec fn first_actions(s: AppState, now: u64) -> Seq<Action> {
    seq![Action::SyncTrayIcons, Action::PositionAtTaskbar] + (if s.prefs.widget_visible {
        seq![Action::ShowWidget]
    } else {
        Seq::empty()
    }) + (if s.prefs.panel_pinned {
        seq![Action::ShowPanel]
    } else {
        Seq::empty()
    }) + seq![
        Action::RenderLayered,
        Action::SetTimer { timer: TimerKind::Poll, ms: s.prefs.poll_interval_ms },
        Action::SpawnPoll,
        Action::ScheduleAutoUpdateCheck,
    ] + (if check_due(s.prefs.last_update_check_unix, now) {
        seq![Action::BeginUpdateCheck { interactive: false }]
    } else {
        Seq::empty()
    }) + seq![Action::CheckTheme]
}

/// The first work once the windows stand. `now` is in seconds since the start of
/// 1970.
pub fn start(s: &AppState, now: u64) -> (r: Vec<Action>)
    ensures
        r@ == first_actions(*s, now),
{
    let mut actions: Vec<Action> = Vec::new();
    actions.push(Action::SyncTrayIcons);
    actions.push(Action::PositionAtTaskbar);
    if s.prefs.widget_visible {
        actions.push(Action::ShowWidget);
    }
    if s.prefs.panel_pinned {
        actions.push(Action::ShowPanel);
    }
    actions.push(Action::RenderLayered);
    actions.push(Action::SetTimer { timer: TimerKind::Poll, ms: s.prefs.poll_interval_ms });
    actions.push(Action::SpawnPoll);
    actions.push(Action::ScheduleAutoUpdateCheck);
    if auto_update_check_due(s.prefs.last_update_check_unix, now) {
        actions.push(Action::BeginUpdateCheck { interactive: false });
    }
    actions.push(Action::CheckTheme);
    assert(actions@ =~= first_actions(*s, now));
    actions
}

/// A program that starts with its saved settings is well formed, whatever the
/// settings file holds.
pub proof fn lemma_first_state_is_well_formed(
    content: Option<Seq<char>>,
    typed: Option<crate::settings::SettingsView>,
    language: Option<LanguageId>,
)
    ensures
        Preferences::restored(loaded_settings(content, typed), language).well_formed(),
{
    crate::settings::lemma_loaded_interval_is_valid(content, typed);
}

/// What the user chose outlives the program: preferences that were saved in a well
/// formed state, and read back from the file, are the preferences of the next run.
pub proof fn lemma_preferences_outlive_the_program(
    prefs: Preferences,
    code: Seq<char>,
    content: Seq<char>,
)
    requires
        prefs.well_formed(),
    ensures
        Preferences::restored(
            loaded_settings(Some(content), Some(prefs.saved(code))),
            prefs.language_override,
        ) == prefs,
{
    crate::state::lemma_saved_preferences_come_back(prefs, code);
}

} // verus!
