//! The widget's window: what its messages, its timers and the tray icon lead to.

use crate::geometry::scaled;
use crate::messages::Message;
use crate::promises::panels::closes;
use crate::promises::panels::toggles;
use crate::promises::updates::same_moments;
use crate::state::Action;
use crate::state::AppState;
use crate::state::CursorShape;
use crate::state::Drag;
use crate::state::Reply;
use crate::state::Response;
use crate::state::Shell;
use crate::state::TimerKind;
use crate::widget::begin_drag;
use crate::widget::leave_mouse;
use crate::widget::move_mouse;
use crate::widget::on_destroy;
use crate::widget::on_message;
use crate::widget::on_timer;
use crate::widget::on_tray_action;
use crate::widget::release_mouse;
use crate::widget::tray_reposition_is_suppressed;
use crate::widget::Surroundings;
use crate::widget::TrayAction;
use vstd::prelude::*;

verus! {

/// The user drags the widget.
pub open spec fn dragging(a: Shell) -> bool {
    a.app is Some && a.app->0.drag.dragging
}

/// A drag begins: the place of the pointer and the offset of the widget are noted,
/// and nothing else changes.
pub open spec fn drag_begins(a: Shell, b: Shell, cursor_x: i32) -> bool {
    &&& same_moments(a, b)
    &&& a.app is None ==> b.app is None
    &&& a.app matches Some(s) ==> b.app == Some(
        AppState {
            drag: Drag {
                dragging: true,
                start_mouse_x: cursor_x,
                start_offset: s.prefs.tray_offset,
            },
            ..s
        },
    )
}

/// The mouse is let go over the widget: a drag ends and is saved, a click beside the
/// handle of 13 design pixels opens or closes the panel, and one on it does nothing.
pub open spec fn click_ends(
    a: Shell,
    b: Shell,
    x: i32,
    around: Surroundings,
    actions: Seq<Action>,
) -> bool {
    &&& dragging(a) ==> {
        &&& same_moments(a, b)
        &&& b.app == Some(
            AppState { drag: Drag { dragging: false, ..a.app->0.drag }, ..a.app->0 },
        )
        &&& actions =~= seq![Action::ReleaseMouse, Action::SaveSettings]
    }
    &&& !dragging(a) && x >= scaled(13, around.dpi) ==> toggles(a, b, around.now, actions)
    &&& !dragging(a) && x < scaled(13, around.dpi) ==> b == a && actions.len() == 0
}

/// The pointer moves over the widget: a drag goes on; else the hover popup comes up
/// when the pointer has just come.
pub open spec fn pointer_moves(a: Shell, b: Shell, actions: Seq<Action>) -> bool {
    let comes = a.app is Some && !a.app->0.mouse_over_widget;
    &&& dragging(a) ==> b == a && actions =~= seq![Action::SampleDrag]
    &&& !dragging(a) && comes ==> {
        &&& same_moments(a, b)
        &&& b.app == Some(AppState { mouse_over_widget: true, ..a.app->0 })
        &&& actions =~= seq![Action::TrackMouseLeave, Action::ShowHoverPopup]
    }
    &&& !dragging(a) && !comes ==> b == a && actions.len() == 0
}

/// The pointer leaves the widget, and the hover popup goes.
pub open spec fn pointer_leaves(a: Shell, b: Shell, actions: Seq<Action>) -> bool {
    &&& same_moments(a, b)
    &&& a.app is None ==> b.app is None && actions.len() == 0
    &&& a.app matches Some(s) ==> {
        &&& b.app == Some(AppState { mouse_over_widget: false, ..s })
        &&& s.windows.popup_hwnd matches Some(popup) ==> actions =~= seq![
            Action::HidePopup(popup),
        ]
        &&& s.windows.popup_hwnd is None ==> actions.len() == 0
    }
}

/// The pointer drags the widget, opens and closes the panel, and brings the hover
/// popup up and takes it away.
pub proof fn pointer_drags_and_clicks(
    begun: &mut Shell,
    ended: &mut Shell,
    moved: &mut Shell,
    left: &mut Shell,
    x: i32,
    around: Surroundings,
    begin: Vec<Action>,
    end: Vec<Action>,
    move_on: Vec<Action>,
    leave: Vec<Action>,
)
    requires
        call_ensures(begin_drag, (begun, x), begin),
        call_ensures(release_mouse, (ended, x, &around), end),
        call_ensures(move_mouse, (moved,), move_on),
        call_ensures(leave_mouse, (left,), leave),
    ensures
        drag_begins(*old(begun), *final(begun), x),
        begin@ =~= seq![Action::CaptureMouse],
        click_ends(*old(ended), *final(ended), x, around, end@),
        pointer_moves(*old(moved), *final(moved), move_on@),
        pointer_leaves(*old(left), *final(left), leave@),
{
}

/// The pointer's messages to the widget. A drag begins on the handle, and nowhere
/// else; the pointer shows it there and during a drag.
pub proof fn widget_follows_the_pointer(
    shell: &mut Shell,
    message: Message,
    around: Surroundings,
    toggle: u16,
    r: Response,
)
    requires
        call_ensures(on_message, (shell, message, &around, toggle), r),
    ensures
        message matches Message::LeftDown { x } ==> {
            &&& r.reply == Reply::Value(0)
            &&& x < scaled(13, around.dpi) ==> drag_begins(
                *old(shell),
                *final(shell),
                around.cursor_x,
            ) && r.actions@ =~= seq![Action::CaptureMouse]
            &&& x >= scaled(13, around.dpi) ==> *final(shell) == *old(shell) && r.actions@.len()
                == 0
        },
        message matches Message::LeftUp { x } ==> r.reply == Reply::Value(0) && click_ends(
            *old(shell),
            *final(shell),
            x,
            around,
            r.actions@,
        ),
        message is MouseMove ==> r.reply == Reply::Value(0) && pointer_moves(
            *old(shell),
            *final(shell),
            r.actions@,
        ),
        message is MouseLeave ==> r.reply == Reply::Value(0) && pointer_leaves(
            *old(shell),
            *final(shell),
            r.actions@,
        ),
        message is RightUp ==> r.reply == Reply::Value(0) && *final(shell) == *old(shell)
            && r.actions@ =~= seq![Action::ShowContextMenu],
        message matches Message::SetCursor { hit } ==> {
            let resizes = dragging(*old(shell)) || (hit == 1 && around.cursor_client_x < scaled(
                13,
                around.dpi,
            ));
            &&& *final(shell) == *old(shell)
            &&& resizes ==> r.reply == Reply::Value(1) && r.actions@ =~= seq![
                Action::ShowCursor(CursorShape::ResizeHorizontally),
            ]
            &&& !resizes ==> r.reply is Default && r.actions@.len() == 0
        },
{
}

/// A click into the widget takes the focus from an open panel: unless it is pinned it
/// closes, and the click activates nothing.
pub proof fn click_into_the_widget_closes_the_panel(
    shell: &mut Shell,
    around: Surroundings,
    toggle: u16,
    r: Response,
)
    requires
        call_ensures(on_message, (shell, Message::MouseActivate, &around, toggle), r),
    ensures
        ({
            let goes = old(shell).app is Some && old(shell).app->0.panel.visible
                && !old(shell).app->0.prefs.panel_pinned;
            &&& goes ==> closes(*old(shell), *final(shell), around.now, r.actions@) && r.reply
                == Reply::Value(3)
            &&& !goes ==> *final(shell) == *old(shell) && r.actions@.len() == 0
                && r.reply is Default
        }),
{
}

/// After a change of the screen the DPI is asked for, the windows are placed anew and
/// everything is drawn.
pub open spec fn screen_is_followed(actions: Seq<Action>) -> bool {
    actions =~= seq![
        Action::RefreshDpi,
        Action::PositionAtTaskbar,
        Action::RefreshPanelView,
        Action::RenderLayered,
    ]
}

/// The system's messages to the widget: it paints itself unless it is part of the
/// taskbar, follows the screen, the theme and the language, and takes a told DPI.
pub proof fn widget_follows_the_system(
    shell: &mut Shell,
    message: Message,
    around: Surroundings,
    toggle: u16,
    r: Response,
)
    requires
        call_ensures(on_message, (shell, message, &around, toggle), r),
    ensures
        message is Paint ==> {
            let part = old(shell).app is Some && old(shell).app->0.embedded;
            &&& *final(shell) == *old(shell)
            &&& r.reply == Reply::Value(0)
            &&& part ==> r.actions@ =~= seq![Action::ValidatePaint]
            &&& !part ==> r.actions@ =~= seq![Action::PaintFallback]
        },
        message is EraseBackground ==> *final(shell) == *old(shell) && r.actions@.len() == 0
            && r.reply == Reply::Value(1),
        message is DisplayChange ==> *final(shell) == *old(shell) && screen_is_followed(
            r.actions@,
        ) && r.reply == Reply::Value(0),
        message matches Message::DpiChange(dpi) ==> {
            &&& *final(shell) == *old(shell)
            &&& r.reply == Reply::Value(0)
            &&& r.actions@.len() == 5
            &&& r.actions@[0] == Action::StoreDpi(dpi)
            &&& screen_is_followed(r.actions@.skip(1))
        },
        message is SettingChange ==> {
            &&& *final(shell) == *old(shell)
            &&& r.reply == Reply::Value(0)
            &&& r.actions@.len() == 6
            &&& r.actions@[0] == Action::CheckTheme
            &&& r.actions@[1] == Action::CheckLanguage
            &&& screen_is_followed(r.actions@.skip(2))
        },
        message is Other ==> *final(shell) == *old(shell) && r.actions@.len() == 0
            && r.reply is Default,
        message is Tray ==> *final(shell) == *old(shell) && r.actions@ =~= seq![
            Action::ReadTrayAction,
        ] && r.reply == Reply::Value(0),
{
}

/// The end of background work: new figures are drawn everywhere, the countdowns are
/// set, and the tray icons follow with the widget held in its place; the end of a
/// search sets the next one.
pub proof fn finished_work_is_shown(
    shell: &mut Shell,
    message: Message,
    around: Surroundings,
    toggle: u16,
    r: Response,
)
    requires
        call_ensures(on_message, (shell, message, &around, toggle), r),
        message is UsageUpdated || message is UpdateCheckComplete,
    ensures
        *final(shell) == *old(shell),
        r.reply == Reply::Value(0),
        message is UsageUpdated ==> r.actions@ =~= seq![
            Action::CheckTheme,
            Action::CheckLanguage,
            Action::RenderLayered,
            Action::RefreshPanelView,
            Action::ScheduleCountdown,
            Action::SuppressTrayReposition,
            Action::SyncTrayIcons,
        ],
        message is UpdateCheckComplete ==> r.actions@ =~= seq![Action::ScheduleAutoUpdateCheck],
{
}

/// What a timer of the widget is for: a poll, or a look at the credentials while they
/// keep polling stopped; the countdowns; the poll after a window ran out; the search
/// for newer releases, about which the user is not told.
pub open spec fn timer_works(a: Shell, timer: Option<TimerKind>, actions: Seq<Action>) -> bool {
    let stopped = a.app is Some && a.app->0.polling.auth_error_paused_polling;
    &&& timer is None ==> actions.len() == 0
    &&& timer == Some(TimerKind::Poll) ==> {
        &&& a.app is None ==> actions.len() == 0
        &&& a.app is Some && !stopped ==> actions =~= seq![Action::SpawnPoll]
        &&& stopped ==> actions.len() == 1 && (actions[0] matches Action::SampleCredentials {
            mode,
            previous,
        } && mode == a.app->0.polling.auth_watch_mode && previous@
            == a.app->0.polling.auth_watch_snapshot@)
    }
    &&& timer == Some(TimerKind::Countdown) ==> actions =~= seq![
        Action::UpdateDisplay,
        Action::RenderLayered,
        Action::RefreshPanelView,
        Action::ScheduleCountdown,
    ]
    &&& timer == Some(TimerKind::ResetPoll) ==> {
        &&& a.app is None || stopped ==> actions.len() == 0
        &&& a.app is Some && !stopped ==> actions =~= seq![Action::SpawnPoll]
    }
    &&& timer == Some(TimerKind::UpdateCheck) ==> actions =~= seq![
        Action::BeginUpdateCheck { interactive: false },
    ]
}

/// Each timer does its work, and changes nothing in the state.
pub proof fn timers_do_their_work(
    shell: &mut Shell,
    other: Shell,
    timer: Option<TimerKind>,
    around: Surroundings,
    toggle: u16,
    r: Response,
    q: Vec<Action>,
)
    requires
        call_ensures(on_message, (shell, Message::Timer(timer), &around, toggle), r),
        call_ensures(on_timer, (&other, timer), q),
    ensures
        *final(shell) == *old(shell),
        r.reply == Reply::Value(0),
        timer_works(*old(shell), timer, r.actions@),
        timer_works(other, timer, q@),
{
}

/// The end of the widget's window is the end of the program: the hook is taken away,
/// the panel's window and the tray icons go, and the program ends last.
pub proof fn program_ends_with_the_window(
    shell: &mut Shell,
    around: Surroundings,
    toggle: u16,
    r: Response,
    q: Vec<Action>,
)
    requires
        call_ensures(on_message, (shell, Message::Destroy, &around, toggle), r),
        call_ensures(on_destroy, (&*old(shell),), q),
    ensures
        *final(shell) == *old(shell),
        r.reply == Reply::Value(0),
        r.actions@ == q@,
        ({
            let n = q@.len() as int;
            let hook = old(shell).app is Some && old(shell).app->0.windows.win_event_hook is Some;
            let panel = old(shell).app is Some && old(shell).app->0.panel.hwnd is Some;
            &&& n == 3 + (if hook {
                1int
            } else {
                0
            }) + (if panel {
                1int
            } else {
                0
            })
            &&& hook ==> q@[0] == Action::Unhook(old(shell).app->0.windows.win_event_hook->0)
            &&& panel ==> q@[n - 4] == Action::DestroyPanel(old(shell).app->0.panel.hwnd->0)
            &&& q@[n - 3] == Action::RemoveTrayIcons
            &&& q@[n - 2] == Action::ShutdownGraphics
            &&& q@[n - 1] == Action::PostQuit
        }),
{
}

/// A click on the tray icon opens and closes the panel, or brings the menu up.
pub proof fn tray_icon_opens_panel_and_menu(
    shell: &mut Shell,
    action: TrayAction,
    now: u64,
    r: Vec<Action>,
)
    requires
        call_ensures(on_tray_action, (shell, action, now), r),
    ensures
        action is ToggleWidget ==> toggles(*old(shell), *final(shell), now, r@),
        action is ShowContextMenu ==> *final(shell) == *old(shell) && r@ =~= seq![
            Action::ShowContextMenu,
        ],
        action is Nothing ==> *final(shell) == *old(shell) && r@.len() == 0,
{
}

/// The widget is held in its place up to a deadline and not at it, and a deadline
/// that has passed is forgotten.
pub proof fn hold_ends_at_its_deadline(shell: &mut Shell, now: u64, r: bool)
    requires
        call_ensures(tray_reposition_is_suppressed, (shell, now), r),
    ensures
        r <==> old(shell).tray_reposition_until is Some && now
            < old(shell).tray_reposition_until->0,
        r ==> *final(shell) == *old(shell),
        !r ==> final(shell).tray_reposition_until is None,
        final(shell).app == old(shell).app,
        final(shell).panel_reopen_until == old(shell).panel_reopen_until,
        final(shell).last_reposition == old(shell).last_reposition,
{
}

} // verus!
