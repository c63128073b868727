//! The widget's window: where it stands on the taskbar, how it is dragged, and
//! what its messages do.

use crate::commands::command_executed;
use crate::commands::on_command;
use crate::geometry::clamped;
use crate::geometry::drag_offset;
use crate::geometry::drag_offset_on;
use crate::geometry::dragged_offset;
use crate::geometry::fits;
use crate::geometry::max_drag_offset;
use crate::geometry::place_widget;
use crate::geometry::sc;
use crate::geometry::scaled;
use crate::geometry::valid_dpi;
use crate::geometry::widget_placement;
use crate::geometry::Placement;
use crate::geometry::TaskbarGeometry;
use crate::geometry::DIVIDER_HIT_ZONE;
use crate::messages::Message;
use crate::models::Timestamp;
use crate::panel_window::hide_actions;
use crate::panel_window::hide_hover_popup;
use crate::panel_window::hide_panel;
use crate::panel_window::is_pinned;
use crate::panel_window::moment_in_range;
use crate::panel_window::panel_hidden;
use crate::panel_window::panel_open;
use crate::panel_window::panel_toggled;
use crate::panel_window::popup_actions;
use crate::panel_window::toggle_actions;
use crate::panel_window::toggle_panel;
use crate::panel_window::valid_moment;
use crate::poll::failure_recorded;
use crate::poll::on_poll_timer;
use crate::poll::on_reset_poll_timer;
use crate::poll::watch_after;
use crate::poll::PollError;
use crate::state::answered;
use crate::state::Action;
use crate::state::AppState;
use crate::state::CursorShape;
use crate::state::Drag;
use crate::state::Preferences;
use crate::state::Reply;
use crate::state::Response;
use crate::state::Shell;
use crate::state::TimerKind;
use vstd::prelude::*;

verus! {

/// For how long the widget stays put after the tray icons were changed, in
/// nanoseconds: the change itself moves the notification area.
pub const TRAY_REPOSITION_SUPPRESS_NANOS: u64 = 750_000_000;

/// How far apart two moves after the notification area have to be, in milliseconds.
pub const REPOSITION_INTERVAL_MS: u64 = 500;

/// The shell while the widget is to stay put after a moment.
pub open spec fn reposition_held(a: Shell, now: u64) -> Shell {
    Shell {
        tray_reposition_until: Some((now + TRAY_REPOSITION_SUPPRESS_NANOS) as u64),
        ..a
    }
}

/// Keeps the widget where it is for a moment, whatever the notification area does.
pub fn suppress_tray_reposition(shell: &mut Shell, now: u64)
    requires
        valid_moment(now),
    ensures
        *final(shell) == reposition_held(*old(shell), now),
{
    shell.tray_reposition_until = Some(now + TRAY_REPOSITION_SUPPRESS_NANOS);
}

/// The widget is to stay put at that moment.
pub open spec fn held(until: Option<u64>, now: u64) -> bool {
    until matches Some(deadline) && now < deadline
}

/// Whether the widget is to stay put; a deadline that has passed is forgotten.
pub fn tray_reposition_is_suppressed(shell: &mut Shell, now: u64) -> (r: bool)
    ensures
        r == held(old(shell).tray_reposition_until, now),
        *final(shell) == (Shell {
            tray_reposition_until: if held(old(shell).tray_reposition_until, now) {
                old(shell).tray_reposition_until
            } else {
                None
            },
            ..*old(shell)
        }),
{
    match shell.tray_reposition_until {
        Some(deadline) => {
            if now < deadline {
                true
            } else {
                shell.tray_reposition_until = None;
                false
            }
        },
        None => false,
    }
}

/// The last move is long enough ago for another one.
pub open spec fn reposition_due(last: Option<u64>, now: u64) -> bool {
    last matches Some(at) ==> now >= at && (now - at) / 1_000_000 > REPOSITION_INTERVAL_MS
}

/// A window is the notification area that the widget keeps clear of.
pub open spec fn is_tray(a: Shell, hwnd: isize) -> bool {
    a.app matches Some(s) && s.windows.tray_notify_hwnd == Some(hwnd)
}

/// The widget moves after a window that moved.
pub open spec fn follows_tray(a: Shell, hwnd: isize, now: u64) -> bool {
    is_tray(a, hwnd) && !held(a.tray_reposition_until, now) && reposition_due(
        a.last_reposition,
        now,
    )
}

/// The shell after a window moved.
pub open spec fn tray_followed(a: Shell, hwnd: isize, now: u64) -> Shell {
    Shell {
        tray_reposition_until: if is_tray(a, hwnd) && !held(a.tray_reposition_until, now) {
            None
        } else {
            a.tray_reposition_until
        },
        last_reposition: if follows_tray(a, hwnd, now) {
            Some(now)
        } else {
            a.last_reposition
        },
        ..a
    }
}

/// A window moved: if it is the notification area the widget moves after it, but
/// not too often, and not just after the tray icons were changed.
pub fn on_tray_location_changed(shell: &mut Shell, hwnd: isize, now: u64) -> (r: Vec<Action>)
    ensures
        *final(shell) == tray_followed(*old(shell), hwnd, now),
        r@ == if follows_tray(*old(shell), hwnd, now) {
            seq![Action::PositionAtTaskbar, Action::RenderLayered]
        } else {
            Seq::empty()
        },
{
    let mut actions: Vec<Action> = Vec::new();
    let tray = match &shell.app {
        Some(s) => match s.windows.tray_notify_hwnd {
            Some(tray) => tray == hwnd,
            None => false,
        },
        None => false,
    };
    if !tray || tray_reposition_is_suppressed(shell, now) {
        return actions;
    }
    let due = match shell.last_reposition {
        Some(at) => now >= at && (now - at) / 1_000_000 > REPOSITION_INTERVAL_MS,
        None => true,
    };
    if due {
        shell.last_reposition = Some(now);
        actions.push(Action::PositionAtTaskbar);
        actions.push(Action::RenderLayered);
    }
    actions
}

/// While the widget is to stay put no window makes it move, and after that the
/// notification area does.
pub proof fn lemma_tray_changes_do_not_move_the_widget(
    a: Shell,
    hwnd: isize,
    changed: u64,
    now: u64,
)
    requires
        valid_moment(changed),
    ensures
        now < changed + TRAY_REPOSITION_SUPPRESS_NANOS ==> !follows_tray(
            reposition_held(a, changed),
            hwnd,
            now,
        ),
        now >= changed + TRAY_REPOSITION_SUPPRESS_NANOS && is_tray(a, hwnd)
            && a.last_reposition is None ==> follows_tray(reposition_held(a, changed), hwnd, now),
{
}

/// Two moves after the notification area are more than half a second apart.
pub proof fn lemma_moves_are_spaced(a: Shell, b: Shell, hwnd: isize, last: u64, now: u64)
    requires
        follows_tray(a, hwnd, last),
        b.last_reposition == tray_followed(a, hwnd, last).last_reposition,
        follows_tray(b, hwnd, now),
    ensures
        now > last + REPOSITION_INTERVAL_MS * 1_000_000,
{
}

/// The place of the widget on the taskbar; none while the user drags it, and none
/// without a taskbar.
pub open spec fn widget_target(
    a: Shell,
    taskbar: Option<TaskbarGeometry>,
    dpi: u32,
) -> Option<(int, int, int, int)> {
    match (a.app, taskbar) {
        (Some(s), Some(taskbar)) if !s.drag.dragging && s.windows.taskbar_hwnd is Some => Some(
            widget_placement(taskbar, s.embedded, s.prefs.tray_offset as int, dpi),
        ),
        _ => None,
    }
}

/// Where the widget is to stand on the taskbar.
pub fn position_at_taskbar(shell: &Shell, taskbar: Option<TaskbarGeometry>, dpi: u32) -> (r: Option<
    Placement,
>)
    requires
        taskbar matches Some(t) ==> t.in_range(),
        valid_dpi(dpi),
        widget_target(*shell, taskbar, dpi) matches Some(place) ==> fits(place.0),
    ensures
        match widget_target(*shell, taskbar, dpi) {
            Some(parts) => r matches Some(p) && p.parts() == parts,
            None => r is None,
        },
{
    let s = match &shell.app {
        Some(s) => s,
        None => return None,
    };
    if s.drag.dragging || s.windows.taskbar_hwnd.is_none() {
        return None;
    }
    match taskbar {
        Some(taskbar) => Some(place_widget(&taskbar, s.embedded, s.prefs.tray_offset, dpi)),
        None => None,
    }
}

/// 32 bits hold the offset that a drag asks for.
pub open spec fn drag_in_range(a: Shell, cursor_x: int) -> bool {
    a.app matches Some(s) ==> fits(s.drag.start_offset + (s.drag.start_mouse_x - cursor_x))
}

/// The offset of the widget under the pointer, on the taskbar where that is known.
pub open spec fn offset_under(
    drag: Drag,
    cursor_x: int,
    taskbar: Option<TaskbarGeometry>,
    dpi: u32,
) -> int {
    match taskbar {
        Some(taskbar) => clamped(
            drag.start_offset + (drag.start_mouse_x - cursor_x),
            0,
            max_drag_offset(taskbar, dpi),
        ),
        None => dragged_offset(
            drag.start_offset as int,
            drag.start_mouse_x as int,
            cursor_x,
        ),
    }
}

/// What a move of the pointer does to the widget that is dragged.
pub open spec fn dragged_to(
    a: Shell,
    b: Shell,
    cursor_x: int,
    taskbar: Option<TaskbarGeometry>,
    dpi: u32,
    actions: Seq<Action>,
) -> bool {
    match a.app {
        Some(s) => {
            let offset = offset_under(s.drag, cursor_x, taskbar, dpi);
            &&& b == (Shell {
                app: Some(
                    AppState {
                        prefs: Preferences { tray_offset: offset as i32, ..s.prefs },
                        ..s
                    },
                ),
                ..a
            })
            &&& match taskbar {
                Some(taskbar) => {
                    let place = widget_placement(taskbar, s.embedded, offset, dpi);
                    actions =~= seq![
                        Action::MoveWidget {
                            x: place.0 as i32,
                            y: place.1 as i32,
                            width: place.2 as i32,
                            height: place.3 as i32,
                        },
                        Action::PositionPanel,
                    ]
                },
                None => actions.len() == 0,
            }
        },
        None => b == a && actions.len() == 0,
    }
}

/// The pointer moved while the widget is dragged: the widget follows it along the
/// taskbar, and the panel follows the widget.
pub fn drag_to(
    shell: &mut Shell,
    cursor_x: i32,
    taskbar: Option<TaskbarGeometry>,
    dpi: u32,
) -> (r: Vec<Action>)
    requires
        drag_in_range(*old(shell), cursor_x as int),
        taskbar matches Some(t) ==> t.in_range(),
        valid_dpi(dpi),
    ensures
        dragged_to(*old(shell), *final(shell), cursor_x as int, taskbar, dpi, r@),
{
    let mut actions: Vec<Action> = Vec::new();
    match &mut shell.app {
        Some(s) => match taskbar {
            Some(taskbar) => {
                let offset: i32 = drag_offset_on(
                    &taskbar,
                    s.drag.start_offset,
                    s.drag.start_mouse_x,
                    cursor_x,
                    dpi,
                );
                s.prefs.tray_offset = offset;
                let place = place_widget(&taskbar, s.embedded, offset, dpi);
                actions.push(
                    Action::MoveWidget {
                        x: place.x,
                        y: place.y,
                        width: place.width,
                        height: place.height,
                    },
                );
                actions.push(Action::PositionPanel);
            },
            None => {
                s.prefs.tray_offset = drag_offset(
                    s.drag.start_offset,
                    s.drag.start_mouse_x,
                    cursor_x,
                );
            },
        },
        None => {},
    }
    actions
}

/// What the system tells along with a message to the widget: the DPI, the moment,
/// and the pointer on the screen and in the client area.
#[derive(Clone, Copy, Debug)]
pub struct Surroundings {
    pub dpi: u32,
    pub now: u64,
    pub cursor_x: i32,
    pub cursor_client_x: i32,
}

impl Surroundings {
    pub open spec fn in_range(self) -> bool {
        valid_moment(self.now)
    }

    /// Whether the moment leaves room for what is added to it.
    pub fn is_in_range(&self) -> (r: bool)
        ensures
            r == self.in_range(),
    {
        moment_in_range(self.now)
    }
}

/// What a click on a tray icon asks for.
#[derive(Clone, Copy, Debug, PartialEq, Eq, Structural)]
pub enum TrayAction {
    Nothing,
    ToggleWidget,
    ShowContextMenu,
}

/// The shell after a click on a tray icon.
pub open spec fn tray_clicked(a: Shell, action: TrayAction, now: u64) -> Shell {
    if action is ToggleWidget {
        panel_toggled(a, now)
    } else {
        a
    }
}

/// A tray icon was clicked.
pub fn on_tray_action(shell: &mut Shell, action: TrayAction, now: u64) -> (r: Vec<Action>)
    requires
        valid_moment(now),
    ensures
        *final(shell) == tray_clicked(*old(shell), action, now),
        r@ == match action {
            TrayAction::ToggleWidget => toggle_actions(*old(shell), now),
            TrayAction::ShowContextMenu => seq![Action::ShowContextMenu],
            TrayAction::Nothing => Seq::empty(),
        },
{
    let mut actions: Vec<Action> = Vec::new();
    match action {
        TrayAction::ToggleWidget => {
            actions = toggle_panel(shell, now);
        },
        TrayAction::ShowContextMenu => {
            actions.push(Action::ShowContextMenu);
        },
        TrayAction::Nothing => {},
    }
    actions
}

/// The user is dragging the widget.
pub open spec fn is_dragging(a: Shell) -> bool {
    a.app matches Some(s) && s.drag.dragging
}

/// A point of the client area is on the handle by which the widget is dragged.
pub open spec fn on_handle(x: int, dpi: u32) -> bool {
    x < scaled(DIVIDER_HIT_ZONE as int, dpi)
}

/// The work that follows a change of the screen.
pub open spec fn screen_actions() -> Seq<Action> {
    seq![
        Action::RefreshDpi,
        Action::PositionAtTaskbar,
        Action::RefreshPanelView,
        Action::RenderLayered,
    ]
}

fn screen_changed(first: Vec<Action>) -> (r: Vec<Action>)
    ensures
        r@ == first@ + screen_actions(),
{
    let mut actions = first;
    actions.push(Action::RefreshDpi);
    actions.push(Action::PositionAtTaskbar);
    actions.push(Action::RefreshPanelView);
    actions.push(Action::RenderLayered);
    assert(actions@ =~= first@ + screen_actions());
    actions
}

/// The work of a timer.
pub open spec fn timer_fired(a: Shell, timer: Option<TimerKind>, actions: Seq<Action>) -> bool {
    match timer {
        Some(TimerKind::Poll) => match a.app {
            Some(s) => if s.polling.auth_error_paused_polling {
                &&& actions.len() == 1
                &&& actions[0] matches Action::SampleCredentials { mode, previous }
                &&& mode == s.polling.auth_watch_mode
                &&& previous@ == s.polling.auth_watch_snapshot@
            } else {
                actions =~= seq![Action::SpawnPoll]
            },
            None => actions.len() == 0,
        },
        Some(TimerKind::Countdown) => actions =~= seq![
            Action::UpdateDisplay,
            Action::RenderLayered,
            Action::RefreshPanelView,
            Action::ScheduleCountdown,
        ],
        Some(TimerKind::ResetPoll) => actions =~= match a.app {
            Some(s) if !s.polling.auth_error_paused_polling => seq![Action::SpawnPoll],
            _ => Seq::empty(),
        },
        Some(TimerKind::UpdateCheck) => actions =~= seq![
            Action::BeginUpdateCheck { interactive: false },
        ],
        _ => actions.len() == 0,
    }
}

/// A timer of the widget fired.
pub fn on_timer(shell: &Shell, timer: Option<TimerKind>) -> (r: Vec<Action>)
    ensures
        timer_fired(*shell, timer, r@),
{
    let mut actions: Vec<Action> = Vec::new();
    match timer {
        Some(TimerKind::Poll) => {
            actions = on_poll_timer(shell);
        },
        Some(TimerKind::Countdown) => {
            actions.push(Action::UpdateDisplay);
            actions.push(Action::RenderLayered);
            actions.push(Action::RefreshPanelView);
            actions.push(Action::ScheduleCountdown);
        },
        Some(TimerKind::ResetPoll) => {
            actions = on_reset_poll_timer(shell);
        },
        Some(TimerKind::UpdateCheck) => {
            actions.push(Action::BeginUpdateCheck { interactive: false });
        },
        _ => {},
    }
    actions
}

/// The shell with a drag under way, from where the widget and the pointer are.
pub open spec fn drag_begun(a: Shell, cursor_x: i32) -> Shell {
    match a.app {
        Some(s) => Shell {
            app: Some(
                AppState {
                    drag: Drag {
                        dragging: true,
                        start_mouse_x: cursor_x,
                        start_offset: s.prefs.tray_offset,
                    },
                    ..s
                },
            ),
            ..a
        },
        None => a,
    }
}

/// The mouse button went down on the handle: a drag begins.
pub fn begin_drag(shell: &mut Shell, cursor_x: i32) -> (r: Vec<Action>)
    ensures
        *final(shell) == drag_begun(*old(shell), cursor_x),
        r@ == seq![Action::CaptureMouse],
{
    match &mut shell.app {
        Some(s) => {
            s.drag = Drag {
                dragging: true,
                start_mouse_x: cursor_x,
                start_offset: s.prefs.tray_offset,
            };
        },
        None => {},
    }
    let mut actions: Vec<Action> = Vec::new();
    actions.push(Action::CaptureMouse);
    actions
}

/// The shell with no drag under way.
pub open spec fn drag_ended(a: Shell) -> Shell {
    match a.app {
        Some(s) => Shell {
            app: Some(AppState { drag: Drag { dragging: false, ..s.drag }, ..s }),
            ..a
        },
        None => a,
    }
}

/// The shell with the pointer over the widget, or not.
pub open spec fn pointer_over(a: Shell, over: bool) -> Shell {
    match a.app {
        Some(s) => Shell { app: Some(AppState { mouse_over_widget: over, ..s }), ..a },
        None => a,
    }
}

/// What letting the mouse button go over the widget does: a drag ends and its
/// outcome is kept; a click beside the handle opens or closes the panel.
pub open spec fn mouse_released(
    a: Shell,
    b: Shell,
    x: int,
    around: Surroundings,
    actions: Seq<Action>,
) -> bool {
    if is_dragging(a) {
        b == drag_ended(a) && actions =~= seq![Action::ReleaseMouse, Action::SaveSettings]
    } else if !on_handle(x, around.dpi) {
        b == panel_toggled(a, around.now) && actions =~= toggle_actions(a, around.now)
    } else {
        b == a && actions.len() == 0
    }
}

/// The mouse button was let go over the widget.
pub fn release_mouse(shell: &mut Shell, x: i32, around: &Surroundings) -> (r: Vec<Action>)
    requires
        around.in_range(),
    ensures
        mouse_released(*old(shell), *final(shell), x as int, *around, r@),
{
    let mut actions: Vec<Action> = Vec::new();
    let was_dragging = match &mut shell.app {
        Some(s) => {
            let dragging = s.drag.dragging;
            s.drag.dragging = false;
            dragging
        },
        None => false,
    };
    if was_dragging {
        actions.push(Action::ReleaseMouse);
        actions.push(Action::SaveSettings);
    } else if x >= sc(DIVIDER_HIT_ZONE, around.dpi) {
        actions = toggle_panel(shell, around.now);
    }
    actions
}

/// What a move of the pointer over the widget does: a drag goes on, or the hover
/// popup comes up when the pointer has just come.
pub open spec fn mouse_moved(a: Shell, b: Shell, actions: Seq<Action>) -> bool {
    if is_dragging(a) {
        b == a && actions =~= seq![Action::SampleDrag]
    } else if a.app matches Some(s) && !s.mouse_over_widget {
        &&& b == pointer_over(a, true)
        &&& actions =~= seq![Action::TrackMouseLeave, Action::ShowHoverPopup]
    } else {
        b == a && actions.len() == 0
    }
}

/// The pointer moved over the widget.
pub fn move_mouse(shell: &mut Shell) -> (r: Vec<Action>)
    ensures
        mouse_moved(*old(shell), *final(shell), r@),
{
    let mut actions: Vec<Action> = Vec::new();
    match &mut shell.app {
        Some(s) => {
            if s.drag.dragging {
                actions.push(Action::SampleDrag);
            } else if !s.mouse_over_widget {
                s.mouse_over_widget = true;
                actions.push(Action::TrackMouseLeave);
                actions.push(Action::ShowHoverPopup);
            }
        },
        None => {},
    }
    actions
}

/// The pointer left the widget.
pub fn leave_mouse(shell: &mut Shell) -> (r: Vec<Action>)
    ensures
        *final(shell) == pointer_over(*old(shell), false),
        r@ == popup_actions(*old(shell)),
{
    match &mut shell.app {
        Some(s) => {
            s.mouse_over_widget = false;
        },
        None => {},
    }
    hide_hover_popup(shell)
}

/// The work of the end of the widget's window.
pub open spec fn destroy_actions(a: Shell) -> Seq<Action> {
    (match a.app {
        Some(s) => (match s.windows.win_event_hook {
            Some(hook) => seq![Action::Unhook(hook)],
            None => Seq::empty(),
        }) + (match s.panel.hwnd {
            Some(panel) => seq![Action::DestroyPanel(panel)],
            None => Seq::empty(),
        }),
        None => Seq::empty(),
    }) + seq![Action::RemoveTrayIcons, Action::ShutdownGraphics, Action::PostQuit]
}

/// The widget's window is going.
pub fn on_destroy(shell: &Shell) -> (r: Vec<Action>)
    ensures
        r@ == destroy_actions(*shell),
{
    let mut actions: Vec<Action> = Vec::new();
    match &shell.app {
        Some(s) => {
            match s.windows.win_event_hook {
                Some(hook) => {
                    actions.push(Action::Unhook(hook));
                },
                None => {},
            }
            match s.panel.hwnd {
                Some(panel) => {
                    actions.push(Action::DestroyPanel(panel));
                },
                None => {},
            }
        },
        None => {},
    }
    actions.push(Action::RemoveTrayIcons);
    actions.push(Action::ShutdownGraphics);
    actions.push(Action::PostQuit);
    assert(actions@ =~= destroy_actions(*shell));
    actions
}

/// What a message to the widget does. `toggle` is the command that shows or hides
/// the widget.
pub open spec fn message_handled(
    a: Shell,
    b: Shell,
    message: Message,
    around: Surroundings,
    toggle: u16,
    actions: Seq<Action>,
    reply: Reply,
) -> bool {
    match message {
        Message::Paint => {
            &&& b == a
            &&& actions =~= if a.app matches Some(s) && s.embedded {
                seq![Action::ValidatePaint]
            } else {
                seq![Action::PaintFallback]
            }
            &&& reply == Reply::Value(0)
        },
        Message::EraseBackground => b == a && actions.len() == 0 && reply == Reply::Value(1),
        Message::DisplayChange => b == a && actions =~= screen_actions() && reply
            == Reply::Value(0),
        Message::DpiChange(dpi) => {
            &&& b == a
            &&& actions =~= seq![Action::StoreDpi(dpi)] + screen_actions()
            &&& reply == Reply::Value(0)
        },
        Message::SettingChange => {
            &&& b == a
            &&& actions =~= seq![Action::CheckTheme, Action::CheckLanguage] + screen_actions()
            &&& reply == Reply::Value(0)
        },
        Message::Timer(timer) => b == a && timer_fired(a, timer, actions) && reply
            == Reply::Value(0),
        Message::UsageUpdated => {
            &&& b == a
            &&& actions =~= seq![
                Action::CheckTheme,
                Action::CheckLanguage,
                Action::RenderLayered,
                Action::RefreshPanelView,
                Action::ScheduleCountdown,
                Action::SuppressTrayReposition,
                Action::SyncTrayIcons,
            ]
            &&& reply == Reply::Value(0)
        },
        Message::UpdateCheckComplete => {
            &&& b == a
            &&& actions =~= seq![Action::ScheduleAutoUpdateCheck]
            &&& reply == Reply::Value(0)
        },
        Message::MouseActivate => if panel_open(a) && !is_pinned(a) {
            &&& b == panel_hidden(a, around.now)
            &&& actions =~= hide_actions(a)
            &&& reply == Reply::Value(3)
        } else {
            b == a && actions.len() == 0 && reply == Reply::Default
        },
        Message::SetCursor { hit } => {
            &&& b == a
            &&& if is_dragging(a) || (hit == 1 && on_handle(
                around.cursor_client_x as int,
                around.dpi,
            )) {
                &&& actions =~= seq![Action::ShowCursor(CursorShape::ResizeHorizontally)]
                &&& reply == Reply::Value(1)
            } else {
                actions.len() == 0 && reply == Reply::Default
            }
        },
        Message::LeftDown { x } => {
            &&& reply == Reply::Value(0)
            &&& if on_handle(x as int, around.dpi) {
                b == drag_begun(a, around.cursor_x) && actions =~= seq![Action::CaptureMouse]
            } else {
                b == a && actions.len() == 0
            }
        },
        Message::MouseMove => mouse_moved(a, b, actions) && reply == Reply::Value(0),
        Message::MouseLeave => {
            &&& b == pointer_over(a, false)
            &&& actions =~= popup_actions(a)
            &&& reply == Reply::Value(0)
        },
        Message::LeftUp { x } => mouse_released(a, b, x as int, around, actions) && reply
            == Reply::Value(0),
        Message::RightUp => b == a && actions =~= seq![Action::ShowContextMenu] && reply
            == Reply::Value(0),
        Message::Command(id) => command_executed(a, b, id, toggle, actions) && reply
            == Reply::Value(0),
        Message::Tray => b == a && actions =~= seq![Action::ReadTrayAction] && reply
            == Reply::Value(0),
        Message::Destroy => b == a && actions =~= destroy_actions(a) && reply == Reply::Value(0),
        Message::Other => b == a && actions.len() == 0 && reply == Reply::Default,
    }
}

/// Handles a message to the widget. `toggle` is the command that shows or hides
/// the widget.
pub fn on_message(
    shell: &mut Shell,
    message: Message,
    around: &Surroundings,
    toggle: u16,
) -> (r: Response)
    requires
        around.in_range(),
    ensures
        message_handled(
            *old(shell),
            *final(shell),
            message,
            *around,
            toggle,
            r.actions@,
            r.reply,
        ),
{
    let mut actions: Vec<Action> = Vec::new();
    match message {
        Message::Paint => {
            let embedded = match &shell.app {
                Some(s) => s.embedded,
                None => false,
            };
            if embedded {
                actions.push(Action::ValidatePaint);
            } else {
                actions.push(Action::PaintFallback);
            }
            answered(actions, 0)
        },
        Message::EraseBackground => answered(actions, 1),
        Message::DisplayChange => answered(screen_changed(actions), 0),
        Message::DpiChange(dpi) => {
            actions.push(Action::StoreDpi(dpi));
            answered(screen_changed(actions), 0)
        },
        Message::SettingChange => {
            actions.push(Action::CheckTheme);
            actions.push(Action::CheckLanguage);
            answered(screen_changed(actions), 0)
        },
        Message::Timer(timer) => answered(on_timer(shell, timer), 0),
        Message::UsageUpdated => {
            actions.push(Action::CheckTheme);
            actions.push(Action::CheckLanguage);
            actions.push(Action::RenderLayered);
            actions.push(Action::RefreshPanelView);
            actions.push(Action::ScheduleCountdown);
            actions.push(Action::SuppressTrayReposition);
            actions.push(Action::SyncTrayIcons);
            answered(actions, 0)
        },
        Message::UpdateCheckComplete => {
            actions.push(Action::ScheduleAutoUpdateCheck);
            answered(actions, 0)
        },
        Message::MouseActivate => {
            let closes = match &shell.app {
                Some(s) => s.panel.visible && !s.prefs.panel_pinned,
                None => false,
            };
            if closes {
                answered(hide_panel(shell, around.now), 3)
            } else {
                Response { actions, reply: Reply::Default }
            }
        },
        Message::SetCursor { hit } => {
            let dragging = match &shell.app {
                Some(s) => s.drag.dragging,
                None => false,
            };
            if dragging || (hit == 1 && around.cursor_client_x < sc(DIVIDER_HIT_ZONE, around.dpi)) {
                actions.push(Action::ShowCursor(CursorShape::ResizeHorizontally));
                answered(actions, 1)
            } else {
                Response { actions, reply: Reply::Default }
            }
        },
        Message::LeftDown { x } => {
            if x < sc(DIVIDER_HIT_ZONE, around.dpi) {
                answered(begin_drag(shell, around.cursor_x), 0)
            } else {
                answered(actions, 0)
            }
        },
        Message::MouseMove => answered(move_mouse(shell), 0),
        Message::MouseLeave => answered(leave_mouse(shell), 0),
        Message::LeftUp { x } => answered(release_mouse(shell, x, around), 0),
        Message::RightUp => {
            actions.push(Action::ShowContextMenu);
            answered(actions, 0)
        },
        Message::Command(id) => answered(on_command(shell, id, toggle), 0),
        Message::Tray => {
            actions.push(Action::ReadTrayAction);
            answered(actions, 0)
        },
        Message::Destroy => answered(on_destroy(shell), 0),
        Message::Other => Response { actions, reply: Reply::Default },
    }
}

/// Every message to the widget leaves polling at an interval that the menu offers.
pub proof fn lemma_messages_keep_the_state_well_formed(
    a: Shell,
    b: Shell,
    message: Message,
    around: Surroundings,
    toggle: u16,
    actions: Seq<Action>,
    reply: Reply,
)
    requires
        message_handled(a, b, message, around, toggle, actions, reply),
        a.well_formed(),
    ensures
        b.well_formed(),
        a.app is Some <==> b.app is Some,
{
}

/// A drag begins where the widget is: with the pointer where it was, the offset is
/// the one before the drag, held on the taskbar.
pub proof fn lemma_drag_starts_in_place(
    a: Shell,
    b: Shell,
    cursor_x: i32,
    taskbar: Option<TaskbarGeometry>,
    dpi: u32,
    actions: Seq<Action>,
)
    requires
        a.app is Some,
        dragged_to(drag_begun(a, cursor_x), b, cursor_x as int, taskbar, dpi, actions),
    ensures
        b.app matches Some(t) && t.prefs.tray_offset == (match taskbar {
            Some(taskbar) => clamped(
                a.app->0.prefs.tray_offset as int,
                0,
                max_drag_offset(taskbar, dpi),
            ),
            None => crate::geometry::max_of(a.app->0.prefs.tray_offset as int, 0),
        }) as i32,
{
}

/// A drag that ends is kept: letting the mouse go saves the settings, and the
/// widget is where the last move of the pointer left it.
pub proof fn lemma_drag_outcome_is_saved(
    a: Shell,
    b: Shell,
    x: i32,
    around: Surroundings,
    toggle: u16,
    actions: Seq<Action>,
    reply: Reply,
)
    requires
        is_dragging(a),
        message_handled(a, b, Message::LeftUp { x }, around, toggle, actions, reply),
    ensures
        actions.contains(Action::SaveSettings),
        !is_dragging(b),
        b.app->0.prefs == a.app->0.prefs,
{
    assert(actions[1] == Action::SaveSettings);
}

/// While the user drags the widget no reaction of the program moves it.
pub proof fn lemma_dragged_widget_is_left_alone(
    a: Shell,
    taskbar: Option<TaskbarGeometry>,
    dpi: u32,
)
    requires
        is_dragging(a),
    ensures
        widget_target(a, taskbar, dpi) is None,
{
}

/// A failure of the credentials stops polling until they change: neither poll timer
/// polls, the ordinary one looks at the sources that the failure tells to watch,
/// and compares them with what they were then.
pub proof fn lemma_credential_failure_stops_polling(
    a: AppState,
    b: AppState,
    error: PollError,
    at: Timestamp,
    snapshot: Vec<String>,
    shell: Shell,
    actions: Seq<Action>,
)
    requires
        failure_recorded(a, b, error, at, snapshot),
        watch_after(error) is Some,
        shell.app == Some(b),
    ensures
        timer_fired(shell, Some(TimerKind::ResetPoll), actions) ==> actions.len() == 0,
        timer_fired(shell, Some(TimerKind::Poll), actions) ==> {
            &&& actions.len() == 1
            &&& actions[0] matches Action::SampleCredentials { mode, previous }
            &&& Some(mode) == watch_after(error)
            &&& previous@ == snapshot@
        },
{
}

/// A click on the widget closes an open panel that is not pinned, and the panel
/// stays closed: the window's activation closes it, and letting the mouse button
/// go does not open it again if that comes within the time for which reopening is
/// held back.
pub proof fn lemma_click_closes_the_panel(
    a: Shell,
    b: Shell,
    c: Shell,
    x: i32,
    first: Surroundings,
    second: Surroundings,
    toggle: u16,
    closing: Seq<Action>,
    rest: Seq<Action>,
    reply: Reply,
    last: Reply,
)
    requires
        first.in_range(),
        second.in_range(),
        panel_open(a) && !is_pinned(a) && !is_dragging(a),
        message_handled(a, b, Message::MouseActivate, first, toggle, closing, reply),
        message_handled(b, c, Message::LeftUp { x }, second, toggle, rest, last),
        second.now < first.now + crate::panel_window::PANEL_REOPEN_SUPPRESS_NANOS,
    ensures
        !panel_open(c),
        rest.len() == 0,
        reply == Reply::Value(3),
{
}

} // verus!
