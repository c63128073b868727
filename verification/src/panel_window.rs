//! The panel's window: when it opens and closes, where it goes, and what its
//! messages do.

use crate::geometry::current_panel_size;
use crate::geometry::panel_placement;
use crate::geometry::place_panel;
use crate::geometry::scaled;
use crate::geometry::valid_coord;
use crate::geometry::valid_dpi;
use crate::geometry::Placement;
use crate::geometry::Rect;
use crate::geometry::PANEL_SINGLE_MODEL_H;
use crate::geometry::PANEL_SINGLE_MODEL_W;
use crate::messages::PanelMessage;
use crate::messages::KEY_ESCAPE;
use crate::messages::KEY_TAB;
use crate::panel::clear_pointer;
use crate::panel::focus_next;
use crate::panel::focus_order;
use crate::panel::hit;
use crate::panel::in_drag_zone;
use crate::panel::is_drag_zone;
use crate::panel::next_focus;
use crate::panel::released;
use crate::panel::set_hot_button_at;
use crate::panel::set_pressed_button_at;
use crate::panel::take_released_button;
use crate::panel::PanelButtonId;
use crate::panel::PanelState;
use crate::poll::set_texts;
use crate::state::followed_by;
use crate::state::answered;
use crate::state::Action;
use crate::state::AppState;
use crate::state::CursorShape;
use crate::state::Figures;
use crate::state::Polling;
use crate::state::Preferences;
use crate::state::Reply;
use crate::state::Response;
use crate::state::Shell;
use vstd::prelude::*;

verus! {

/// For how long a closed panel does not open again, in nanoseconds: the click
/// that took the focus from it is not to open it.
pub const PANEL_REOPEN_SUPPRESS_NANOS: u64 = 200_000_000;

/// How often the placeholders of missing data shimmer, in milliseconds.
pub const SHIMMER_MS: u32 = 600;

/// A moment that leaves room for the deadlines that are counted from it.
pub open spec fn valid_moment(now: u64) -> bool {
    now <= u64::MAX - 1_000_000_000
}

/// Whether a moment leaves room for the deadlines that are counted from it.
pub fn moment_in_range(now: u64) -> (r: bool)
    ensures
        r == valid_moment(now),
{
    now <= u64::MAX - 1_000_000_000
}

/// The state once the panel is closed: nothing is hot or pressed, and the panel is
/// no longer pinned anywhere.
pub open spec fn closed_panel(s: AppState) -> AppState {
    AppState {
        panel: PanelState {
            visible: false,
            hot_button: None,
            pressed_button: None,
            ..s.panel
        },
        prefs: Preferences {
            panel_pinned: false,
            panel_pinned_x: None,
            panel_pinned_y: None,
            ..s.prefs
        },
        ..s
    }
}

/// The work of closing the panel: the settings change if it was pinned.
pub open spec fn closing_actions(s: AppState) -> Seq<Action> {
    (if s.prefs.panel_pinned {
        seq![Action::SaveSettings]
    } else {
        Seq::empty()
    }) + (if s.panel.hwnd is Some {
        seq![Action::HidePanelWindow]
    } else {
        Seq::empty()
    })
}

/// The shell once the panel is closed.
pub open spec fn panel_hidden(a: Shell, now: u64) -> Shell {
    Shell {
        app: match a.app {
            Some(s) => Some(closed_panel(s)),
            None => None,
        },
        panel_reopen_until: Some((now + PANEL_REOPEN_SUPPRESS_NANOS) as u64),
        ..a
    }
}

/// The work of closing the panel.
pub open spec fn hide_actions(a: Shell) -> Seq<Action> {
    match a.app {
        Some(s) => closing_actions(s),
        None => Seq::empty(),
    }
}

/// Closes the panel, unpins it, and holds its reopening back for a moment.
pub fn hide_panel(shell: &mut Shell, now: u64) -> (r: Vec<Action>)
    requires
        valid_moment(now),
    ensures
        *final(shell) == panel_hidden(*old(shell), now),
        r@ == hide_actions(*old(shell)),
{
    let mut actions: Vec<Action> = Vec::new();
    let ghost before = *shell;
    shell.panel_reopen_until = Some(now + PANEL_REOPEN_SUPPRESS_NANOS);
    match &mut shell.app {
        Some(s) => {
            if s.prefs.panel_pinned {
                actions.push(Action::SaveSettings);
            }
            s.panel.visible = false;
            s.panel.hot_button = None;
            s.panel.pressed_button = None;
            s.prefs.panel_pinned = false;
            s.prefs.panel_pinned_x = None;
            s.prefs.panel_pinned_y = None;
            if s.panel.hwnd.is_some() {
                actions.push(Action::HidePanelWindow);
            }
        },
        None => {},
    }
    assert(actions@ =~= hide_actions(before));
    actions
}

/// Whether the panel was closed too short a time ago to open again.
pub open spec fn reopen_suppressed(until: Option<u64>, now: u64) -> bool {
    until matches Some(until) && now < until
}

/// Whether the panel was closed too short a time ago to open again.
pub fn panel_reopen_suppressed(shell: &Shell, now: u64) -> (r: bool)
    ensures
        r == reopen_suppressed(shell.panel_reopen_until, now),
{
    match shell.panel_reopen_until {
        Some(until) => now < until,
        None => false,
    }
}

/// The state once the panel is open.
pub open spec fn opened_panel(s: AppState) -> AppState {
    AppState {
        panel: PanelState { visible: true, hot_button: None, pressed_button: None, ..s.panel },
        ..s
    }
}

/// The shell once the panel is open; without a window nothing opens.
pub open spec fn panel_shown(a: Shell) -> Shell {
    match a.app {
        Some(s) if s.panel.hwnd is Some => Shell { app: Some(opened_panel(s)), ..a },
        _ => a,
    }
}

/// The work that takes the hover popup away.
pub open spec fn popup_actions(a: Shell) -> Seq<Action> {
    match a.app {
        Some(s) => match s.windows.popup_hwnd {
            Some(popup) => seq![Action::HidePopup(popup)],
            None => Seq::empty(),
        },
        None => Seq::empty(),
    }
}

/// The work of opening the panel: placeholders shimmer until there is data.
pub open spec fn show_actions(a: Shell) -> Seq<Action> {
    popup_actions(a) + match a.app {
        Some(s) if s.panel.hwnd is Some => seq![
            Action::PositionPanel,
            Action::ApplyPanelBackground(s.prefs.panel_background),
            Action::ShowPanelWindow,
            Action::FocusPanel,
        ] + (if s.figures.data is None {
            seq![Action::SetShimmerTimer { ms: SHIMMER_MS }]
        } else {
            Seq::empty()
        }),
        _ => Seq::empty(),
    }
}

/// Takes the hover popup away.
pub fn hide_hover_popup(shell: &Shell) -> (r: Vec<Action>)
    ensures
        r@ == popup_actions(*shell),
{
    let mut actions: Vec<Action> = Vec::new();
    match &shell.app {
        Some(s) => match s.windows.popup_hwnd {
            Some(popup) => {
                actions.push(Action::HidePopup(popup));
            },
            None => {},
        },
        None => {},
    }
    actions
}

/// Opens the panel.
pub fn show_panel(shell: &mut Shell) -> (r: Vec<Action>)
    ensures
        *final(shell) == panel_shown(*old(shell)),
        r@ == show_actions(*old(shell)),
{
    let ghost before = *shell;
    let mut actions = hide_hover_popup(shell);
    match &mut shell.app {
        Some(s) => {
            if s.panel.hwnd.is_some() {
                s.panel.visible = true;
                s.panel.hot_button = None;
                s.panel.pressed_button = None;
                actions.push(Action::PositionPanel);
                actions.push(Action::ApplyPanelBackground(s.prefs.panel_background));
                actions.push(Action::ShowPanelWindow);
                actions.push(Action::FocusPanel);
                if s.figures.data.is_none() {
                    actions.push(Action::SetShimmerTimer { ms: SHIMMER_MS });
                }
            }
        },
        None => {},
    }
    assert(actions@ =~= show_actions(before));
    actions
}

/// The panel is open.
pub open spec fn panel_open(a: Shell) -> bool {
    a.app matches Some(s) && s.panel.visible
}

/// The shell after a click on the widget.
pub open spec fn panel_toggled(a: Shell, now: u64) -> Shell {
    if panel_open(a) {
        panel_hidden(a, now)
    } else if reopen_suppressed(a.panel_reopen_until, now) {
        a
    } else {
        panel_shown(a)
    }
}

/// The work after a click on the widget.
pub open spec fn toggle_actions(a: Shell, now: u64) -> Seq<Action> {
    if panel_open(a) {
        hide_actions(a)
    } else if reopen_suppressed(a.panel_reopen_until, now) {
        Seq::empty()
    } else {
        show_actions(a)
    }
}

/// Closes the panel if it is open, and else opens it, unless it was closed just now.
pub fn toggle_panel(shell: &mut Shell, now: u64) -> (r: Vec<Action>)
    requires
        valid_moment(now),
    ensures
        *final(shell) == panel_toggled(*old(shell), now),
        r@ == toggle_actions(*old(shell), now),
{
    let visible = match &shell.app {
        Some(s) => s.panel.visible,
        None => false,
    };
    if visible {
        hide_panel(shell, now)
    } else if panel_reopen_suppressed(shell, now) {
        Vec::new()
    } else {
        show_panel(shell)
    }
}

/// Two clicks close the panel and open it again, if the second comes after the
/// moment for which reopening is held back; a second click within it does nothing.
pub proof fn lemma_toggle_twice(a: Shell, first: u64, second: u64)
    requires
        valid_moment(first),
        valid_moment(second),
        a.app matches Some(s) && s.panel.visible && s.panel.hwnd is Some,
    ensures
        !panel_open(panel_toggled(a, first)),
        panel_open(panel_toggled(panel_toggled(a, first), second)) == (second >= first
            + PANEL_REOPEN_SUPPRESS_NANOS),
{
}

/// Where the panel is to go.
pub open spec fn panel_target(
    a: Shell,
    widget: Option<Rect>,
    screen_w: int,
    screen_h: int,
    dpi: u32,
) -> Option<(int, int)> {
    match a.app {
        Some(s) if s.panel.hwnd is Some && s.panel.visible => if s.prefs.panel_pinned {
            match (s.prefs.panel_pinned_x, s.prefs.panel_pinned_y) {
                (Some(x), Some(y)) => Some((x as int, y as int)),
                _ => None,
            }
        } else {
            match widget {
                Some(widget) => Some(
                    panel_placement(
                        widget,
                        screen_w,
                        screen_h,
                        scaled(PANEL_SINGLE_MODEL_W as int, dpi),
                        scaled(PANEL_SINGLE_MODEL_H as int, dpi),
                        scaled(8, dpi),
                    ),
                ),
                None => None,
            }
        },
        _ => None,
    }
}

/// Where the open panel goes: to the place that it is pinned to, else next to the
/// widget. A panel that is pinned to no place stays where it is.
pub fn position_panel_near_widget(
    shell: &Shell,
    widget: Option<Rect>,
    screen_w: i32,
    screen_h: i32,
    dpi: u32,
) -> (r: Option<Placement>)
    requires
        widget matches Some(rect) ==> rect.in_range(),
        valid_coord(screen_w as int),
        valid_coord(screen_h as int),
        valid_dpi(dpi),
    ensures
        match panel_target(*shell, widget, screen_w as int, screen_h as int, dpi) {
            Some((x, y)) => r matches Some(p) && p.parts() == (
                x,
                y,
                scaled(PANEL_SINGLE_MODEL_W as int, dpi),
                scaled(PANEL_SINGLE_MODEL_H as int, dpi),
            ),
            None => r is None,
        },
{
    let s = match &shell.app {
        Some(s) => s,
        None => return None,
    };
    if s.panel.hwnd.is_none() || !s.panel.visible {
        return None;
    }
    if s.prefs.panel_pinned {
        return match (s.prefs.panel_pinned_x, s.prefs.panel_pinned_y) {
            (Some(x), Some(y)) => {
                let (width, height) = current_panel_size(dpi);
                Some(Placement { x, y, width, height })
            },
            _ => None,
        };
    }
    match widget {
        Some(widget) => Some(place_panel(&widget, screen_w, screen_h, dpi)),
        None => None,
    }
}

/// The work of bringing an open panel up to date.
pub open spec fn refresh_view_actions(a: Shell) -> Seq<Action> {
    match a.app {
        Some(s) if s.panel.visible => seq![Action::PositionPanel] + (if s.panel.hwnd is Some {
            seq![Action::KillShimmerTimer, Action::InvalidatePanel { erase: true }]
        } else {
            Seq::empty()
        }),
        _ => Seq::empty(),
    }
}

/// Brings an open panel up to date.
pub fn refresh_panel_view(shell: &Shell) -> (r: Vec<Action>)
    ensures
        r@ == refresh_view_actions(*shell),
{
    let mut actions: Vec<Action> = Vec::new();
    match &shell.app {
        Some(s) => {
            if s.panel.visible {
                actions.push(Action::PositionPanel);
                if s.panel.hwnd.is_some() {
                    actions.push(Action::KillShimmerTimer);
                    actions.push(Action::InvalidatePanel { erase: true });
                }
            }
        },
        None => {},
    }
    assert(actions@ =~= refresh_view_actions(*shell));
    actions
}

/// The work after another button became the hot one.
pub open spec fn focus_moved_actions(moved: bool) -> Seq<Action> {
    if moved {
        seq![Action::SetAccessibleTitle, Action::InvalidatePanel { erase: false }]
    } else {
        Seq::empty()
    }
}

fn focus_moved(moved: bool) -> (r: Vec<Action>)
    ensures
        r@ == focus_moved_actions(moved),
{
    let mut actions: Vec<Action> = Vec::new();
    if moved {
        actions.push(Action::SetAccessibleTitle);
        actions.push(Action::InvalidatePanel { erase: false });
    }
    actions
}

/// The shell with another panel in its state, if it has one.
pub open spec fn with_panel(a: Shell, panel: PanelState) -> Shell {
    match a.app {
        Some(s) => Shell { app: Some(AppState { panel, ..s }), ..a },
        None => a,
    }
}

/// The panel with the button under a point as the hot one.
pub open spec fn hot_at(panel: PanelState, x: int, y: int) -> PanelState {
    PanelState { hot_button: hit(panel.buttons@, x, y), ..panel }
}

/// The pointer moved over the panel: the button under it becomes the hot one.
pub fn update_panel_hot_button(shell: &mut Shell, x: i32, y: i32) -> (r: Vec<Action>)
    ensures
        match old(shell).app {
            Some(s) => {
                &&& *final(shell) == with_panel(
                    *old(shell),
                    hot_at(s.panel, x as int, y as int),
                )
                &&& r@ == focus_moved_actions(
                    hit(s.panel.buttons@, x as int, y as int) != s.panel.hot_button,
                )
            },
            None => *final(shell) == *old(shell) && r@.len() == 0,
        },
{
    match &mut shell.app {
        Some(s) => {
            let changed = set_hot_button_at(&mut s.panel, x, y);
            focus_moved(changed)
        },
        None => Vec::new(),
    }
}

/// The mouse button went down over the panel: the button under the pointer is
/// pressed, and the panel keeps the mouse until it is let go.
pub fn press_panel_button_at(shell: &mut Shell, x: i32, y: i32) -> (r: Vec<Action>)
    ensures
        match old(shell).app {
            Some(s) => {
                &&& *final(shell) == with_panel(
                    *old(shell),
                    PanelState {
                        pressed_button: hit(s.panel.buttons@, x as int, y as int),
                        ..s.panel
                    },
                )
                &&& r@ == if hit(s.panel.buttons@, x as int, y as int) is Some {
                    seq![Action::CapturePanel, Action::InvalidatePanel { erase: false }]
                } else {
                    Seq::empty()
                }
            },
            None => *final(shell) == *old(shell) && r@.len() == 0,
        },
{
    let mut actions: Vec<Action> = Vec::new();
    match &mut shell.app {
        Some(s) => {
            if set_pressed_button_at(&mut s.panel, x, y) {
                actions.push(Action::CapturePanel);
                actions.push(Action::InvalidatePanel { erase: false });
            }
        },
        None => {},
    }
    actions
}

/// A refresh was asked for: the figures give way to dots, and a failure will be
/// told even if one was told before.
pub open spec fn refresh_requested(a: Shell, b: Shell) -> bool {
    &&& b == (Shell { app: b.app, ..a })
    &&& match a.app {
        Some(s) => {
            &&& b.app matches Some(t)
            &&& t == (AppState { figures: t.figures, polling: t.polling, ..s })
            &&& t.polling == (Polling { force_notify_auth_error: true, ..s.polling })
            &&& dotted(s.figures, t.figures)
        },
        None => b.app is None,
    }
}

/// Dots in the place of both lines of figures.
pub open spec fn dotted(a: Figures, b: Figures) -> bool {
    &&& b.session_text@ == "..."@
    &&& b.weekly_text@ == "..."@
    &&& b == (Figures { session_text: b.session_text, weekly_text: b.weekly_text, ..a })
}

/// Notes that a refresh was asked for.
pub fn request_refresh(shell: &mut Shell)
    ensures
        refresh_requested(*old(shell), *final(shell)),
{
    match &mut shell.app {
        Some(s) => {
            set_texts(&mut s.figures, "...");
            s.polling.force_notify_auth_error = true;
        },
        None => {},
    }
}

/// The user asked for a refresh from the panel.
pub fn refresh_from_panel(shell: &mut Shell) -> (r: Vec<Action>)
    ensures
        refresh_requested(*old(shell), *final(shell)),
        r@ == seq![Action::RenderLayered, Action::RefreshPanelView, Action::SpawnPoll],
{
    request_refresh(shell);
    let mut actions: Vec<Action> = Vec::new();
    actions.push(Action::RenderLayered);
    actions.push(Action::RefreshPanelView);
    actions.push(Action::SpawnPoll);
    actions
}

/// The preferences with the panel pinned where it was not, and the other way
/// round; an unpinned panel has no place.
pub open spec fn pin_toggled(p: Preferences) -> Preferences {
    if p.panel_pinned {
        Preferences { panel_pinned: false, panel_pinned_x: None, panel_pinned_y: None, ..p }
    } else {
        Preferences { panel_pinned: true, ..p }
    }
}

/// What a button of the panel does.
pub open spec fn button_executed(
    a: Shell,
    b: Shell,
    button: PanelButtonId,
    actions: Seq<Action>,
) -> bool {
    match a.app {
        Some(s) => match button {
            PanelButtonId::Refresh => {
                &&& refresh_requested(a, b)
                &&& actions =~= seq![
                    Action::RenderLayered,
                    Action::RefreshPanelView,
                    Action::SpawnPoll,
                    Action::InvalidatePanel { erase: true },
                ]
            },
            PanelButtonId::Pin => {
                &&& b == (Shell { app: Some(AppState { prefs: pin_toggled(s.prefs), ..s }), ..a })
                &&& actions =~= seq![
                    Action::SaveSettings,
                    Action::InvalidatePanel { erase: true },
                ]
            },
            PanelButtonId::Settings => {
                &&& b == (Shell { app: Some(AppState { panel_menu_open: true, ..s }), ..a })
                &&& actions =~= seq![Action::ShowContextMenu, Action::MenuDismissed]
            },
        },
        None => b == a && actions.len() == 0,
    }
}

/// Does what a button of the panel is for.
pub fn execute_panel_button(shell: &mut Shell, button: PanelButtonId) -> (r: Vec<Action>)
    ensures
        button_executed(*old(shell), *final(shell), button, r@),
{
    let mut actions: Vec<Action> = Vec::new();
    if shell.app.is_none() {
        return actions;
    }
    match button {
        PanelButtonId::Refresh => {
            actions = refresh_from_panel(shell);
            actions.push(Action::InvalidatePanel { erase: true });
        },
        PanelButtonId::Pin => {
            match &mut shell.app {
                Some(s) => {
                    s.prefs.panel_pinned = !s.prefs.panel_pinned;
                    if !s.prefs.panel_pinned {
                        s.prefs.panel_pinned_x = None;
                        s.prefs.panel_pinned_y = None;
                    }
                },
                None => {},
            }
            actions.push(Action::SaveSettings);
            actions.push(Action::InvalidatePanel { erase: true });
        },
        PanelButtonId::Settings => {
            match &mut shell.app {
                Some(s) => {
                    s.panel_menu_open = true;
                },
                None => {},
            }
            actions.push(Action::ShowContextMenu);
            actions.push(Action::MenuDismissed);
        },
    }
    actions
}

/// The shell without the menu that was opened from the panel.
pub open spec fn menu_closed(a: Shell) -> Shell {
    match a.app {
        Some(s) => Shell { app: Some(AppState { panel_menu_open: false, ..s }), ..a },
        None => a,
    }
}

/// The menu that was opened from the panel is gone: the panel gets the focus back.
pub fn menu_dismissed(shell: &mut Shell) -> (r: Vec<Action>)
    ensures
        *final(shell) == menu_closed(*old(shell)),
        r@ == match old(shell).app {
            Some(s) if s.panel.hwnd is Some => seq![Action::FocusPanel],
            _ => Seq::empty(),
        },
{
    let mut actions: Vec<Action> = Vec::new();
    match &mut shell.app {
        Some(s) => {
            s.panel_menu_open = false;
            if s.panel.hwnd.is_some() {
                actions.push(Action::FocusPanel);
            }
        },
        None => {},
    }
    actions
}

/// The state with no button of the panel pressed.
pub open spec fn let_go(a: Shell) -> Shell {
    match a.app {
        Some(s) => with_panel(a, PanelState { pressed_button: None, ..s.panel }),
        None => a,
    }
}

/// What letting the mouse button go over the panel does: the pressed button acts
/// if the pointer is still on it.
pub open spec fn button_released(a: Shell, b: Shell, actions: Seq<Action>) -> bool {
    match a.app {
        Some(s) => {
            &&& actions.len() >= 2
            &&& actions.take(2) =~= seq![
                Action::ReleaseMouse,
                Action::InvalidatePanel { erase: false },
            ]
            &&& match released(s.panel) {
                Some(button) => button_executed(let_go(a), b, button, actions.skip(2)),
                None => b == let_go(a) && actions.len() == 2,
            }
        },
        None => b == a && actions.len() == 0,
    }
}

/// The mouse button was let go over the panel.
pub fn release_panel_button(shell: &mut Shell) -> (r: Vec<Action>)
    ensures
        button_released(*old(shell), *final(shell), r@),
{
    let mut actions: Vec<Action> = Vec::new();
    let button = match &mut shell.app {
        Some(s) => take_released_button(&mut s.panel),
        None => return actions,
    };
    actions.push(Action::ReleaseMouse);
    actions.push(Action::InvalidatePanel { erase: false });
    let ghost first = actions@;
    match button {
        Some(button) => {
            let rest = execute_panel_button(shell, button);
            let ghost second = rest@;
            actions = followed_by(actions, rest);
            assert(actions@.take(2) =~= first);
            assert(actions@.skip(2) =~= second);
        },
        None => {
            assert(actions@.take(2) =~= first);
        },
    }
    actions
}

/// The pointer or the focus left the panel: no button is hot or pressed.
pub fn clear_panel_pointer_state(shell: &mut Shell) -> (r: Vec<Action>)
    ensures
        match old(shell).app {
            Some(s) => {
                &&& *final(shell) == with_panel(
                    *old(shell),
                    PanelState { hot_button: None, pressed_button: None, ..s.panel },
                )
                &&& r@ == focus_moved_actions(
                    s.panel.hot_button is Some || s.panel.pressed_button is Some,
                )
            },
            None => *final(shell) == *old(shell) && r@.len() == 0,
        },
{
    match &mut shell.app {
        Some(s) => {
            let changed = clear_pointer(&mut s.panel);
            focus_moved(changed)
        },
        None => Vec::new(),
    }
}

/// The panel with the focus moved on by one button, where there is one.
pub open spec fn focus_advanced(panel: PanelState) -> PanelState {
    let order = focus_order(panel.buttons@);
    if order.len() > 0 {
        PanelState { hot_button: Some(next_focus(order, panel.hot_button)), ..panel }
    } else {
        panel
    }
}

/// The keyboard focus moves on by one button.
pub fn focus_next_panel_button(shell: &mut Shell) -> (r: Vec<Action>)
    ensures
        match old(shell).app {
            Some(s) => {
                &&& *final(shell) == with_panel(*old(shell), focus_advanced(s.panel))
                &&& r@ == focus_moved_actions(focus_order(s.panel.buttons@).len() > 0)
            },
            None => *final(shell) == *old(shell) && r@.len() == 0,
        },
{
    match &mut shell.app {
        Some(s) => {
            let changed = focus_next(&mut s.panel);
            focus_moved(changed)
        },
        None => Vec::new(),
    }
}

/// What the system tells along with a message to the panel: the DPI, the moment,
/// the pointer and the right edge in the client area, and the window's corner.
#[derive(Clone, Copy, Debug)]
pub struct PanelSurroundings {
    pub dpi: u32,
    pub now: u64,
    pub pointer_x: i32,
    pub pointer_y: i32,
    pub client_right: i32,
    pub window_left: i32,
    pub window_top: i32,
}

impl PanelSurroundings {
    pub open spec fn in_range(self) -> bool {
        &&& valid_dpi(self.dpi)
        &&& valid_moment(self.now)
        &&& valid_coord(self.client_right as int)
    }

    /// Whether the figures leave room for what is added to them.
    pub fn is_in_range(&self) -> (r: bool)
        ensures
            r == self.in_range(),
    {
        crate::geometry::dpi_in_range(self.dpi) && moment_in_range(self.now)
            && crate::geometry::coord_in_range(self.client_right)
    }
}

/// The panel is pinned.
pub open spec fn is_pinned(a: Shell) -> bool {
    a.app matches Some(s) && s.prefs.panel_pinned
}

/// The loss of the focus closes the panel: it is not pinned, and no menu of its
/// own has the focus.
pub open spec fn closes_on_blur(a: Shell) -> bool {
    !is_pinned(a) && !(a.app matches Some(s) && s.panel_menu_open)
}

/// The shell once a dragged panel has come to rest: a pinned panel is pinned there.
pub open spec fn panel_moved(a: Shell, left: i32, top: i32) -> Shell {
    match a.app {
        Some(s) if s.prefs.panel_pinned => Shell {
            app: Some(
                AppState {
                    prefs: Preferences {
                        panel_pinned_x: Some(left),
                        panel_pinned_y: Some(top),
                        ..s.prefs
                    },
                    ..s
                },
            ),
            ..a
        },
        _ => a,
    }
}

/// A dragged panel has come to rest.
pub fn panel_drag_ended(shell: &mut Shell, left: i32, top: i32) -> (r: Vec<Action>)
    ensures
        *final(shell) == panel_moved(*old(shell), left, top),
        r@ == seq![Action::SaveSettings],
{
    match &mut shell.app {
        Some(s) => {
            if s.prefs.panel_pinned {
                s.prefs.panel_pinned_x = Some(left);
                s.prefs.panel_pinned_y = Some(top);
            }
        },
        None => {},
    }
    let mut actions: Vec<Action> = Vec::new();
    actions.push(Action::SaveSettings);
    actions
}

/// The work of the shimmer timer: it ends once there is data.
pub open spec fn shimmer_actions(a: Shell) -> Seq<Action> {
    (if a.app matches Some(s) && s.figures.data is None {
        Seq::empty()
    } else {
        seq![Action::KillShimmerTimer]
    }) + seq![Action::InvalidatePanel { erase: true }]
}

/// The shimmer timer fired.
pub fn on_shimmer_timer(shell: &mut Shell) -> (r: Vec<Action>)
    ensures
        *final(shell) == (Shell { app: final(shell).app, ..*old(shell) }),
        match old(shell).app {
            Some(s) => final(shell).app == Some(
                AppState { shimmer_phase: !s.shimmer_phase, ..s },
            ),
            None => final(shell).app is None,
        },
        r@ == shimmer_actions(*old(shell)),
{
    let ghost before = *shell;
    let mut actions: Vec<Action> = Vec::new();
    let has_data = match &mut shell.app {
        Some(s) => {
            s.shimmer_phase = !s.shimmer_phase;
            s.figures.data.is_some()
        },
        None => true,
    };
    if has_data {
        actions.push(Action::KillShimmerTimer);
    }
    actions.push(Action::InvalidatePanel { erase: true });
    assert(actions@ =~= shimmer_actions(before));
    actions
}

/// What a message to the panel does.
pub open spec fn panel_message_handled(
    a: Shell,
    b: Shell,
    message: PanelMessage,
    around: PanelSurroundings,
    actions: Seq<Action>,
    reply: Reply,
) -> bool {
    match message {
        PanelMessage::EraseBackground => b == a && actions.len() == 0 && reply == Reply::Value(1),
        PanelMessage::Paint => b == a && actions =~= seq![Action::PaintPanel] && reply
            == Reply::Value(0),
        PanelMessage::MouseMove { x, y } => {
            &&& reply == Reply::Value(0)
            &&& match a.app {
                Some(s) => {
                    &&& b == with_panel(a, hot_at(s.panel, x as int, y as int))
                    &&& actions =~= focus_moved_actions(
                        hit(s.panel.buttons@, x as int, y as int) != s.panel.hot_button,
                    ) + seq![Action::TrackPanelLeave]
                },
                None => b == a && actions =~= seq![Action::TrackPanelLeave],
            }
        },
        PanelMessage::MouseLeave | PanelMessage::KillFocus => {
            &&& reply == Reply::Value(0)
            &&& match a.app {
                Some(s) => {
                    &&& b == with_panel(
                        a,
                        PanelState { hot_button: None, pressed_button: None, ..s.panel },
                    )
                    &&& actions =~= focus_moved_actions(
                        s.panel.hot_button is Some || s.panel.pressed_button is Some,
                    )
                },
                None => b == a && actions.len() == 0,
            }
        },
        PanelMessage::Activate { active } => {
            &&& reply == Reply::Default
            &&& if !active && closes_on_blur(a) {
                b == panel_hidden(a, around.now) && actions =~= hide_actions(a)
            } else {
                b == a && actions.len() == 0
            }
        },
        PanelMessage::SetCursor { hit } => {
            &&& b == a
            &&& if hit == 2 {
                actions =~= seq![Action::ShowCursor(CursorShape::Move)] && reply == Reply::Value(1)
            } else {
                actions.len() == 0 && reply == Reply::Default
            }
        },
        PanelMessage::HitTest => {
            &&& b == a
            &&& actions.len() == 0
            &&& reply == if is_pinned(a) && in_drag_zone(
                around.pointer_x as int,
                around.pointer_y as int,
                around.client_right as int,
                around.dpi,
            ) {
                Reply::Value(2)
            } else {
                Reply::Default
            }
        },
        PanelMessage::LeftDown { x, y } => {
            &&& reply == Reply::Value(0)
            &&& match a.app {
                Some(s) => {
                    let pressed = hit(s.panel.buttons@, x as int, y as int);
                    &&& b == with_panel(a, PanelState { pressed_button: pressed, ..s.panel })
                    &&& actions =~= if pressed is Some {
                        seq![Action::CapturePanel, Action::InvalidatePanel { erase: false }]
                    } else {
                        Seq::empty()
                    }
                },
                None => b == a && actions.len() == 0,
            }
        },
        PanelMessage::LeftUp => button_released(a, b, actions) && reply == Reply::Value(0),
        PanelMessage::ExitSizeMove => {
            &&& b == panel_moved(a, around.window_left, around.window_top)
            &&& actions =~= seq![Action::SaveSettings]
            &&& reply == Reply::Value(0)
        },
        PanelMessage::KeyDown(key) => {
            &&& reply == Reply::Value(0)
            &&& if key == KEY_ESCAPE {
                b == panel_hidden(a, around.now) && actions =~= hide_actions(a)
            } else if key == KEY_TAB {
                match a.app {
                    Some(s) => {
                        &&& b == with_panel(a, focus_advanced(s.panel))
                        &&& actions =~= focus_moved_actions(
                            focus_order(s.panel.buttons@).len() > 0,
                        )
                    },
                    None => b == a && actions.len() == 0,
                }
            } else {
                b == a && actions.len() == 0
            }
        },
        PanelMessage::Shimmer => {
            &&& reply == Reply::Value(0)
            &&& b == (Shell {
                app: match a.app {
                    Some(s) => Some(AppState { shimmer_phase: !s.shimmer_phase, ..s }),
                    None => None,
                },
                ..a
            })
            &&& actions =~= shimmer_actions(a)
        },
        PanelMessage::Other => b == a && actions.len() == 0 && reply == Reply::Default,
    }
}

/// Handles a message to the panel.
pub fn on_panel_message(
    shell: &mut Shell,
    message: PanelMessage,
    around: &PanelSurroundings,
) -> (r: Response)
    requires
        around.in_range(),
    ensures
        panel_message_handled(*old(shell), *final(shell), message, *around, r.actions@, r.reply),
{
    let mut actions: Vec<Action> = Vec::new();
    match message {
        PanelMessage::EraseBackground => answered(actions, 1),
        PanelMessage::Paint => {
            actions.push(Action::PaintPanel);
            answered(actions, 0)
        },
        PanelMessage::MouseMove { x, y } => {
            actions = update_panel_hot_button(shell, x, y);
            actions.push(Action::TrackPanelLeave);
            answered(actions, 0)
        },
        PanelMessage::MouseLeave => answered(clear_panel_pointer_state(shell), 0),
        PanelMessage::KillFocus => answered(clear_panel_pointer_state(shell), 0),
        PanelMessage::Activate { active } => {
            if !active {
                let closes = match &shell.app {
                    Some(s) => !s.panel_menu_open && !s.prefs.panel_pinned,
                    None => true,
                };
                if closes {
                    actions = hide_panel(shell, around.now);
                }
            }
            Response { actions, reply: Reply::Default }
        },
        PanelMessage::SetCursor { hit } => {
            if hit == 2 {
                actions.push(Action::ShowCursor(CursorShape::Move));
                answered(actions, 1)
            } else {
                Response { actions, reply: Reply::Default }
            }
        },
        PanelMessage::HitTest => {
            let pinned = match &shell.app {
                Some(s) => s.prefs.panel_pinned,
                None => false,
            };
            if pinned && is_drag_zone(
                around.pointer_x,
                around.pointer_y,
                around.client_right,
                around.dpi,
            ) {
                answered(actions, 2)
            } else {
                Response { actions, reply: Reply::Default }
            }
        },
        PanelMessage::LeftDown { x, y } => answered(press_panel_button_at(shell, x, y), 0),
        PanelMessage::LeftUp => answered(release_panel_button(shell), 0),
        PanelMessage::ExitSizeMove => answered(
            panel_drag_ended(shell, around.window_left, around.window_top),
            0,
        ),
        PanelMessage::KeyDown(key) => {
            if key == KEY_ESCAPE {
                actions = hide_panel(shell, around.now);
            } else if key == KEY_TAB {
                actions = focus_next_panel_button(shell);
            }
            answered(actions, 0)
        },
        PanelMessage::Shimmer => answered(on_shimmer_timer(shell), 0),
        PanelMessage::Other => Response { actions, reply: Reply::Default },
    }
}

/// No message to the panel touches the poll interval, so each keeps the state
/// well formed; and none but a click on the pin, the Escape key or the loss of
/// the focus changes whether the panel is pinned.
pub proof fn lemma_panel_messages_keep_the_interval(
    a: Shell,
    b: Shell,
    message: PanelMessage,
    around: PanelSurroundings,
    actions: Seq<Action>,
    reply: Reply,
)
    requires
        panel_message_handled(a, b, message, around, actions, reply),
    ensures
        a.well_formed() ==> b.well_formed(),
        a.app is Some <==> b.app is Some,
        !(message is LeftUp || message is KeyDown || message is Activate) ==> is_pinned(a)
            == is_pinned(b),
{
}

/// A panel that is not pinned is pinned to no place: closing it and letting its pin
/// go forget the place, and a drag gives a place to a pinned panel only.
pub open spec fn pin_consistent(a: Shell) -> bool {
    a.app matches Some(s) ==> (!s.prefs.panel_pinned ==> s.prefs.panel_pinned_x is None
        && s.prefs.panel_pinned_y is None)
}

/// Every message to the panel keeps an unpinned panel without a place.
pub proof fn lemma_unpinned_panel_has_no_place(
    a: Shell,
    b: Shell,
    message: PanelMessage,
    around: PanelSurroundings,
    actions: Seq<Action>,
    reply: Reply,
)
    requires
        panel_message_handled(a, b, message, around, actions, reply),
        pin_consistent(a),
    ensures
        pin_consistent(b),
{
}

/// A pinned panel comes back to the place that it was dragged to, and a closed
/// panel is not moved.
pub proof fn lemma_pinned_panel_keeps_its_place(
    a: Shell,
    left: i32,
    top: i32,
    widget: Option<Rect>,
    screen_w: int,
    screen_h: int,
    dpi: u32,
    now: u64,
)
    ensures
        panel_open(a) && is_pinned(a) && a.app->0.panel.hwnd is Some ==> panel_target(
            panel_moved(a, left, top),
            widget,
            screen_w,
            screen_h,
            dpi,
        ) == Some((left as int, top as int)),
        panel_target(panel_hidden(a, now), widget, screen_w, screen_h, dpi) is None,
{
}

} // verus!
