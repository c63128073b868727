//! The panel: how it opens and closes, what its buttons do, and what the messages
//! to its window lead to.

use crate::geometry::scaled;
use crate::messages::PanelMessage;
use crate::panel::PanelButtonId;
use crate::panel::PanelState;
use crate::panel_window::execute_panel_button;
use crate::panel_window::hide_hover_popup;
use crate::panel_window::hide_panel;
use crate::panel_window::menu_dismissed;
use crate::panel_window::on_panel_message;
use crate::panel_window::on_shimmer_timer;
use crate::panel_window::panel_drag_ended;
use crate::panel_window::panel_reopen_suppressed;
use crate::panel_window::refresh_from_panel;
use crate::panel_window::refresh_panel_view;
use crate::panel_window::release_panel_button;
use crate::panel_window::request_refresh;
use crate::panel_window::show_panel;
use crate::panel_window::toggle_panel;
use crate::panel_window::PanelSurroundings;
use crate::promises::updates::same_moments;
use crate::state::Action;
use crate::state::AppState;
use crate::state::CursorShape;
use crate::state::Figures;
use crate::state::Polling;
use crate::state::Preferences;
use crate::state::Reply;
use crate::state::Response;
use crate::state::Shell;
use vstd::prelude::*;

verus! {

/// The panel closes: its window goes, no button is hot or pressed, and it is
/// pinned nowhere, which is saved if it was pinned. For a fifth of a second it
/// does not open again.
pub open spec fn closes(a: Shell, b: Shell, now: u64, actions: Seq<Action>) -> bool {
    &&& b.panel_reopen_until == Some((now + 200_000_000) as u64)
    &&& b.tray_reposition_until == a.tray_reposition_until
    &&& b.last_reposition == a.last_reposition
    &&& match a.app {
        None => b.app is None && actions.len() == 0,
        Some(s) => {
            let pinned = s.prefs.panel_pinned;
            let window = s.panel.hwnd is Some;
            &&& b.app matches Some(t)
            &&& t == (AppState { panel: t.panel, prefs: t.prefs, ..s })
            &&& !t.panel.visible
            &&& t.panel.hot_button is None
            &&& t.panel.pressed_button is None
            &&& t.panel.hwnd == s.panel.hwnd
            &&& t.panel.buttons == s.panel.buttons
            &&& t.prefs == (Preferences {
                panel_pinned: false,
                panel_pinned_x: None,
                panel_pinned_y: None,
                ..s.prefs
            })
            &&& pinned && window ==> actions =~= seq![
                Action::SaveSettings,
                Action::HidePanelWindow,
            ]
            &&& pinned && !window ==> actions =~= seq![Action::SaveSettings]
            &&& !pinned && window ==> actions =~= seq![Action::HidePanelWindow]
            &&& !pinned && !window ==> actions.len() == 0
        },
    }
}

/// The panel opens, if it has a window: the hover popup goes, the panel takes its
/// place and its background and gets the focus, with no button hot or pressed.
/// Without data its placeholders shimmer every 600 milliseconds.
pub open spec fn opens(a: Shell, b: Shell, actions: Seq<Action>) -> bool {
    &&& same_moments(a, b)
    &&& match a.app {
        None => b.app is None && actions.len() == 0,
        Some(s) => {
            let n: int = if s.windows.popup_hwnd is Some {
                1
            } else {
                0
            };
            &&& s.windows.popup_hwnd matches Some(popup) ==> actions[0] == Action::HidePopup(popup)
            &&& s.panel.hwnd is None ==> b.app == Some(s) && actions.len() == n
            &&& s.panel.hwnd is Some ==> {
                &&& b.app == Some(
                    AppState {
                        panel: PanelState {
                            visible: true,
                            hot_button: None,
                            pressed_button: None,
                            ..s.panel
                        },
                        ..s
                    },
                )
                &&& actions[n] == Action::PositionPanel
                &&& actions[n + 1] == Action::ApplyPanelBackground(s.prefs.panel_background)
                &&& actions[n + 2] == Action::ShowPanelWindow
                &&& actions[n + 3] == Action::FocusPanel
                &&& s.figures.data is Some ==> actions.len() == n + 4
                &&& s.figures.data is None ==> actions.len() == n + 5 && actions[n + 4]
                    == Action::SetShimmerTimer { ms: 600 }
            }
        },
    }
}

/// A click on the widget: an open panel closes, and a closed one opens, unless it
/// was closed less than a fifth of a second before.
pub open spec fn toggles(a: Shell, b: Shell, now: u64, actions: Seq<Action>) -> bool {
    let open = a.app is Some && a.app->0.panel.visible;
    let held = a.panel_reopen_until is Some && now < a.panel_reopen_until->0;
    &&& open ==> closes(a, b, now, actions)
    &&& !open && held ==> b == a && actions.len() == 0
    &&& !open && !held ==> opens(a, b, actions)
}

/// A panel that is closed is gone, and is pinned nowhere.
pub proof fn panel_closes(shell: &mut Shell, now: u64, r: Vec<Action>)
    requires
        call_ensures(hide_panel, (shell, now), r),
    ensures
        closes(*old(shell), *final(shell), now, r@),
{
}

/// A panel that is opened is there, next to the widget and with the focus.
pub proof fn panel_opens(shell: &mut Shell, r: Vec<Action>)
    requires
        call_ensures(show_panel, (shell,), r),
    ensures
        opens(*old(shell), *final(shell), r@),
{
}

/// A click opens a closed panel and closes an open one; whether it is held back is
/// told by the moment alone.
pub proof fn click_toggles_the_panel(shell: &mut Shell, now: u64, r: Vec<Action>, held: bool)
    requires
        call_ensures(toggle_panel, (shell, now), r),
        call_ensures(panel_reopen_suppressed, (&*old(shell), now), held),
    ensures
        toggles(*old(shell), *final(shell), now, r@),
        held <==> old(shell).panel_reopen_until is Some && now < old(shell).panel_reopen_until->0,
{
}

/// Two clicks on an open panel close it, and open it again exactly when they are a
/// fifth of a second apart.
pub proof fn second_click_opens_the_panel_again(
    shell: &mut Shell,
    again: &mut Shell,
    first: u64,
    second: u64,
    r: Vec<Action>,
    q: Vec<Action>,
)
    requires
        call_ensures(toggle_panel, (shell, first), r),
        call_ensures(toggle_panel, (again, second), q),
        *old(again) == *final(shell),
        first <= u64::MAX - 1_000_000_000,
        old(shell).app is Some,
        old(shell).app->0.panel.visible,
        old(shell).app->0.panel.hwnd is Some,
    ensures
        !final(shell).app->0.panel.visible,
        final(again).app->0.panel.visible <==> second >= first + 200_000_000,
{
}

/// New figures are painted where the panel is open, and the shimmer ends; a closed
/// panel is left alone. The hover popup is hidden by its own number.
pub proof fn open_panel_is_brought_up_to_date(shell: Shell, r: Vec<Action>, popup: Vec<Action>)
    requires
        call_ensures(refresh_panel_view, (&shell,), r),
        call_ensures(hide_hover_popup, (&shell,), popup),
    ensures
        ({
            let open = shell.app is Some && shell.app->0.panel.visible;
            let window = shell.app is Some && shell.app->0.panel.hwnd is Some;
            &&& !open ==> r@.len() == 0
            &&& open && !window ==> r@ =~= seq![Action::PositionPanel]
            &&& open && window ==> r@ =~= seq![
                Action::PositionPanel,
                Action::KillShimmerTimer,
                Action::InvalidatePanel { erase: true },
            ]
        }),
        shell.app is Some && shell.app->0.windows.popup_hwnd is Some ==> popup@ =~= seq![
            Action::HidePopup(shell.app->0.windows.popup_hwnd->0),
        ],
        shell.app is None || shell.app->0.windows.popup_hwnd is None ==> popup@.len() == 0,
{
}

/// A refresh puts dots in the place of the figures, and has a failure told even if
/// one was told before.
pub open spec fn awaits_figures(a: Shell, b: Shell) -> bool {
    &&& same_moments(a, b)
    &&& a.app is None ==> b.app is None
    &&& a.app matches Some(s) ==> (b.app matches Some(t) && {
        &&& t == (AppState { figures: t.figures, polling: t.polling, ..s })
        &&& t.polling == (Polling { force_notify_auth_error: true, ..s.polling })
        &&& t.figures == (Figures {
            session_text: t.figures.session_text,
            weekly_text: t.figures.weekly_text,
            ..s.figures
        })
        &&& t.figures.session_text@ == "..."@
        &&& t.figures.weekly_text@ == "..."@
    })
}

/// A refresh that is asked for from the panel polls at once.
pub proof fn refresh_from_the_panel_polls(
    shell: &mut Shell,
    other: &mut Shell,
    r: Vec<Action>,
    u: (),
)
    requires
        call_ensures(refresh_from_panel, (shell,), r),
        call_ensures(request_refresh, (other,), u),
    ensures
        awaits_figures(*old(shell), *final(shell)),
        awaits_figures(*old(other), *final(other)),
        r@ =~= seq![Action::RenderLayered, Action::RefreshPanelView, Action::SpawnPoll],
{
}

/// What a button of the panel is for: a refresh, which polls at once; the pin, which
/// pins the panel or lets it go and forgets its place, and is saved; the menu.
pub open spec fn acts(a: Shell, b: Shell, button: PanelButtonId, actions: Seq<Action>) -> bool {
    &&& a.app is None ==> b == a && actions.len() == 0
    &&& a.app matches Some(s) ==> {
        &&& button is Refresh ==> awaits_figures(a, b) && actions =~= seq![
            Action::RenderLayered,
            Action::RefreshPanelView,
            Action::SpawnPoll,
            Action::InvalidatePanel { erase: true },
        ]
        &&& button is Settings ==> same_moments(a, b) && b.app == Some(
            AppState { panel_menu_open: true, ..s },
        ) && actions =~= seq![Action::ShowContextMenu, Action::MenuDismissed]
        &&& button is Pin ==> {
            &&& same_moments(a, b)
            &&& b.app == Some(
                AppState {
                    prefs: if s.prefs.panel_pinned {
                        Preferences {
                            panel_pinned: false,
                            panel_pinned_x: None,
                            panel_pinned_y: None,
                            ..s.prefs
                        }
                    } else {
                        Preferences { panel_pinned: true, ..s.prefs }
                    },
                    ..s
                },
            )
            &&& actions =~= seq![Action::SaveSettings, Action::InvalidatePanel { erase: true }]
        }
    }
}

/// Each button of the panel does what it is for.
pub proof fn buttons_do_what_they_are_for(
    shell: &mut Shell,
    button: PanelButtonId,
    r: Vec<Action>,
)
    requires
        call_ensures(execute_panel_button, (shell, button), r),
    ensures
        acts(*old(shell), *final(shell), button, r@),
{
}

/// The mouse is let go over the panel: no button is pressed any more, and the one
/// that was acts exactly when the pointer is still on it.
pub open spec fn lets_go(a: Shell, b: Shell, actions: Seq<Action>) -> bool {
    &&& a.app is None ==> b == a && actions.len() == 0
    &&& a.app matches Some(s) ==> {
        let free = Shell {
            app: Some(
                AppState { panel: PanelState { pressed_button: None, ..s.panel }, ..s },
            ),
            ..a
        };
        let same = s.panel.pressed_button == s.panel.hot_button;
        &&& actions.len() >= 2
        &&& actions[0] == Action::ReleaseMouse
        &&& actions[1] == (Action::InvalidatePanel { erase: false })
        &&& s.panel.pressed_button is Some && same ==> acts(
            free,
            b,
            s.panel.pressed_button->0,
            actions.skip(2),
        )
        &&& s.panel.pressed_button is None || !same ==> b == free && actions.len() == 2
    }
}

/// A button acts when the mouse is let go on it.
pub proof fn released_button_acts(shell: &mut Shell, r: Vec<Action>)
    requires
        call_ensures(release_panel_button, (shell,), r),
    ensures
        lets_go(*old(shell), *final(shell), r@),
{
    if old(shell).app is Some {
        assert(r@[0] == r@.take(2)[0]);
        assert(r@[1] == r@.take(2)[1]);
    }
}

/// The menu that was opened from the panel is gone, and the panel has the focus
/// again; a panel that was dragged is pinned where it came to rest, if it is pinned
/// at all.
pub proof fn panel_goes_on_after_menu_and_drag(
    shell: &mut Shell,
    other: &mut Shell,
    left: i32,
    top: i32,
    r: Vec<Action>,
    q: Vec<Action>,
)
    requires
        call_ensures(menu_dismissed, (shell,), r),
        call_ensures(panel_drag_ended, (other, left, top), q),
    ensures
        same_moments(*old(shell), *final(shell)),
        old(shell).app is None ==> final(shell).app is None && r@.len() == 0,
        old(shell).app matches Some(s) ==> {
            &&& final(shell).app == Some(AppState { panel_menu_open: false, ..s })
            &&& s.panel.hwnd is Some ==> r@ =~= seq![Action::FocusPanel]
            &&& s.panel.hwnd is None ==> r@.len() == 0
        },
        rests(*old(other), *final(other), left, top),
        q@ =~= seq![Action::SaveSettings],
{
}

/// A panel has come to rest at a place: it is pinned there, if it is pinned at all.
pub open spec fn rests(a: Shell, b: Shell, left: i32, top: i32) -> bool {
    &&& a.app is None || !a.app->0.prefs.panel_pinned ==> b == a
    &&& a.app is Some && a.app->0.prefs.panel_pinned ==> same_moments(a, b) && b.app == Some(
        AppState {
            prefs: Preferences {
                panel_pinned_x: Some(left),
                panel_pinned_y: Some(top),
                ..a.app->0.prefs
            },
            ..a.app->0
        },
    )
}

/// The placeholders change their brightness, and go on doing so exactly as long as
/// there is no data.
pub open spec fn shimmers(a: Shell, b: Shell, actions: Seq<Action>) -> bool {
    let waiting = a.app is Some && a.app->0.figures.data is None;
    &&& same_moments(a, b)
    &&& a.app is None ==> b.app is None
    &&& a.app matches Some(s) ==> b.app == Some(AppState { shimmer_phase: !s.shimmer_phase, ..s })
    &&& waiting ==> actions =~= seq![Action::InvalidatePanel { erase: true }]
    &&& !waiting ==> actions =~= seq![
        Action::KillShimmerTimer,
        Action::InvalidatePanel { erase: true },
    ]
}

/// The shimmer goes on until there is data.
pub proof fn placeholders_shimmer_until_there_is_data(shell: &mut Shell, r: Vec<Action>)
    requires
        call_ensures(on_shimmer_timer, (shell,), r),
    ensures
        shimmers(*old(shell), *final(shell), r@),
{
}

/// The messages to the panel that close it: the Escape key, and the loss of the
/// focus, unless the panel is pinned or has its menu open. No other key and no
/// gain of the focus closes it.
pub proof fn panel_closes_on_escape_and_blur(
    shell: &mut Shell,
    message: PanelMessage,
    around: PanelSurroundings,
    r: Response,
)
    requires
        call_ensures(on_panel_message, (shell, message, &around), r),
    ensures
        message matches PanelMessage::KeyDown(key) ==> {
            &&& r.reply == Reply::Value(0)
            &&& key == 0x1B ==> closes(*old(shell), *final(shell), around.now, r.actions@)
            &&& key != 0x1B && key != 0x09 ==> *final(shell) == *old(shell) && r.actions@.len()
                == 0
        },
        message matches PanelMessage::Activate { active } ==> {
            let keeps = old(shell).app is Some && (old(shell).app->0.prefs.panel_pinned
                || old(shell).app->0.panel_menu_open);
            &&& r.reply is Default
            &&& active || keeps ==> *final(shell) == *old(shell) && r.actions@.len() == 0
            &&& !active && !keeps ==> closes(*old(shell), *final(shell), around.now, r.actions@)
        },
{
}

/// A pinned panel is dragged by its header, and by nothing else: the header goes
/// down to 45 design pixels, and ends before the buttons.
pub proof fn pinned_panel_is_dragged_by_its_header(
    shell: &mut Shell,
    message: PanelMessage,
    around: PanelSurroundings,
    r: Response,
)
    requires
        call_ensures(on_panel_message, (shell, message, &around), r),
    ensures
        message is HitTest ==> {
            let pinned = old(shell).app is Some && old(shell).app->0.prefs.panel_pinned;
            let right = around.client_right - 3 * scaled(32, around.dpi) - 2 * scaled(
                4,
                around.dpi,
            ) - scaled(5, around.dpi);
            let header = scaled(5, around.dpi) + scaled(40, around.dpi);
            let inside = 0 <= around.pointer_x < right && 0 <= around.pointer_y < header;
            &&& *final(shell) == *old(shell)
            &&& r.actions@.len() == 0
            &&& pinned && inside ==> r.reply == Reply::Value(2)
            &&& !pinned || !inside ==> r.reply is Default
        },
        message matches PanelMessage::SetCursor { hit } ==> {
            &&& *final(shell) == *old(shell)
            &&& hit == 2 ==> r.reply == Reply::Value(1) && r.actions@ =~= seq![
                Action::ShowCursor(CursorShape::Move),
            ]
            &&& hit != 2 ==> r.reply is Default && r.actions@.len() == 0
        },
        message is ExitSizeMove ==> {
            &&& rests(*old(shell), *final(shell), around.window_left, around.window_top)
            &&& r.actions@ =~= seq![Action::SaveSettings]
            &&& r.reply == Reply::Value(0)
        },
{
}

/// The rest of the messages to the panel: it paints itself without a background of
/// the system's, a button acts when the mouse is let go on it, and what concerns the
/// panel in nothing is left to the system.
pub proof fn panel_paints_and_acts(
    shell: &mut Shell,
    message: PanelMessage,
    around: PanelSurroundings,
    r: Response,
)
    requires
        call_ensures(on_panel_message, (shell, message, &around), r),
    ensures
        message is Paint ==> *final(shell) == *old(shell) && r.actions@ =~= seq![
            Action::PaintPanel,
        ] && r.reply == Reply::Value(0),
        message is EraseBackground ==> *final(shell) == *old(shell) && r.actions@.len() == 0
            && r.reply == Reply::Value(1),
        message is LeftUp ==> lets_go(*old(shell), *final(shell), r.actions@) && r.reply
            == Reply::Value(0),
        message is Shimmer ==> shimmers(*old(shell), *final(shell), r.actions@) && r.reply
            == Reply::Value(0),
        message is Other ==> *final(shell) == *old(shell) && r.actions@.len() == 0
            && r.reply is Default,
{
    if message is LeftUp && old(shell).app is Some {
        assert(r.actions@[0] == r.actions@.take(2)[0]);
        assert(r.actions@[1] == r.actions@.take(2)[1]);
    }
}

} // verus!
