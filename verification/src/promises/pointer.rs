//! The pointer and the keyboard on the panel's buttons.

use crate::geometry::scaled;
use crate::messages::PanelMessage;
use crate::panel::focus_next;
use crate::panel::focus_order;
use crate::panel::is_drag_zone;
use crate::panel::panel_button_hit_test;
use crate::panel::panel_button_visual_state;
use crate::panel::panel_buttons_for_layout;
use crate::panel::take_released_button;
use crate::panel::PanelButton;
use crate::panel::PanelButtonId;
use crate::panel::PanelButtonVisualState;
use crate::panel::PanelState;
use crate::panel_window::clear_panel_pointer_state;
use crate::panel_window::focus_next_panel_button;
use crate::panel_window::on_panel_message;
use crate::panel_window::press_panel_button_at;
use crate::panel_window::update_panel_hot_button;
use crate::panel_window::PanelSurroundings;
use crate::promises::updates::same_moments;
use crate::state::Action;
use crate::state::AppState;
use crate::state::Reply;
use crate::state::Response;
use crate::state::Shell;
use vstd::prelude::*;

verus! {

/// A button takes a click at a point: it is enabled, and the point lies in it, its
/// right and lower edges left out.
pub open spec fn takes(button: PanelButton, x: int, y: int) -> bool {
    &&& button.enabled
    &&& button.rect.left <= x < button.rect.right
    &&& button.rect.top <= y < button.rect.bottom
}

/// The button at a point is the first one that takes a click there, and there is
/// none where no button does.
pub open spec fn found_at(
    buttons: Seq<PanelButton>,
    x: int,
    y: int,
    found: Option<PanelButtonId>,
) -> bool {
    &&& found is None ==> forall|i: int|
        0 <= i < buttons.len() ==> !takes(#[trigger] buttons[i], x, y)
    &&& found matches Some(id) ==> exists|i: int|
        0 <= i < buttons.len() && takes(#[trigger] buttons[i], x, y) && buttons[i].id == id
            && forall|j: int| 0 <= j < i ==> !takes(#[trigger] buttons[j], x, y)
}

/// The first button that accepts a point is the one that is found there.
pub proof fn lemma_found(buttons: Seq<PanelButton>, x: int, y: int)
    ensures
        found_at(buttons, x, y, crate::panel::hit(buttons, x, y)),
{
    crate::panel::lemma_hit_is_an_enabled_button(buttons, x, y);
    assert forall|b: PanelButton| #[trigger] takes(b, x, y) == crate::panel::accepts(
        b,
        x,
        y,
    ) by {}
    if let Some(id) = crate::panel::hit(buttons, x, y) {
        let i = choose|i: int|
            0 <= i < buttons.len() && crate::panel::accepts(#[trigger] buttons[i], x, y)
                && buttons[i].id == id && forall|j: int|
                0 <= j < i ==> !crate::panel::accepts(#[trigger] buttons[j], x, y);
        assert(takes(buttons[i], x, y));
    }
}

/// A point belongs to the first enabled button that it lies in.
pub proof fn point_belongs_to_the_first_button(
    buttons: Vec<PanelButton>,
    x: i32,
    y: i32,
    r: Option<PanelButtonId>,
)
    requires
        call_ensures(panel_button_hit_test, (&buttons, x, y), r),
    ensures
        found_at(buttons@, x as int, y as int, r),
{
    lemma_found(buttons@, x as int, y as int);
}

/// Another button is hot: screen readers are told, and the panel is painted again.
pub open spec fn focus_is_told(moved: bool, actions: Seq<Action>) -> bool {
    &&& moved ==> actions =~= seq![
        Action::SetAccessibleTitle,
        Action::InvalidatePanel { erase: false },
    ]
    &&& !moved ==> actions.len() == 0
}

/// Nothing but the panel's hot and pressed buttons changes.
pub open spec fn only_the_pointer_changes(a: Shell, b: Shell) -> bool {
    &&& same_moments(a, b)
    &&& a.app is None ==> b.app is None
    &&& a.app matches Some(s) ==> (b.app matches Some(t) && t == (AppState {
        panel: PanelState {
            hot_button: t.panel.hot_button,
            pressed_button: t.panel.pressed_button,
            ..s.panel
        },
        ..s
    }))
}

/// A move of the pointer makes the button under it the hot one, and none where it is
/// on none; that is told exactly when it is a change.
pub proof fn hot_button_is_under_the_pointer(shell: &mut Shell, x: i32, y: i32, r: Vec<Action>)
    requires
        call_ensures(update_panel_hot_button, (shell, x, y), r),
    ensures
        only_the_pointer_changes(*old(shell), *final(shell)),
        old(shell).app is None ==> r@.len() == 0,
        old(shell).app matches Some(s) ==> {
            let panel = final(shell).app->0.panel;
            &&& found_at(s.panel.buttons@, x as int, y as int, panel.hot_button)
            &&& panel.pressed_button == s.panel.pressed_button
            &&& focus_is_told(panel.hot_button != s.panel.hot_button, r@)
        },
{
    if let Some(s) = old(shell).app {
        lemma_found(s.panel.buttons@, x as int, y as int);
    }
}

/// The mouse goes down over the panel: the button under the pointer is pressed, and
/// only then does the panel keep the mouse.
pub proof fn pressed_button_is_under_the_pointer(
    shell: &mut Shell,
    x: i32,
    y: i32,
    r: Vec<Action>,
)
    requires
        call_ensures(press_panel_button_at, (shell, x, y), r),
    ensures
        only_the_pointer_changes(*old(shell), *final(shell)),
        old(shell).app is None ==> r@.len() == 0,
        old(shell).app matches Some(s) ==> {
            let panel = final(shell).app->0.panel;
            &&& found_at(s.panel.buttons@, x as int, y as int, panel.pressed_button)
            &&& panel.hot_button == s.panel.hot_button
            &&& panel.pressed_button is Some ==> r@ =~= seq![
                Action::CapturePanel,
                Action::InvalidatePanel { erase: false },
            ]
            &&& panel.pressed_button is None ==> r@.len() == 0
        },
{
    if let Some(s) = old(shell).app {
        lemma_found(s.panel.buttons@, x as int, y as int);
    }
}

/// The pointer or the focus leaves the panel: no button is hot or pressed, and that
/// is told exactly when one was.
pub proof fn pointer_leaves_no_button_behind(shell: &mut Shell, r: Vec<Action>)
    requires
        call_ensures(clear_panel_pointer_state, (shell,), r),
    ensures
        only_the_pointer_changes(*old(shell), *final(shell)),
        old(shell).app is None ==> r@.len() == 0,
        old(shell).app matches Some(s) ==> {
            let panel = final(shell).app->0.panel;
            &&& panel.hot_button is None
            &&& panel.pressed_button is None
            &&& focus_is_told(s.panel.hot_button is Some || s.panel.pressed_button is Some, r@)
        },
{
}

/// A click sets a button off when the mouse is let go on the button that it went
/// down on.
pub proof fn click_ends_on_the_button_it_began_on(
    panel: &mut PanelState,
    r: Option<PanelButtonId>,
)
    requires
        call_ensures(take_released_button, (panel,), r),
    ensures
        r is Some <==> old(panel).pressed_button is Some && old(panel).hot_button
            == old(panel).pressed_button,
        r is Some ==> r == old(panel).pressed_button,
        final(panel).pressed_button is None,
        final(panel).hot_button == old(panel).hot_button,
        final(panel).visible == old(panel).visible,
        final(panel).hwnd == old(panel).hwnd,
        final(panel).buttons == old(panel).buttons,
{
}

/// A disabled button looks disabled, whatever the pointer does; an enabled one shows
/// whether it is pressed, and else whether the pointer is on it.
pub proof fn buttons_show_the_pointer(
    panel: PanelState,
    button: PanelButton,
    r: PanelButtonVisualState,
)
    requires
        call_ensures(panel_button_visual_state, (&panel, &button), r),
    ensures
        ({
            let pressed = panel.pressed_button == Some(button.id);
            let hot = panel.hot_button == Some(button.id);
            &&& r is Disabled <==> !button.enabled
            &&& r is Pressed <==> button.enabled && pressed
            &&& r is Hot <==> button.enabled && hot && !pressed
            &&& r is Normal <==> button.enabled && !hot && !pressed
        }),
{
}

/// The three buttons stand in the header at the right: pin, settings and refresh, 32
/// by 28 design pixels each, 4 apart and 5 away from the edge, halfway down the 40
/// of the header. All are enabled, and the pin is selected while the panel is pinned.
pub proof fn buttons_stand_in_the_header(
    settings: &str,
    refresh: &str,
    width: i32,
    pinned: bool,
    dpi: u32,
    r: Vec<PanelButton>,
)
    requires
        call_ensures(panel_buttons_for_layout, (settings, refresh, width, pinned, dpi), r),
    ensures
        r@.len() == 3,
        r@[0].id is Pin && r@[1].id is Settings && r@[2].id is Refresh,
        r@[0].accessible_label@ == "Pin"@,
        r@[1].accessible_label@ == settings@,
        r@[2].accessible_label@ == refresh@,
        r@[0].label@ == "\u{E718}"@,
        r@[1].label@ == "\u{E713}"@,
        r@[2].label@ == "\u{E72C}"@,
        r@[0].selected == pinned && !r@[1].selected && !r@[2].selected,
        r@[2].rect.right + scaled(5, dpi) == width,
        r@[1].rect.right + scaled(4, dpi) == r@[2].rect.left,
        r@[0].rect.right + scaled(4, dpi) == r@[1].rect.left,
        forall|i: int|
            0 <= i < 3 ==> {
                let b = #[trigger] r@[i];
                let above = b.rect.top - scaled(5, dpi);
                let under = scaled(5, dpi) + scaled(40, dpi) - b.rect.bottom;
                &&& b.enabled
                &&& b.rect.right - b.rect.left == scaled(32, dpi)
                &&& b.rect.bottom - b.rect.top == scaled(28, dpi)
                &&& above <= under <= above + 1
            },
{
    assert(crate::panel::rect_parts(r@[0].rect) == crate::panel::button_rect(
        width as int,
        dpi,
        0,
    ));
    assert(crate::panel::rect_parts(r@[1].rect) == crate::panel::button_rect(
        width as int,
        dpi,
        1,
    ));
    assert(crate::panel::rect_parts(r@[2].rect) == crate::panel::button_rect(
        width as int,
        dpi,
        2,
    ));
}

/// The part of the header that drags the panel ends where the buttons begin, at the
/// left of the pin.
pub proof fn drag_zone_ends_at_the_buttons(
    x: i32,
    y: i32,
    width: i32,
    dpi: u32,
    settings: &str,
    refresh: &str,
    pinned: bool,
    buttons: Vec<PanelButton>,
    r: bool,
)
    requires
        call_ensures(is_drag_zone, (x, y, width, dpi), r),
        call_ensures(panel_buttons_for_layout, (settings, refresh, width, pinned, dpi), buttons),
    ensures
        r <==> 0 <= x < buttons@[0].rect.left && 0 <= y < scaled(5, dpi) + scaled(40, dpi),
{
    assert(crate::panel::rect_parts(buttons@[0].rect) == crate::panel::button_rect(
        width as int,
        dpi,
        0,
    ));
}

proof fn lemma_order_grows(buttons: Seq<PanelButton>, i: int, j: int)
    requires
        0 <= i <= j <= buttons.len(),
    ensures
        focus_order(buttons.take(i)).len() <= focus_order(buttons.take(j)).len(),
        forall|k: int|
            0 <= k < focus_order(buttons.take(i)).len() ==> #[trigger] focus_order(
                buttons.take(j),
            )[k] == focus_order(buttons.take(i))[k],
        (forall|k: int| i <= k < j ==> !(#[trigger] buttons[k]).enabled) ==> focus_order(
            buttons.take(i),
        ) == focus_order(buttons.take(j)),
    decreases j - i,
{
    if i < j {
        lemma_order_grows(buttons, i, j - 1);
        assert(buttons.take(j).drop_last() =~= buttons.take(j - 1));
        assert(buttons.take(j).last() == buttons[j - 1]);
    }
}

proof fn lemma_order_holds_enabled_buttons(buttons: Seq<PanelButton>, i: int, at: int)
    requires
        0 <= i <= buttons.len(),
        0 <= at < focus_order(buttons.take(i)).len(),
    ensures
        exists|k: int|
            0 <= k < i && (#[trigger] buttons[k]).enabled && buttons[k].id == focus_order(
                buttons.take(i),
            )[at],
    decreases i,
{
    if i > 0 {
        assert(buttons.take(i).drop_last() =~= buttons.take(i - 1));
        assert(buttons.take(i).last() == buttons[i - 1]);
        if at < focus_order(buttons.take(i - 1)).len() {
            lemma_order_holds_enabled_buttons(buttons, i - 1, at);
        } else {
            assert(buttons[i - 1].enabled);
        }
    } else {
        assert(buttons.take(0).len() == 0);
    }
}

/// The enabled button at a place, with none that is enabled from `from` up to it.
pub open spec fn next_enabled(buttons: Seq<PanelButton>, from: int, at: int) -> bool {
    &&& from <= at < buttons.len()
    &&& buttons[at].enabled
    &&& forall|k: int| from <= k < at ==> !(#[trigger] buttons[k]).enabled
}

/// The hot button is the one at a place, and no enabled one before it is of its kind.
pub open spec fn hot_is_at(buttons: Seq<PanelButton>, hot: Option<PanelButtonId>, at: int) -> bool {
    &&& 0 <= at < buttons.len()
    &&& buttons[at].enabled
    &&& hot == Some(buttons[at].id)
    &&& forall|k: int| 0 <= k < at && (#[trigger] buttons[k]).enabled ==> buttons[k].id
        != buttons[at].id
}

proof fn lemma_focus_moves_on(panel: PanelState, first: int, at: int, next: int)
    ensures
        ({
            let b = panel.buttons@;
            let order = focus_order(b);
            let to = crate::panel::next_focus(order, panel.hot_button);
            &&& (forall|k: int| 0 <= k < b.len() ==> !(#[trigger] b[k]).enabled) ==> order.len()
                == 0
            &&& next_enabled(b, 0, first) ==> order.len() > 0
            &&& next_enabled(b, 0, first) && hot_is_at(b, panel.hot_button, at) && next_enabled(
                b,
                at + 1,
                next,
            ) ==> to == b[next].id
            &&& next_enabled(b, 0, first) && hot_is_at(b, panel.hot_button, at) && (forall|k: int|
                at < k < b.len() ==> !(#[trigger] b[k]).enabled) ==> to == b[first].id
            &&& next_enabled(b, 0, first) && panel.hot_button is None ==> to == b[first].id
            &&& next_enabled(b, 0, first) && panel.hot_button is Some && (forall|k: int|
                0 <= k < b.len() && (#[trigger] b[k]).enabled ==> b[k].id
                    != panel.hot_button->0) ==> to == b[first].id
        }),
{
    let b = panel.buttons@;
    let n = b.len() as int;
    let order = focus_order(b);
    assert(b.take(n) =~= b);
    assert(b.take(0).len() == 0);
    if forall|k: int| 0 <= k < b.len() ==> !(#[trigger] b[k]).enabled {
        lemma_order_grows(b, 0, n);
    }
    if next_enabled(b, 0, first) {
        lemma_order_grows(b, 0, first);
        assert(b.take(first + 1).drop_last() =~= b.take(first));
        assert(b.take(first + 1).last() == b[first]);
        lemma_order_grows(b, first + 1, n);
        assert(focus_order(b.take(first)).len() == 0);
        assert(focus_order(b.take(first + 1))[0] == b[first].id);
        assert(order[0] == b[first].id);
        if hot_is_at(b, panel.hot_button, at) {
            let id = b[at].id;
            let k = focus_order(b.take(at)).len() as int;
            assert(b.take(at + 1).drop_last() =~= b.take(at));
            assert(b.take(at + 1).last() == b[at]);
            lemma_order_grows(b, at, n);
            lemma_order_grows(b, at + 1, n);
            assert(focus_order(b.take(at + 1))[k] == id);
            assert(order[k] == id);
            assert(order.contains(id));
            order.index_of_first_ensures(id);
            let found = order.index_of_first(id)->0;
            if found < k {
                lemma_order_holds_enabled_buttons(b, at, found);
            }
            assert(found == k);
            if next_enabled(b, at + 1, next) {
                lemma_order_grows(b, at + 1, next);
                assert(b.take(next + 1).drop_last() =~= b.take(next));
                assert(b.take(next + 1).last() == b[next]);
                lemma_order_grows(b, next + 1, n);
                assert(focus_order(b.take(next + 1))[k + 1] == b[next].id);
                assert(order[k + 1] == b[next].id);
                vstd::arithmetic::div_mod::lemma_small_mod((k + 1) as nat, order.len());
            }
            if forall|j: int| at < j < b.len() ==> !(#[trigger] b[j]).enabled {
                lemma_order_grows(b, at + 1, n);
                assert(order.len() == k + 1);
                vstd::arithmetic::div_mod::lemma_mod_self_0(order.len() as int);
            }
        } else if let Some(id) = panel.hot_button {
            if order.contains(id) {
                let found = choose|i: int| 0 <= i < order.len() && order[i] == id;
                lemma_order_holds_enabled_buttons(b, n, found);
            }
        }
    }
}

/// The Tab key moves the focus on: from the hot button to the next enabled one behind
/// it, from the last one round to the first, and to the first where no enabled button
/// is hot. Without an enabled button nothing moves.
pub open spec fn focus_goes_on(a: PanelState, b: PanelState, first: int, at: int, next: int) -> bool {
    let buttons = a.buttons@;
    &&& b == (PanelState { hot_button: b.hot_button, ..a })
    &&& (forall|k: int| 0 <= k < buttons.len() ==> !(#[trigger] buttons[k]).enabled)
        ==> b.hot_button == a.hot_button
    &&& next_enabled(buttons, 0, first) ==> {
        &&& a.hot_button is None ==> b.hot_button == Some(buttons[first].id)
        &&& a.hot_button is Some && (forall|k: int|
            0 <= k < buttons.len() && (#[trigger] buttons[k]).enabled ==> buttons[k].id
                != a.hot_button->0) ==> b.hot_button == Some(buttons[first].id)
        &&& hot_is_at(buttons, a.hot_button, at) && next_enabled(buttons, at + 1, next)
            ==> b.hot_button == Some(buttons[next].id)
        &&& hot_is_at(buttons, a.hot_button, at) && (forall|k: int|
            at < k < buttons.len() ==> !(#[trigger] buttons[k]).enabled) ==> b.hot_button == Some(
            buttons[first].id,
        )
    }
}

/// The focus goes round the enabled buttons.
pub proof fn focus_goes_round(
    panel: &mut PanelState,
    changed: bool,
    first: int,
    at: int,
    next: int,
)
    requires
        call_ensures(focus_next, (panel,), changed),
    ensures
        focus_goes_on(*old(panel), *final(panel), first, at, next),
        (forall|k: int|
            0 <= k < old(panel).buttons@.len() ==> !(#[trigger] old(panel).buttons@[k]).enabled)
            ==> !changed,
        next_enabled(old(panel).buttons@, 0, first) ==> changed,
{
    lemma_focus_moves_on(*old(panel), first, at, next);
}

/// The Tab key moves the focus on, and screen readers are told; the pointer's
/// messages do to the buttons what the pointer does.
pub proof fn panel_follows_pointer_and_keyboard(
    shell: &mut Shell,
    message: PanelMessage,
    around: PanelSurroundings,
    r: Response,
    first: int,
    at: int,
    next: int,
)
    requires
        call_ensures(on_panel_message, (shell, message, &around), r),
        message == PanelMessage::KeyDown(0x09) || message is MouseMove || message is MouseLeave
            || message is KillFocus || message is LeftDown,
    ensures
        r.reply == Reply::Value(0),
        only_the_pointer_changes(*old(shell), *final(shell)),
        old(shell).app is None && message is MouseMove ==> r.actions@ =~= seq![
            Action::TrackPanelLeave,
        ],
        old(shell).app is None && !(message is MouseMove) ==> r.actions@.len() == 0,
        old(shell).app matches Some(s) ==> {
            let panel = final(shell).app->0.panel;
            &&& message matches PanelMessage::MouseMove { x, y } ==> {
                &&& found_at(s.panel.buttons@, x as int, y as int, panel.hot_button)
                &&& panel.pressed_button == s.panel.pressed_button
                &&& r.actions@.last() == Action::TrackPanelLeave
                &&& focus_is_told(panel.hot_button != s.panel.hot_button, r.actions@.drop_last())
            }
            &&& message is MouseLeave || message is KillFocus ==> {
                &&& panel.hot_button is None
                &&& panel.pressed_button is None
                &&& focus_is_told(
                    s.panel.hot_button is Some || s.panel.pressed_button is Some,
                    r.actions@,
                )
            }
            &&& message matches PanelMessage::LeftDown { x, y } ==> {
                &&& found_at(s.panel.buttons@, x as int, y as int, panel.pressed_button)
                &&& panel.hot_button == s.panel.hot_button
                &&& panel.pressed_button is Some ==> r.actions@ =~= seq![
                    Action::CapturePanel,
                    Action::InvalidatePanel { erase: false },
                ]
                &&& panel.pressed_button is None ==> r.actions@.len() == 0
            }
            &&& message is KeyDown ==> {
                &&& focus_goes_on(s.panel, panel, first, at, next)
                &&& next_enabled(s.panel.buttons@, 0, first) ==> focus_is_told(true, r.actions@)
            }
        },
{
    if let Some(s) = old(shell).app {
        lemma_focus_moves_on(s.panel, first, at, next);
        match message {
            PanelMessage::MouseMove { x, y } => {
                lemma_found(s.panel.buttons@, x as int, y as int);
                assert(r.actions@.drop_last() =~= crate::panel_window::focus_moved_actions(
                    final(shell).app->0.panel.hot_button != s.panel.hot_button,
                ));
            },
            PanelMessage::LeftDown { x, y } => {
                lemma_found(s.panel.buttons@, x as int, y as int);
            },
            _ => {},
        }
    }
}

/// The Tab key does the same from the window's own call.
pub proof fn keyboard_moves_the_focus(
    shell: &mut Shell,
    r: Vec<Action>,
    first: int,
    at: int,
    next: int,
)
    requires
        call_ensures(focus_next_panel_button, (shell,), r),
    ensures
        only_the_pointer_changes(*old(shell), *final(shell)),
        old(shell).app is None ==> r@.len() == 0,
        old(shell).app matches Some(s) ==> {
            &&& focus_goes_on(s.panel, final(shell).app->0.panel, first, at, next)
            &&& next_enabled(s.panel.buttons@, 0, first) ==> focus_is_told(true, r@)
            &&& (forall|k: int|
                0 <= k < s.panel.buttons@.len() ==> !(#[trigger] s.panel.buttons@[k]).enabled)
                ==> focus_is_told(false, r@)
        },
{
    if let Some(s) = old(shell).app {
        lemma_focus_moves_on(s.panel, first, at, next);
    }
}

} // verus!
