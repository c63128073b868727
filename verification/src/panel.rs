//! The panel's buttons: which one the pointer is on, which one acts.

use crate::geometry::point_in_rect;
use crate::geometry::sc;
use crate::geometry::scaled;
use crate::geometry::valid_coord;
use crate::geometry::valid_dpi;
use crate::geometry::Rect;
use crate::geometry::PANEL_BUTTON_H;
use crate::geometry::PANEL_BUTTON_W;
use crate::geometry::PANEL_HEADER_H;
use crate::geometry::PANEL_PAD;
use crate::text::join3;
use vstd::prelude::*;

verus! {

#[derive(Clone, Copy, Debug, PartialEq, Eq, Structural)]
pub enum PanelButtonId {
    Refresh,
    Settings,
    Pin,
}

#[derive(Clone, Copy, Debug, PartialEq, Eq, Structural)]
pub enum PanelButtonVisualState {
    Normal,
    Hot,
    Pressed,
    Disabled,
}

#[derive(Debug)]
pub struct PanelButton {
    pub id: PanelButtonId,
    pub rect: Rect,
    pub label: String,
    pub accessible_label: String,
    pub enabled: bool,
    pub selected: bool,
}

#[derive(Debug)]
pub struct PanelState {
    pub hwnd: Option<isize>,
    pub visible: bool,
    pub hot_button: Option<PanelButtonId>,
    pub pressed_button: Option<PanelButtonId>,
    pub buttons: Vec<PanelButton>,
}

impl Default for PanelState {
    fn default() -> (r: PanelState)
        ensures
            r.hwnd is None,
            !r.visible,
            r.hot_button is None,
            r.pressed_button is None,
            r.buttons@.len() == 0,
    {
        PanelState {
            hwnd: None,
            visible: false,
            hot_button: None,
            pressed_button: None,
            buttons: Vec::new(),
        }
    }
}

/// Whether two optional buttons are the same.
pub fn same_button(a: Option<PanelButtonId>, b: Option<PanelButtonId>) -> (r: bool)
    ensures
        r == (a == b),
{
    match (a, b) {
        (Some(x), Some(y)) => x == y,
        (None, None) => true,
        _ => false,
    }
}

/// Whether a click at a point goes to a button.
pub open spec fn accepts(button: PanelButton, x: int, y: int) -> bool {
    button.enabled && button.rect.contains(x, y)
}

/// The first button that accepts a point.
pub open spec fn hit(buttons: Seq<PanelButton>, x: int, y: int) -> Option<PanelButtonId>
    decreases buttons.len(),
{
    if buttons.len() == 0 {
        None
    } else if accepts(buttons[0], x, y) {
        Some(buttons[0].id)
    } else {
        hit(buttons.skip(1), x, y)
    }
}

/// The first enabled button under a point.
pub fn panel_button_hit_test(buttons: &Vec<PanelButton>, x: i32, y: i32) -> (r: Option<
    PanelButtonId,
>)
    ensures
        r == hit(buttons@, x as int, y as int),
{
    let mut i: usize = 0;
    assert(buttons@.skip(0) =~= buttons@);
    while i < buttons.len()
        invariant
            i <= buttons.len(),
            hit(buttons@.skip(i as int), x as int, y as int) == hit(buttons@, x as int, y as int),
        decreases buttons.len() - i,
    {
        let button = &buttons[i];
        if button.enabled && point_in_rect(x, y, &button.rect) {
            return Some(button.id);
        }
        assert(buttons@.skip(i as int).skip(1) =~= buttons@.skip(i + 1));
        i += 1;
    }
    None
}

/// A hit names an enabled button under the point, and no hit means there is none.
pub proof fn lemma_hit_is_an_enabled_button(buttons: Seq<PanelButton>, x: int, y: int)
    ensures
        match hit(buttons, x, y) {
            Some(id) => exists|i: int|
                0 <= i < buttons.len() && accepts(#[trigger] buttons[i], x, y) && buttons[i].id
                    == id && forall|j: int| 0 <= j < i ==> !accepts(#[trigger] buttons[j], x, y),
            None => forall|i: int|
                0 <= i < buttons.len() ==> !accepts(#[trigger] buttons[i], x, y),
        },
    decreases buttons.len(),
{
    if buttons.len() > 0 && !accepts(buttons[0], x, y) {
        let rest = buttons.skip(1);
        lemma_hit_is_an_enabled_button(rest, x, y);
        match hit(rest, x, y) {
            Some(id) => {
                let i = choose|i: int|
                    0 <= i < rest.len() && accepts(#[trigger] rest[i], x, y) && rest[i].id == id
                        && forall|j: int| 0 <= j < i ==> !accepts(#[trigger] rest[j], x, y);
                assert(accepts(buttons[i + 1], x, y));
                assert forall|j: int| 0 <= j < i + 1 implies !accepts(
                    #[trigger] buttons[j],
                    x,
                    y,
                ) by {
                    if j > 0 {
                        assert(buttons[j] == rest[j - 1]);
                    }
                }
            },
            None => {
                assert forall|i: int| 0 <= i < buttons.len() implies !accepts(
                    #[trigger] buttons[i],
                    x,
                    y,
                ) by {
                    if i > 0 {
                        assert(buttons[i] == rest[i - 1]);
                    }
                }
            },
        }
    } else if buttons.len() > 0 {
        assert(accepts(buttons[0], x, y));
    }
}

/// The button under the pointer becomes the hot one; says whether that is a change.
pub fn set_hot_button_at(panel: &mut PanelState, x: i32, y: i32) -> (changed: bool)
    ensures
        *final(panel) == (PanelState {
            hot_button: hit(old(panel).buttons@, x as int, y as int),
            ..*old(panel)
        }),
        changed == (final(panel).hot_button != old(panel).hot_button),
{
    let hot = panel_button_hit_test(&panel.buttons, x, y);
    if !same_button(panel.hot_button, hot) {
        panel.hot_button = hot;
        true
    } else {
        false
    }
}

/// The button under the pointer becomes the pressed one; says whether there is one.
pub fn set_pressed_button_at(panel: &mut PanelState, x: i32, y: i32) -> (pressed: bool)
    ensures
        *final(panel) == (PanelState {
            pressed_button: hit(old(panel).buttons@, x as int, y as int),
            ..*old(panel)
        }),
        pressed == final(panel).pressed_button is Some,
{
    let button = panel_button_hit_test(&panel.buttons, x, y);
    panel.pressed_button = button;
    button.is_some()
}

/// The button that a release of the mouse sets off: the pressed one, if the
/// pointer is still on it.
pub open spec fn released(panel: PanelState) -> Option<PanelButtonId> {
    if panel.pressed_button is Some && panel.hot_button == panel.pressed_button {
        panel.pressed_button
    } else {
        None
    }
}

/// Lets the pressed button go, and says which button acts.
pub fn take_released_button(panel: &mut PanelState) -> (r: Option<PanelButtonId>)
    ensures
        r == released(*old(panel)),
        *final(panel) == (PanelState { pressed_button: None, ..*old(panel) }),
{
    let pressed = panel.pressed_button;
    panel.pressed_button = None;
    if pressed.is_some() && same_button(panel.hot_button, pressed) {
        pressed
    } else {
        None
    }
}

/// No button is hot or pressed any more; says whether one was.
pub fn clear_pointer(panel: &mut PanelState) -> (changed: bool)
    ensures
        changed == (old(panel).hot_button is Some || old(panel).pressed_button is Some),
        *final(panel) == (PanelState { hot_button: None, pressed_button: None, ..*old(panel) }),
{
    let changed = panel.hot_button.is_some() || panel.pressed_button.is_some();
    panel.hot_button = None;
    panel.pressed_button = None;
    changed
}

/// The buttons that the keyboard can reach, in order.
pub open spec fn focus_order(buttons: Seq<PanelButton>) -> Seq<PanelButtonId>
    decreases buttons.len(),
{
    if buttons.len() == 0 {
        Seq::empty()
    } else if buttons.last().enabled {
        focus_order(buttons.drop_last()).push(buttons.last().id)
    } else {
        focus_order(buttons.drop_last())
    }
}

/// The button behind `hot` in the order, from the last on to the first; the first
/// one where `hot` is not in it.
pub open spec fn next_focus(order: Seq<PanelButtonId>, hot: Option<PanelButtonId>) -> PanelButtonId {
    match hot {
        Some(id) if order.contains(id) => order[(order.index_of_first(id)->0 + 1) % (
        order.len() as int)],
        _ => order[0],
    }
}

/// The buttons that the keyboard can reach, in order.
pub fn focusable_buttons(buttons: &Vec<PanelButton>) -> (r: Vec<PanelButtonId>)
    ensures
        r@ == focus_order(buttons@),
{
    let mut order: Vec<PanelButtonId> = Vec::new();
    let mut i: usize = 0;
    while i < buttons.len()
        invariant
            i <= buttons.len(),
            order@ == focus_order(buttons@.take(i as int)),
        decreases buttons.len() - i,
    {
        if buttons[i].enabled {
            order.push(buttons[i].id);
        }
        assert(buttons@.take(i + 1).drop_last() =~= buttons@.take(i as int));
        assert(buttons@.take(i + 1).last() == buttons@[i as int]);
        i += 1;
    }
    assert(buttons@.take(buttons@.len() as int) =~= buttons@);
    order
}

fn index_in(order: &Vec<PanelButtonId>, id: PanelButtonId) -> (r: Option<usize>)
    ensures
        match r {
            Some(i) => order@.contains(id) && order@.index_of_first(id) == Some(i as int) && i
                < order.len(),
            None => !order@.contains(id),
        },
{
    let mut i: usize = 0;
    while i < order.len()
        invariant
            i <= order.len(),
            forall|j: int| 0 <= j < i ==> order@[j] != id,
        decreases order.len() - i,
    {
        if order[i] == id {
            proof {
                order@.index_of_first_ensures(id);
            }
            return Some(i);
        }
        i += 1;
    }
    None
}

/// The keyboard focus moves on by one button; says whether there is one to move to.
pub fn focus_next(panel: &mut PanelState) -> (changed: bool)
    ensures
        changed == (focus_order(old(panel).buttons@).len() > 0),
        changed ==> *final(panel) == (PanelState {
            hot_button: Some(
                next_focus(focus_order(old(panel).buttons@), old(panel).hot_button),
            ),
            ..*old(panel)
        }),
        !changed ==> *final(panel) == *old(panel),
{
    let order = focusable_buttons(&panel.buttons);
    if order.len() == 0 {
        return false;
    }
    let next: usize = match panel.hot_button {
        Some(id) => match index_in(&order, id) {
            Some(index) => {
                if index + 1 < order.len() {
                    proof {
                        vstd::arithmetic::div_mod::lemma_small_mod(
                            (index + 1) as nat,
                            order@.len(),
                        );
                    }
                    index + 1
                } else {
                    proof {
                        vstd::arithmetic::div_mod::lemma_mod_self_0(order@.len() as int);
                    }
                    0
                }
            },
            None => 0,
        },
        None => 0,
    };
    panel.hot_button = Some(order[next]);
    true
}

/// The focus after `n` moves.
pub open spec fn focus_after(
    order: Seq<PanelButtonId>,
    hot: Option<PanelButtonId>,
    n: nat,
) -> Option<PanelButtonId>
    decreases n,
{
    if n == 0 {
        hot
    } else {
        Some(next_focus(order, focus_after(order, hot, (n - 1) as nat)))
    }
}

/// Moving the focus on goes round: from the `start`th button, `n` moves lead to
/// the one `n` places on, so every button is reached and the round closes.
pub proof fn lemma_focus_goes_round(order: Seq<PanelButtonId>, start: int, n: nat)
    requires
        order.no_duplicates(),
        0 <= start < order.len(),
    ensures
        focus_after(order, Some(order[start]), n) == Some(order[(start + n) % (order.len() as int)]),
    decreases n,
{
    let len = order.len() as int;
    if n == 0 {
        assert(start % len == start) by (nonlinear_arith)
            requires
                0 <= start < len,
        ;
    } else {
        lemma_focus_goes_round(order, start, (n - 1) as nat);
        let at = (start + n - 1) % len;
        assert(0 <= at < len) by (nonlinear_arith)
            requires
                len > 0,
                at == (start + n - 1) % len,
        ;
        let id = order[at];
        assert(order.contains(id));
        order.index_of_first_ensures(id);
        let found = order.index_of_first(id)->0;
        assert(found == at);
        assert((at + 1) % len == (start + n) % len) by {
            vstd::arithmetic::div_mod::lemma_add_mod_noop(start + n - 1, 1, len);
            vstd::arithmetic::div_mod::lemma_add_mod_noop(at, 1, len);
            vstd::arithmetic::div_mod::lemma_mod_twice(start + n - 1, len);
        }
    }
}

/// How a button looks.
pub open spec fn visual_state(panel: PanelState, button: PanelButton) -> PanelButtonVisualState {
    if !button.enabled {
        PanelButtonVisualState::Disabled
    } else if panel.pressed_button == Some(button.id) {
        PanelButtonVisualState::Pressed
    } else if panel.hot_button == Some(button.id) {
        PanelButtonVisualState::Hot
    } else {
        PanelButtonVisualState::Normal
    }
}

/// How a button looks.
pub fn panel_button_visual_state(panel: &PanelState, button: &PanelButton) -> (r:
    PanelButtonVisualState)
    ensures
        r == visual_state(*panel, *button),
{
    if !button.enabled {
        PanelButtonVisualState::Disabled
    } else if same_button(panel.pressed_button, Some(button.id)) {
        PanelButtonVisualState::Pressed
    } else if same_button(panel.hot_button, Some(button.id)) {
        PanelButtonVisualState::Hot
    } else {
        PanelButtonVisualState::Normal
    }
}

/// The row of buttons at the right end of the header, in the order pin,
/// settings, refresh: the place of the `i`th.
pub open spec fn button_rect(width: int, dpi: u32, i: int) -> (int, int, int, int) {
    let button_w = scaled(PANEL_BUTTON_W as int, dpi);
    let button_h = scaled(PANEL_BUTTON_H as int, dpi);
    let right = width - scaled(PANEL_PAD as int, dpi) - (2 - i) * (button_w + scaled(4, dpi));
    let slack = scaled(PANEL_HEADER_H as int, dpi) - button_h;
    let top = scaled(PANEL_PAD as int, dpi) + slack / 2;
    (right - button_w, top, right, top + button_h)
}

pub open spec fn rect_parts(r: Rect) -> (int, int, int, int) {
    (r.left as int, r.top as int, r.right as int, r.bottom as int)
}

/// The three buttons are laid out in a panel of the given width: pin, settings and
/// refresh, all enabled, the pin selected while the panel is pinned.
pub open spec fn laid_out(
    buttons: Seq<PanelButton>,
    settings: Seq<char>,
    refresh: Seq<char>,
    width: int,
    pinned: bool,
    dpi: u32,
) -> bool {
    &&& buttons.len() == 3
    &&& forall|i: int|
        0 <= i < 3 ==> rect_parts(#[trigger] buttons[i].rect) == button_rect(width, dpi, i)
    &&& forall|i: int| 0 <= i < 3 ==> (#[trigger] buttons[i]).enabled
    &&& buttons[0].id == PanelButtonId::Pin
    &&& buttons[0].label@ == "\u{E718}"@
    &&& buttons[0].accessible_label@ == "Pin"@
    &&& buttons[0].selected == pinned
    &&& buttons[1].id == PanelButtonId::Settings
    &&& buttons[1].label@ == "\u{E713}"@
    &&& buttons[1].accessible_label@ == settings
    &&& !buttons[1].selected
    &&& buttons[2].id == PanelButtonId::Refresh
    &&& buttons[2].label@ == "\u{E72C}"@
    &&& buttons[2].accessible_label@ == refresh
    &&& !buttons[2].selected
}

/// Lays out the panel's buttons in a panel of the given width. `settings` and
/// `refresh` are the spoken names of two of them.
pub fn panel_buttons_for_layout(
    settings: &str,
    refresh: &str,
    width: i32,
    pinned: bool,
    dpi: u32,
) -> (r: Vec<PanelButton>)
    requires
        valid_coord(width as int),
        valid_dpi(dpi),
    ensures
        laid_out(r@, settings@, refresh@, width as int, pinned, dpi),
{
    let right: i32 = width - sc(PANEL_PAD, dpi);
    let button_w: i32 = sc(PANEL_BUTTON_W, dpi);
    let button_h: i32 = sc(PANEL_BUTTON_H, dpi);
    let header_h: i32 = sc(PANEL_HEADER_H, dpi);
    proof {
        crate::geometry::lemma_scaled_is_monotone(
            PANEL_BUTTON_H as int,
            PANEL_HEADER_H as int,
            dpi,
            dpi,
        );
    }
    let top: i32 = sc(PANEL_PAD, dpi) + (header_h - button_h) / 2;
    let gap: i32 = sc(4, dpi);
    let refresh_left: i32 = right - button_w;
    let settings_right: i32 = refresh_left - gap;
    let settings_left: i32 = settings_right - button_w;
    let pin_right: i32 = settings_left - gap;
    let pin_left: i32 = pin_right - button_w;
    let bottom: i32 = top + button_h;
    let mut buttons: Vec<PanelButton> = Vec::new();
    buttons.push(
        PanelButton {
            id: PanelButtonId::Pin,
            rect: Rect { left: pin_left, top, right: pin_right, bottom },
            label: "\u{E718}".to_owned(),
            accessible_label: "Pin".to_owned(),
            enabled: true,
            selected: pinned,
        },
    );
    buttons.push(
        PanelButton {
            id: PanelButtonId::Settings,
            rect: Rect { left: settings_left, top, right: settings_right, bottom },
            label: "\u{E713}".to_owned(),
            accessible_label: settings.to_owned(),
            enabled: true,
            selected: false,
        },
    );
    buttons.push(
        PanelButton {
            id: PanelButtonId::Refresh,
            rect: Rect { left: refresh_left, top, right, bottom },
            label: "\u{E72C}".to_owned(),
            accessible_label: refresh.to_owned(),
            enabled: true,
            selected: false,
        },
    );
    proof {
        assert(rect_parts(buttons@[0].rect) == button_rect(width as int, dpi, 0));
        assert(rect_parts(buttons@[1].rect) == button_rect(width as int, dpi, 1));
        assert(rect_parts(buttons@[2].rect) == button_rect(width as int, dpi, 2));
    }
    buttons
}

/// No point lies in two of the laid out buttons.
pub proof fn lemma_buttons_do_not_overlap(width: int, dpi: u32, i: int, j: int)
    requires
        0 <= i < j < 3,
    ensures
        button_rect(width, dpi, i).2 <= button_rect(width, dpi, j).0,
{
    crate::geometry::lemma_scaled_bounds(PANEL_BUTTON_W as int, dpi);
    crate::geometry::lemma_scaled_bounds(4, dpi);
    let w = scaled(PANEL_BUTTON_W as int, dpi) + scaled(4, dpi);
    assert((2 - i) * w >= (2 - j) * w + w) by (nonlinear_arith)
        requires
            i + 1 <= j,
            w >= 0,
    ;
}

/// A click on a button that is laid out goes to that button.
pub proof fn lemma_click_reaches_its_button(
    buttons: Seq<PanelButton>,
    settings: Seq<char>,
    refresh: Seq<char>,
    width: int,
    pinned: bool,
    dpi: u32,
    x: int,
    y: int,
    i: int,
)
    requires
        laid_out(buttons, settings, refresh, width, pinned, dpi),
        0 <= i < 3,
        buttons[i].rect.contains(x, y),
    ensures
        hit(buttons, x, y) == Some(buttons[i].id),
{
    assert forall|j: int| 0 <= j < i implies !accepts(#[trigger] buttons[j], x, y) by {
        lemma_buttons_do_not_overlap(width, dpi, j, i);
        assert(rect_parts(buttons[j].rect) == button_rect(width, dpi, j));
        assert(rect_parts(buttons[i].rect) == button_rect(width, dpi, i));
    }
    assert(accepts(buttons[i], x, y));
    assert(buttons.skip(1)[0] == buttons[1]);
    assert(buttons.skip(1).skip(1)[0] == buttons[2]);
    reveal_with_fuel(hit, 4);
}

/// The spoken name of the hot button, if it is among the buttons.
pub open spec fn hot_label(panel: PanelState) -> Option<Seq<char>> {
    match panel.hot_button {
        Some(id) => label_of(panel.buttons@, id),
        None => None,
    }
}

/// The spoken name of the first button of that kind.
pub open spec fn label_of(buttons: Seq<PanelButton>, id: PanelButtonId) -> Option<Seq<char>>
    decreases buttons.len(),
{
    if buttons.len() == 0 {
        None
    } else if buttons[0].id == id {
        Some(buttons[0].accessible_label@)
    } else {
        label_of(buttons.skip(1), id)
    }
}

/// The title that a screen reader speaks: the base title, and the name of the
/// button that has the focus.
pub fn accessible_title(panel: &PanelState, base: &str) -> (r: String)
    ensures
        r@ == match hot_label(*panel) {
            Some(label) => base@ + " - "@ + label,
            None => base@,
        },
{
    match panel.hot_button {
        Some(id) => {
            let mut i: usize = 0;
            assert(panel.buttons@.skip(0) =~= panel.buttons@);
            while i < panel.buttons.len()
                invariant
                    i <= panel.buttons.len(),
                    panel.hot_button == Some(id),
                    label_of(panel.buttons@.skip(i as int), id) == label_of(panel.buttons@, id),
                decreases panel.buttons.len() - i,
            {
                if panel.buttons[i].id == id {
                    return join3(base, " - ", panel.buttons[i].accessible_label.as_str());
                }
                assert(panel.buttons@.skip(i as int).skip(1) =~= panel.buttons@.skip(i + 1));
                i += 1;
            }
            base.to_owned()
        },
        None => base.to_owned(),
    }
}

/// Whether a point of the panel's client area drags the pinned panel: the header,
/// but for the buttons at its right end.
pub open spec fn in_drag_zone(x: int, y: int, client_right: int, dpi: u32) -> bool {
    &&& 0 <= y < scaled(PANEL_PAD as int, dpi) + scaled(PANEL_HEADER_H as int, dpi)
    &&& 0 <= x < client_right - button_zone(dpi)
}

/// The width of the three buttons with the gaps between them and the padding.
pub open spec fn button_zone(dpi: u32) -> int {
    3 * scaled(PANEL_BUTTON_W as int, dpi) + 2 * scaled(4, dpi) + scaled(PANEL_PAD as int, dpi)
}

/// Whether a point of the panel's client area drags the pinned panel.
pub fn is_drag_zone(x: i32, y: i32, client_right: i32, dpi: u32) -> (r: bool)
    requires
        valid_coord(client_right as int),
        valid_dpi(dpi),
    ensures
        r == in_drag_zone(x as int, y as int, client_right as int, dpi),
{
    let header_bottom: i32 = sc(PANEL_PAD, dpi) + sc(PANEL_HEADER_H, dpi);
    let zone: i32 = sc(PANEL_BUTTON_W, dpi) * 3 + sc(4, dpi) * 2 + sc(PANEL_PAD, dpi);
    let drag_right: i32 = client_right - zone;
    y >= 0 && y < header_bottom && x >= 0 && x < drag_right
}

/// The zone that drags the panel ends where its first button begins, so a click
/// on a button is never taken for a drag.
pub proof fn lemma_drag_zone_leaves_the_buttons(x: int, y: int, width: int, dpi: u32, i: int)
    requires
        in_drag_zone(x, y, width, dpi),
        0 <= i < 3,
    ensures
        x < button_rect(width, dpi, i).0,
{
    crate::geometry::lemma_scaled_bounds(PANEL_BUTTON_W as int, dpi);
    crate::geometry::lemma_scaled_bounds(4, dpi);
    let w = scaled(PANEL_BUTTON_W as int, dpi) + scaled(4, dpi);
    assert((2 - i) * w <= 2 * w) by (nonlinear_arith)
        requires
            i >= 0,
            w >= 0,
    ;
}

} // verus!
