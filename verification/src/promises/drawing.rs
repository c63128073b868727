//! Where everything is drawn at every DPI, and what the windows show of the state.

use crate::captions::panel_header_status_text;
use crate::captions::plan_name;
use crate::color::button_look;
use crate::color::widget_colors;
use crate::color::ButtonLook;
use crate::color::PanelColors;
use crate::color::WidgetColors;
use crate::geometry::scaled;
use crate::geometry::Rect;
use crate::layout::bar_fill;
use crate::layout::card_slots;
use crate::layout::hero_layout;
use crate::layout::panel_frame;
use crate::layout::round_path;
use crate::layout::separator_rect;
use crate::layout::skeleton_rows;
use crate::layout::weekly_layout;
use crate::layout::widget_layout;
use crate::layout::Arc;
use crate::layout::Bone;
use crate::layout::CardSlot;
use crate::layout::HeaderWidths;
use crate::layout::HeroLayout;
use crate::layout::HeroMeasures;
use crate::layout::PanelFrame;
use crate::layout::WeeklyLayout;
use crate::layout::WeeklyMeasures;
use crate::layout::WidgetLayout;
use crate::localization::Strings;
use crate::models::Timestamp;
use crate::panel::panel_button_visual_state;
use crate::panel::panel_buttons_for_layout;
use crate::panel::PanelButton;
use crate::panel::PanelButtonVisualState;
use crate::panel::PanelState;
use crate::promises::updates::same_moments;
use crate::sections::panel_model_sections;
use crate::sections::PanelModelSection;
use crate::sections::ResetTimes;
use crate::state::AppState;
use crate::state::Shell;
use crate::view::button_views;
use crate::view::paint;
use crate::view::paint_panel;
use crate::view::render_layered;
use crate::view::ButtonView;
use crate::view::PanelView;
use crate::view::Rendering;
use crate::view::WidgetView;
use vstd::prelude::*;

verus! {

/// A length is half of another, rounded towards zero.
pub open spec fn halves(part: int, whole: int) -> bool {
    &&& whole >= 0 ==> 2 * part <= whole <= 2 * part + 1
    &&& whole <= 0 ==> 2 * part - 1 <= whole <= 2 * part
}

/// The distance between the left and the right edge.
pub open spec fn width(r: Rect) -> int {
    r.right - r.left
}

/// The distance between the upper and the lower edge.
pub open spec fn height(r: Rect) -> int {
    r.bottom - r.top
}

/// A rectangle spans the header of the panel, from 5 design pixels down for another
/// 40.
pub open spec fn spans_header(r: Rect, dpi: u32) -> bool {
    &&& r.top == scaled(5, dpi)
    &&& height(r) == scaled(40, dpi)
}

/// A line is one pixel high.
pub open spec fn is_line(r: Rect, left: int, y: int, right: int) -> bool {
    r.left == left && r.top == y && r.right == right && r.bottom == y + 1
}

/// The header of the panel: the product, the badge in its pill, the separator and the
/// status stand one behind the other, and the status ends before the buttons. A line
/// lies below, and the cards take what is left.
pub proof fn header_stands_in_a_row(
    client: Rect,
    widths: HeaderWidths,
    dpi: u32,
    r: PanelFrame,
)
    requires
        call_ensures(panel_frame, (&client, &widths, dpi), r),
    ensures
        spans_header(r.product, dpi),
        spans_header(r.separator, dpi),
        spans_header(r.status, dpi),
        r.product.left == scaled(14, dpi),
        width(r.product) == widths.product,
        r.badge.left == r.product.right + scaled(6, dpi),
        width(r.badge) == widths.badge + 2 * scaled(10, dpi),
        height(r.badge) == scaled(16, dpi),
        halves(r.badge.top - scaled(5, dpi), scaled(40, dpi) - scaled(16, dpi)),
        halves(r.badge_radius as int, scaled(16, dpi)),
        r.separator.left == r.badge.right,
        width(r.separator) == widths.separator,
        r.status.left == r.separator.right,
        r.status.right + 3 * scaled(32, dpi) + 2 * scaled(4, dpi) + scaled(5, dpi) == width(client),
        is_line(r.divider, 0, r.product.bottom as int, width(client)),
        r.content.left == 0,
        r.content.top == r.divider.top + scaled(1, dpi),
        r.content.right == width(client),
        r.content.bottom == height(client),
        r.border.left == client.left,
        r.border.top == client.top,
        r.border.right + 1 == client.right,
        r.border.bottom + 1 == client.bottom,
        r.border_radius == scaled(10, dpi),
{
}

/// The cards stand below each other over the whole width, 182 design pixels high and
/// 14 apart, with a line 4 below every card but the last.
pub proof fn cards_stand_below_each_other(
    n: usize,
    bounds: Rect,
    dpi: u32,
    r: Vec<CardSlot>,
    i: int,
)
    requires
        call_ensures(card_slots, (n, &bounds, dpi), r),
        0 <= i < n,
    ensures
        r@.len() == n,
        r@[0].card.top == bounds.top,
        r@[i].card.left == bounds.left,
        r@[i].card.right == bounds.right,
        height(r@[i].card) == scaled(182, dpi),
        i + 1 < n ==> {
            &&& r@[i + 1].card.top == r@[i].card.bottom + scaled(14, dpi)
            &&& r@[i].separator is Some
            &&& is_line(
                r@[i].separator->0,
                bounds.left as int,
                r@[i].card.bottom + scaled(4, dpi),
                bounds.right as int,
            )
        },
        i + 1 == n ==> r@[i].separator is None,
{
    let pitch = crate::layout::card_pitch(dpi);
    assert(crate::layout::slot_placed(r@[i], bounds, i, n as int, dpi));
    assert(crate::layout::slot_placed(r@[0], bounds, 0, n as int, dpi));
    assert(0 * pitch == 0);
    assert((i + 1) * pitch == i * pitch + pitch) by (nonlinear_arith);
    if i + 1 < n {
        assert(crate::layout::slot_placed(r@[i + 1], bounds, i + 1, n as int, dpi));
    }
}

/// The height of the row with the dot: that of the halo of 11 design pixels or that of
/// the caption, whichever is more.
pub open spec fn dot_row(m: HeroMeasures, dpi: u32) -> int {
    if scaled(11, dpi) >= m.bold.height {
        scaled(11, dpi)
    } else {
        m.bold.height as int
    }
}

/// The upper block of a card is 120 design pixels high, and the block for the week
/// follows, 62 high; a line lies below each.
pub proof fn blocks_fill_the_card(card: Rect, m: HeroMeasures, dpi: u32, r: HeroLayout)
    requires
        call_ensures(hero_layout, (&card, &m, dpi), r),
    ensures
        r.block.left == card.left && r.block.right == card.right && r.block.top == card.top,
        height(r.block) == scaled(120, dpi),
        r.weekly.left == card.left && r.weekly.right == card.right,
        r.weekly.top == r.block.bottom,
        height(r.weekly) == scaled(62, dpi),
        is_line(r.divider, card.left as int, r.block.bottom as int, card.right as int),
        is_line(r.weekly_divider, card.left as int, r.weekly.bottom as int, card.right as int),
{
}

/// The dot of 7 design pixels and its halo of 11 lie on one middle with the caption, in
/// a row 18 down and 14 from the side.
pub proof fn dot_and_caption_have_one_middle(
    card: Rect,
    m: HeroMeasures,
    dpi: u32,
    r: HeroLayout,
    middle: int,
    dot: int,
    halo: int,
)
    requires
        call_ensures(hero_layout, (&card, &m, dpi), r),
        halves(middle, dot_row(m, dpi)),
        halves(dot, scaled(7, dpi)),
        halves(halo, scaled(11, dpi)),
    ensures
        width(r.dot) == scaled(7, dpi) && height(r.dot) == scaled(7, dpi),
        width(r.glow) == scaled(11, dpi) && height(r.glow) == scaled(11, dpi),
        r.dot.left == card.left + scaled(14, dpi),
        r.dot.top + dot == card.top + scaled(18, dpi) + middle,
        r.glow.top + halo == card.top + scaled(18, dpi) + middle,
        r.glow.left + halo == r.dot.left + dot,
        r.label_x == r.dot.right + scaled(7, dpi),
        halves(
            r.label_baseline - card.top - scaled(18, dpi) - middle,
            m.bold.ascent - m.bold.internal_leading,
        ),
{
    assert(middle == crate::layout::half(dot_row(m, dpi)));
    assert(dot == crate::layout::half(scaled(7, dpi)));
    assert(halo == crate::layout::half(scaled(11, dpi)));
}

/// The countdown stands 10 design pixels below the row with the dot, what it counts
/// down to 10 behind it, and the details 6 below it, up to 14 from the other side.
pub proof fn countdown_stands_below_the_dot(card: Rect, m: HeroMeasures, dpi: u32, r: HeroLayout)
    requires
        call_ensures(hero_layout, (&card, &m, dpi), r),
    ensures
        ({
            let top = card.top + scaled(18, dpi) + dot_row(m, dpi) + scaled(10, dpi);
            &&& r.email_right + scaled(14, dpi) == card.right
            &&& r.timer_x == card.left + scaled(14, dpi)
            &&& r.timer_baseline == top + m.timer.ascent
            &&& r.helper_x == r.timer_x + m.timer_width + scaled(10, dpi)
            &&& r.detail.left == r.timer_x
            &&& r.detail.right + scaled(14, dpi) == card.right
            &&& r.detail.top == top + m.timer.height + scaled(6, dpi)
            &&& height(r.detail) == scaled(20, dpi)
        }),
{
}

/// The lower block of a card: the captions stand in one row, 12 design pixels down and
/// 14 from either side, the percentage and its caption at the right; the bar of 6 lies
/// 10 below them.
pub proof fn lower_block_has_its_places(block: Rect, m: WeeklyMeasures, dpi: u32, r: WeeklyLayout)
    requires
        call_ensures(weekly_layout, (&block, &m, dpi), r),
    ensures
        ({
            let row = block.top + scaled(12, dpi);
            &&& r.label_x == block.left + scaled(14, dpi)
            &&& r.resets_x == r.label_x + m.label_width
            &&& r.suffix_x + m.suffix_width + scaled(14, dpi) == block.right
            &&& r.percent_x + m.percent_width == r.suffix_x
            &&& r.bar.left == r.label_x
            &&& r.bar.right + scaled(14, dpi) == block.right
            &&& r.bar.top == row + m.system.height + scaled(10, dpi)
            &&& height(r.bar) == scaled(6, dpi)
            &&& halves(r.bar_radius as int, scaled(6, dpi))
            &&& exists|middle: int|
                {
                    &&& #[trigger] halves(middle, m.system.height as int)
                    &&& halves(
                        r.label_baseline - row - middle,
                        m.bold.ascent - m.bold.internal_leading,
                    )
                    &&& halves(
                        r.baseline - row - middle,
                        m.system.ascent - m.system.internal_leading,
                    )
                }
        }),
{
    let middle = crate::layout::half(m.system.height as int);
    assert(halves(middle, m.system.height as int));
}

/// A bar is filled from the left by the given pixels, and not at all where they are
/// no more than its round ends take.
pub proof fn bar_is_filled_from_the_left(
    bar: Rect,
    radius: i32,
    fill: i32,
    r: Option<Rect>,
    left: i32,
    y: i32,
    right: i32,
    line: Rect,
)
    requires
        call_ensures(bar_fill, (&bar, radius, fill), r),
        call_ensures(separator_rect, (left, y, right), line),
        i32::MIN <= bar.left + fill <= i32::MAX,
    ensures
        r is Some <==> fill > radius,
        r matches Some(part) ==> part.left == bar.left && part.top == bar.top && part.bottom
            == bar.bottom && width(part) == fill,
        is_line(line, left as int, y as int, right as int),
{
}

/// The widget's row: the handle of 3 by 25 design pixels stands at the left, halfway
/// down; text of 14 and the bar of 8, with 5 between them, stand halfway down, from 13
/// at the left to 5 before the right edge.
pub proof fn widget_has_its_row(w: i32, h: i32, dpi: u32, r: WidgetLayout)
    requires
        call_ensures(widget_layout, (w, h, dpi), r),
    ensures
        r.divider.left == 0,
        width(r.divider) == scaled(3, dpi),
        height(r.divider) == scaled(25, dpi),
        halves(r.divider.top as int, h - scaled(25, dpi)),
        halves(r.divider_radius as int, scaled(3, dpi)),
        r.text.left == scaled(3, dpi) + scaled(10, dpi),
        r.text.right + scaled(4, dpi) + scaled(1, dpi) == w,
        height(r.text) == scaled(14, dpi),
        halves(r.text.top as int, h - scaled(14, dpi) - scaled(5, dpi) - scaled(8, dpi)),
        r.bar.left == r.text.left && r.bar.right == r.text.right,
        r.bar.top == r.text.bottom + scaled(5, dpi),
        height(r.bar) == scaled(8, dpi),
        halves(r.bar_radius as int, scaled(8, dpi)),
{
}

/// The outline of a rounded rectangle: one arc to the corner, clockwise from the upper
/// left, each touching the two sides that meet there.
pub proof fn outline_goes_round_the_corners(rect: Rect, radius: i32, r: Vec<Arc>)
    requires
        call_ensures(round_path, (&rect, radius), r),
    ensures
        r@.len() == 4,
        forall|i: int| 0 <= i < 4 ==> (#[trigger] r@[i]).diameter == 2 * radius,
        r@[0].start == 180 && r@[1].start == 270 && r@[2].start == 0 && r@[3].start == 90,
        r@[0].x == rect.left && r@[0].y == rect.top,
        r@[1].x + r@[1].diameter == rect.right && r@[1].y == rect.top,
        r@[2].x + r@[2].diameter == rect.right && r@[2].y + r@[2].diameter == rect.bottom,
        r@[3].x == rect.left && r@[3].y + r@[3].diameter == rect.bottom,
{
}

/// A row of three placeholders: a long and a short line, and a block at the right.
pub open spec fn is_skeleton_row(
    bones: Seq<Bone>,
    at: int,
    left: int,
    right: int,
    top: int,
    bright: bool,
    dpi: u32,
) -> bool {
    let long = bones[at].rect;
    let short = bones[at + 1].rect;
    let block = bones[at + 2].rect;
    let end = right - scaled(52, dpi) - scaled(8, dpi);
    &&& long.left == left && long.top == top && long.right + scaled(20, dpi) == end
    &&& height(long) == scaled(12, dpi)
    &&& short.left == left && short.top == top + scaled(15, dpi)
    &&& short.right + scaled(50, dpi) == end
    &&& short.bottom == top + scaled(25, dpi)
    &&& block.left == right - scaled(52, dpi) + scaled(6, dpi)
    &&& block.top == top && block.right == right && height(block) == scaled(24, dpi)
    &&& bones[at].bright == bright && bones[at + 1].bright != bright && bones[at + 2].bright
        == bright
}

/// The placeholders of a card stand in two rows, 34 and 72 design pixels down, and are
/// as round as they are high.
pub proof fn placeholders_stand_in_two_rows(
    left: i32,
    right: i32,
    top: i32,
    bright: bool,
    dpi: u32,
    r: Vec<Bone>,
)
    requires
        call_ensures(skeleton_rows, (left, right, top, bright, dpi), r),
    ensures
        r@.len() == 6,
        is_skeleton_row(r@, 0, left as int, right as int, top + scaled(34, dpi), bright, dpi),
        is_skeleton_row(r@, 3, left as int, right as int, top + scaled(72, dpi), bright, dpi),
        forall|i: int|
            0 <= i < 6 ==> {
                let b = #[trigger] r@[i];
                &&& height(b.rect) >= 1 ==> b.rounding == height(b.rect)
                &&& height(b.rect) < 1 ==> b.rounding == 1
            },
{
    assert forall|i: int| 0 <= i < 6 implies {
        let b = #[trigger] r@[i];
        &&& height(b.rect) >= 1 ==> b.rounding == height(b.rect)
        &&& height(b.rect) < 1 ==> b.rounding == 1
    } by {
        assert(i == 0 || i == 1 || i == 2 || i == 3 || i == 4 || i == 5);
    }
}

/// Each button is drawn where it stands, with its symbol and in the look of its state.
pub proof fn buttons_are_drawn_as_they_are(
    panel: PanelState,
    colors: PanelColors,
    i: int,
    state: PanelButtonVisualState,
    look: ButtonLook,
    r: Vec<ButtonView>,
)
    requires
        call_ensures(button_views, (&panel, &colors), r),
        0 <= i < panel.buttons@.len(),
        call_ensures(panel_button_visual_state, (&panel, &panel.buttons@[i]), state),
        call_ensures(button_look, (panel.buttons@[i].selected, state, &colors), look),
    ensures
        r@.len() == panel.buttons@.len(),
        r@[i].rect == panel.buttons@[i].rect,
        r@[i].label@ == panel.buttons@[i].label@,
        r@[i].look == look,
{
    assert(crate::view::drawn_as(r@[i], panel, i, colors));
}

/// Painting the panel lays its buttons out for its width and shows the state: the
/// theme, the status line, the plan, the sections and the phase of the shimmer. An
/// empty client area shows nothing and changes nothing.
pub proof fn panel_shows_the_state(
    shell: &mut Shell,
    strings: Strings,
    times: ResetTimes,
    dark: bool,
    w: i32,
    h: i32,
    now: Timestamp,
    dpi: u32,
    r: Option<PanelView>,
    laid: Vec<PanelButton>,
    status: String,
    plan: String,
    sections: Vec<PanelModelSection>,
    i: int,
)
    requires
        call_ensures(paint_panel, (shell, &strings, times, dark, w, h, now, dpi), r),
        old(shell).app is Some ==> {
            let s = old(shell).app->0;
            &&& call_ensures(
                panel_buttons_for_layout,
                (strings.settings, strings.refresh, w, s.prefs.panel_pinned, dpi),
                laid,
            )
            &&& call_ensures(
                panel_header_status_text,
                (
                    &strings,
                    s.polling.last_poll_at,
                    s.polling.last_poll_ok,
                    s.polling.last_poll_status,
                    now,
                ),
                status,
            )
            &&& call_ensures(plan_name, (&s.figures.data,), plan)
            &&& call_ensures(panel_model_sections, (&s, &strings, times), sections)
        },
        0 <= i < 3,
    ensures
        r is None <==> w <= 0 || h <= 0,
        r is None ==> *final(shell) == *old(shell),
        same_moments(*old(shell), *final(shell)),
        old(shell).app is None ==> final(shell).app is None,
        r is Some && old(shell).app is None ==> {
            &&& r->0.is_dark == dark
            &&& r->0.status@ == strings.panel_waiting_for_data@
            &&& r->0.plan@ == "PRO"@
            &&& r->0.sections@.len() == 0
            &&& r->0.buttons@.len() == 0
            &&& !r->0.bright
        },
        r is Some && old(shell).app is Some ==> {
            let s = old(shell).app->0;
            let t = final(shell).app->0;
            &&& final(shell).app is Some
            &&& t == (AppState {
                panel: PanelState { buttons: t.panel.buttons, ..s.panel },
                ..s
            })
            &&& t.panel.buttons@.len() == 3
            &&& t.panel.buttons@[i].rect == laid@[i].rect
            &&& t.panel.buttons@[i].id == laid@[i].id
            &&& t.panel.buttons@[i].label@ == laid@[i].label@
            &&& t.panel.buttons@[i].accessible_label@ == laid@[i].accessible_label@
            &&& t.panel.buttons@[i].enabled == laid@[i].enabled
            &&& t.panel.buttons@[i].selected == laid@[i].selected
            &&& r->0.is_dark == s.is_dark
            &&& r->0.status@ == status@
            &&& r->0.plan@ == plan@
            &&& r->0.bright == s.shimmer_phase
            &&& r->0.sections@.len() == sections@.len()
            &&& sections@.len() > 0 ==> r->0.sections@[0] == sections@[0]
            &&& r->0.buttons@.len() == 3
            &&& r->0.buttons@[i].rect == laid@[i].rect
            &&& r->0.buttons@[i].label@ == laid@[i].label@
        },
{
    if r is Some && old(shell).app is Some {
        let t = final(shell).app->0;
        let view = r->0;
        assert(crate::view::drawn_as(
            view.buttons@[i],
            t.panel,
            i,
            crate::color::palette(t.is_dark),
        ));
        assert(crate::panel::rect_parts(t.panel.buttons@[i].rect) == crate::panel::button_rect(
            w as int,
            dpi,
            i,
        ));
        assert(crate::panel::rect_parts(laid@[i].rect) == crate::panel::button_rect(
            w as int,
            dpi,
            i,
        ));
        assert(i == 0 || i == 1 || i == 2);
    }
}

/// The drawn buttons of the panel have the look of their state in its theme.
pub proof fn panel_buttons_have_the_look_of_the_theme(
    shell: &mut Shell,
    strings: Strings,
    times: ResetTimes,
    dark: bool,
    w: i32,
    h: i32,
    now: Timestamp,
    dpi: u32,
    r: Option<PanelView>,
    colors: PanelColors,
    state: PanelButtonVisualState,
    look: ButtonLook,
    i: int,
)
    requires
        call_ensures(paint_panel, (shell, &strings, times, dark, w, h, now, dpi), r),
        w > 0 && h > 0,
        old(shell).app is Some,
        0 <= i < 3,
        call_ensures(PanelColors::new, (old(shell).app->0.is_dark,), colors),
        call_ensures(
            panel_button_visual_state,
            (&final(shell).app->0.panel, &final(shell).app->0.panel.buttons@[i]),
            state,
        ),
        call_ensures(
            button_look,
            (final(shell).app->0.panel.buttons@[i].selected, state, &colors),
            look,
        ),
    ensures
        r is Some,
        r->0.buttons@[i].look == look,
{
    let t = final(shell).app->0;
    assert(crate::view::drawn_as(
        r->0.buttons@[i],
        t.panel,
        i,
        crate::color::palette(t.is_dark),
    ));
}

/// The widget shows the session in the colours of its state.
pub open spec fn shows_session(s: AppState, view: WidgetView, colors: WidgetColors) -> bool {
    &&& view.is_dark == s.is_dark
    &&& view.colors == colors
    &&& view.session_percent == s.figures.session_percent
    &&& view.session_text@ == s.figures.session_text@
    &&& view.session_resets_at == s.figures.session_resets_at
    &&& view.show_claude_code == s.prefs.show_claude_code
}

/// The widget is drawn where there is a state and room for it; in the taskbar it is
/// layered, elsewhere it is painted by the system's leave.
pub proof fn widget_shows_the_session(
    shell: Shell,
    w: i32,
    h: i32,
    colors: WidgetColors,
    painted: Option<WidgetView>,
    rendered: Rendering,
)
    requires
        call_ensures(paint, (&shell, w, h), painted),
        call_ensures(render_layered, (&shell,), rendered),
        shell.app is Some ==> call_ensures(
            widget_colors,
            (shell.app->0.is_dark, shell.app->0.figures.session_percent),
            colors,
        ),
    ensures
        painted is Some <==> shell.app is Some && w > 0 && h > 0,
        painted matches Some(view) ==> shows_session(shell.app->0, view, colors),
        rendered is Nothing <==> shell.app is None,
        rendered is Invalidate <==> shell.app is Some && !shell.app->0.embedded,
        rendered is Layered <==> shell.app is Some && shell.app->0.embedded,
        rendered matches Rendering::Layered(view) ==> shows_session(shell.app->0, view, colors),
{
}

} // verus!
