//! Where the windows go: the widget on the taskbar, the panel and the popup next
//! to it, at every DPI.

use crate::geometry::compute_anchor_y;
use crate::geometry::current_panel_size;
use crate::geometry::drag_offset;
use crate::geometry::drag_offset_on;
use crate::geometry::hiword;
use crate::geometry::loword;
use crate::geometry::panel_size_for_models;
use crate::geometry::place_panel;
use crate::geometry::place_popup;
use crate::geometry::place_widget;
use crate::geometry::point_in_rect;
use crate::geometry::popup_text_rect;
use crate::geometry::refreshed_dpi;
use crate::geometry::row_bar_segment_count;
use crate::geometry::sc;
use crate::geometry::scaled;
use crate::geometry::total_widget_width;
use crate::geometry::total_widget_width_for;
use crate::geometry::word_coord;
use crate::geometry::Placement;
use crate::geometry::Rect;
use crate::geometry::TaskbarGeometry;
use crate::panel_window::position_panel_near_widget;
use crate::state::Action;
use crate::state::Shell;
use crate::widget::drag_to;
use crate::widget::on_tray_location_changed;
use crate::widget::position_at_taskbar;
use crate::widget::suppress_tray_reposition;
use vstd::prelude::*;

verus! {

/// The pixels of a length designed at 96 DPI are the nearest whole number to it,
/// halves away from zero, as far as 32 bits go.
pub proof fn scaling_is_to_the_nearest_pixel(px: i32, dpi: u32, r: i32)
    requires
        call_ensures(sc, (px, dpi), r),
    ensures
        px >= 0 ==> 0 <= r && 192 * r - 96 <= 2 * (px * dpi),
        px >= 0 && r < i32::MAX ==> 2 * (px * dpi) < 192 * r + 96,
        px <= 0 ==> r <= 0 && 2 * (px * dpi) <= 192 * r + 96,
        px <= 0 && r > i32::MIN ==> 192 * r - 96 < 2 * (px * dpi),
{
    let n = px * dpi;
    if px >= 0 {
        assert(n >= 0) by (nonlinear_arith)
            requires
                n == px * dpi,
                px >= 0,
                dpi >= 0,
        ;
    }
    if px <= 0 {
        assert(n <= 0) by (nonlinear_arith)
            requires
                n == px * dpi,
                px <= 0,
                dpi >= 0,
        ;
        let q = (-2 * n + 96) / 192;
        assert(192 * q <= -2 * n + 96 < 192 * q + 192);
        assert(n < 0 ==> crate::geometry::rounded_quotient(n, 96) == -q);
    }
}

proof fn lemma_short_lengths_are_nearest(px: int, dpi: u32)
    requires
        0 <= px <= 1000,
        dpi <= 0x100_0000,
    ensures
        192 * scaled(px, dpi) - 96 <= 2 * (px * dpi) < 192 * scaled(px, dpi) + 96,
        0 <= scaled(px, dpi) <= 0x0B00_0000,
{
    let n = px * dpi;
    assert(0 <= n <= 1000 * 0x100_0000) by (nonlinear_arith)
        requires
            n == px * dpi,
            0 <= px <= 1000,
            0 <= dpi <= 0x100_0000,
    ;
    let q = (2 * n + 96) / 192;
    assert(192 * q <= 2 * n + 96 < 192 * q + 192);
    assert(crate::geometry::rounded_quotient(n, 96) == q);
}

/// The widget is as wide as its parts: the handle, its margin, the segments of the
/// bar with a gap between any two, and the margins behind them. Two models share
/// the widget with five segments each, one alone has ten.
pub proof fn widget_holds_its_parts(models: i32, dpi: u32, r: i32, one: i32, segments: i32)
    requires
        call_ensures(total_widget_width_for, (models, dpi), r),
        call_ensures(total_widget_width, (dpi,), one),
        call_ensures(row_bar_segment_count, (models,), segments),
    ensures
        segments == if models > 1 {
            5
        } else {
            10int
        },
        r == scaled(3, dpi) + scaled(10, dpi) + segments * scaled(16, dpi) + (segments - 1)
            * scaled(1, dpi) + scaled(4, dpi) + scaled(1, dpi),
        one == scaled(3, dpi) + scaled(10, dpi) + 10 * scaled(16, dpi) + 9 * scaled(1, dpi)
            + scaled(4, dpi) + scaled(1, dpi),
{
}

/// The panel is 390 by 228 design pixels for one model, and 424 high for two.
pub proof fn panel_has_its_size(models: i32, dpi: u32, r: (i32, i32), one: (i32, i32))
    requires
        call_ensures(panel_size_for_models, (models, dpi), r),
        call_ensures(current_panel_size, (dpi,), one),
        dpi <= 0x100_0000,
    ensures
        192 * r.0 - 96 <= 780 * dpi < 192 * r.0 + 96,
        models <= 1 ==> 192 * r.1 - 96 <= 456 * dpi < 192 * r.1 + 96,
        models > 1 ==> 192 * r.1 - 96 <= 848 * dpi < 192 * r.1 + 96,
        192 * one.0 - 96 <= 780 * dpi < 192 * one.0 + 96,
        192 * one.1 - 96 <= 456 * dpi < 192 * one.1 + 96,
{
    lemma_short_lengths_are_nearest(390, dpi);
    lemma_short_lengths_are_nearest(228, dpi);
    lemma_short_lengths_are_nearest(424, dpi);
}

/// Where the widget keeps to the left of: the notification area, or the end of the
/// taskbar where that has none.
pub open spec fn stop(taskbar: TaskbarGeometry) -> int {
    if taskbar.tray_left is Some {
        taskbar.tray_left->0 as int
    } else {
        taskbar.rect.right as int
    }
}

/// A place of the widget on the taskbar, `offset` pixels left of the default one:
/// 46 design pixels high, on the lower edge of the taskbar unless it is higher than
/// that, and then on the upper edge. A widget in the taskbar is placed within it,
/// any other on the screen.
pub open spec fn stands_on_taskbar(
    taskbar: TaskbarGeometry,
    embedded: bool,
    offset: int,
    dpi: u32,
    x: int,
    y: int,
    width: int,
    height: int,
) -> bool {
    let left = if embedded {
        x + taskbar.rect.left
    } else {
        x
    };
    let top = if embedded {
        y + taskbar.rect.top
    } else {
        y
    };
    &&& 192 * height - 96 <= 92 * dpi < 192 * height + 96
    &&& width == scaled(3, dpi) + scaled(10, dpi) + 10 * scaled(16, dpi) + 9 * scaled(1, dpi)
        + scaled(4, dpi) + scaled(1, dpi)
    &&& left + width + offset == stop(taskbar)
    &&& top >= taskbar.rect.top
    &&& top + height >= taskbar.rect.bottom
    &&& top == taskbar.rect.top || top + height == taskbar.rect.bottom
}

/// The widget stands on the taskbar, next to the notification area, at every DPI.
pub proof fn widget_stands_on_the_taskbar(
    taskbar: TaskbarGeometry,
    embedded: bool,
    offset: i32,
    dpi: u32,
    r: Placement,
)
    requires
        call_ensures(place_widget, (&taskbar, embedded, offset, dpi), r),
        dpi <= 0x100_0000,
    ensures
        stands_on_taskbar(
            taskbar,
            embedded,
            offset as int,
            dpi,
            r.x as int,
            r.y as int,
            r.width as int,
            r.height as int,
        ),
{
    lemma_short_lengths_are_nearest(46, dpi);
}

/// The widget is put on the taskbar where the user left it, unless it is being
/// dragged, or there is no taskbar that it stands in.
pub proof fn widget_returns_to_its_offset(
    shell: Shell,
    taskbar: Option<TaskbarGeometry>,
    dpi: u32,
    r: Option<Placement>,
)
    requires
        call_ensures(position_at_taskbar, (&shell, taskbar, dpi), r),
        dpi <= 0x100_0000,
    ensures
        r is Some <==> shell.app is Some && taskbar is Some && !shell.app->0.drag.dragging
            && shell.app->0.windows.taskbar_hwnd is Some,
        r matches Some(p) ==> stands_on_taskbar(
            taskbar->0,
            shell.app->0.embedded,
            shell.app->0.prefs.tray_offset as int,
            dpi,
            p.x as int,
            p.y as int,
            p.width as int,
            p.height as int,
        ),
{
    lemma_short_lengths_are_nearest(46, dpi);
}

/// The widget's upper edge: flush with the lower edge of what it is anchored to,
/// but not above its upper edge.
pub proof fn widget_sits_on_its_anchor(top: i32, height: i32, widget: i32, r: i32)
    requires
        call_ensures(compute_anchor_y, (top, height, widget), r),
    ensures
        r >= top,
        r + widget >= top + height,
        widget <= height ==> r + widget == top + height,
        widget >= height ==> r == top,
{
}

/// The widget follows the pointer pixel by pixel, from its default place to the
/// left edge of the taskbar and no further.
pub proof fn drag_follows_the_pointer(
    taskbar: TaskbarGeometry,
    start_offset: i32,
    start_x: i32,
    mouse_x: i32,
    dpi: u32,
    width: i32,
    free: i32,
    held: i32,
)
    requires
        call_ensures(drag_offset, (start_offset, start_x, mouse_x), free),
        call_ensures(drag_offset_on, (&taskbar, start_offset, start_x, mouse_x, dpi), held),
        call_ensures(total_widget_width, (dpi,), width),
    ensures
        ({
            let wanted = start_offset + start_x - mouse_x;
            let room = stop(taskbar) - taskbar.rect.left - width;
            &&& wanted >= 0 ==> free == wanted
            &&& wanted < 0 ==> free == 0
            &&& 0 <= wanted <= room ==> held == wanted
            &&& wanted <= 0 ==> held == 0
            &&& 0 <= room < wanted ==> held == room
            &&& room < 0 ==> held == 0
        }),
{
}

/// Dragging the widget changes nothing but its offset, which follows the pointer,
/// and moves the window there; the panel follows the widget.
pub proof fn drag_moves_the_widget(
    shell: &mut Shell,
    cursor_x: i32,
    taskbar: Option<TaskbarGeometry>,
    dpi: u32,
    width: i32,
    r: Vec<Action>,
)
    requires
        call_ensures(drag_to, (shell, cursor_x, taskbar, dpi), r),
        call_ensures(total_widget_width, (dpi,), width),
        crate::widget::drag_in_range(*old(shell), cursor_x as int),
        taskbar matches Some(t) ==> t.in_range(),
        dpi <= 0x100_0000,
    ensures
        old(shell).app is None ==> *final(shell) == *old(shell) && r@.len() == 0,
        old(shell).app matches Some(a) ==> (final(shell).app matches Some(b) && {
            let wanted = a.drag.start_offset + a.drag.start_mouse_x - cursor_x;
            let offset = b.prefs.tray_offset;
            &&& b == (crate::state::AppState {
                prefs: crate::state::Preferences { tray_offset: offset, ..a.prefs },
                ..a
            })
            &&& taskbar is None ==> r@.len() == 0 && offset == (if wanted > 0 {
                wanted
            } else {
                0
            })
            &&& taskbar matches Some(t) ==> {
                let room = stop(t) - t.rect.left - width;
                &&& 0 <= wanted <= room ==> offset == wanted
                &&& wanted <= 0 || room < 0 ==> offset == 0
                &&& 0 <= room < wanted ==> offset == room
                &&& r@.len() == 2
                &&& r@[1] == Action::PositionPanel
                &&& r@[0] matches Action::MoveWidget { x, y, width, height }
                &&& stands_on_taskbar(
                    t,
                    a.embedded,
                    offset as int,
                    dpi,
                    x as int,
                    y as int,
                    width as int,
                    height as int,
                )
            }
        }),
{
    lemma_short_lengths_are_nearest(3, dpi);
    lemma_short_lengths_are_nearest(10, dpi);
    lemma_short_lengths_are_nearest(16, dpi);
    lemma_short_lengths_are_nearest(1, dpi);
    lemma_short_lengths_are_nearest(4, dpi);
    lemma_short_lengths_are_nearest(46, dpi);
}

/// After the tray icons were changed the widget stays put for three quarters of a
/// second.
pub proof fn widget_stays_put_for_a_moment(shell: &mut Shell, now: u64, r: ())
    requires
        call_ensures(suppress_tray_reposition, (shell, now), r),
        now <= u64::MAX - 1_000_000_000,
    ensures
        final(shell).tray_reposition_until == Some((now + 750_000_000) as u64),
        final(shell).app == old(shell).app,
        final(shell).panel_reopen_until == old(shell).panel_reopen_until,
        final(shell).last_reposition == old(shell).last_reposition,
{
}

/// The widget moves after the notification area, and after no other window: when
/// it is not to stay put, and more than 500 whole milliseconds after its last move.
pub proof fn widget_moves_after_the_notification_area(
    shell: &mut Shell,
    hwnd: isize,
    now: u64,
    r: Vec<Action>,
)
    requires
        call_ensures(on_tray_location_changed, (shell, hwnd, now), r),
    ensures
        ({
            let a = *old(shell);
            let b = *final(shell);
            let tray = a.app is Some && a.app->0.windows.tray_notify_hwnd == Some(hwnd);
            let put = a.tray_reposition_until is Some && now < a.tray_reposition_until->0;
            let soon = a.last_reposition is Some && now < a.last_reposition->0 + 501_000_000;
            let moves = tray && !put && !soon;
            &&& moves ==> r@.len() == 2 && r@[0] == Action::PositionAtTaskbar && r@[1]
                == Action::RenderLayered && b.last_reposition == Some(now)
            &&& !moves ==> r@.len() == 0 && b.last_reposition == a.last_reposition
            &&& b.tray_reposition_until == (if tray && !put {
                None
            } else {
                a.tray_reposition_until
            })
            &&& b.app == a.app
            &&& b.panel_reopen_until == a.panel_reopen_until
        }),
{
}

/// A place of the panel next to the widget. With room for it above the widget it
/// stands there, a gap of 8 design pixels away, and so never covers the widget;
/// only else does it stand below, as far as the screen allows. Its right edge is
/// the widget's, as far as the screen allows.
pub open spec fn stands_next_to_widget(
    widget: Rect,
    screen_w: int,
    screen_h: int,
    dpi: u32,
    p: Placement,
) -> bool {
    let gap = scaled(8, dpi);
    let above = widget.top - gap - p.height;
    let below = widget.bottom + gap;
    &&& 192 * p.width - 96 <= 780 * dpi < 192 * p.width + 96
    &&& 192 * p.height - 96 <= 456 * dpi < 192 * p.height + 96
    &&& above >= 0 ==> p.y + p.height + gap == widget.top
    &&& above < 0 && 0 <= below && below + p.height <= screen_h ==> p.y == below
    &&& above < 0 && below + p.height > screen_h && p.height <= screen_h && below >= 0 ==> p.y
        + p.height == screen_h
    &&& above < 0 && (below < 0 || p.height > screen_h) ==> p.y == 0
    &&& p.width <= widget.right <= screen_w ==> p.x + p.width == widget.right
    &&& widget.right < p.width || screen_w < p.width ==> p.x == 0
    &&& p.width <= screen_w < widget.right ==> p.x + p.width == screen_w
}

/// The panel opens next to the widget, above it where there is room.
pub proof fn panel_opens_above_the_widget(
    widget: Rect,
    screen_w: i32,
    screen_h: i32,
    dpi: u32,
    r: Placement,
)
    requires
        call_ensures(place_panel, (&widget, screen_w, screen_h, dpi), r),
        dpi <= 0x100_0000,
    ensures
        stands_next_to_widget(widget, screen_w as int, screen_h as int, dpi, r),
{
    lemma_short_lengths_are_nearest(8, dpi);
    lemma_short_lengths_are_nearest(228, dpi);
    lemma_short_lengths_are_nearest(390, dpi);
}

/// An open panel goes to the place that it is pinned to, stays where it is if it is
/// pinned to none, and else goes next to the widget. A closed one goes nowhere.
pub proof fn panel_goes_where_it_belongs(
    shell: Shell,
    widget: Option<Rect>,
    screen_w: i32,
    screen_h: i32,
    dpi: u32,
    r: Option<Placement>,
)
    requires
        call_ensures(position_panel_near_widget, (&shell, widget, screen_w, screen_h, dpi), r),
        dpi <= 0x100_0000,
    ensures
        shell.app is None ==> r is None,
        shell.app matches Some(s) ==> {
            let open = s.panel.hwnd is Some && s.panel.visible;
            let x = s.prefs.panel_pinned_x;
            let y = s.prefs.panel_pinned_y;
            &&& !open ==> r is None
            &&& open && s.prefs.panel_pinned ==> (r is Some <==> x is Some && y is Some)
            &&& open && s.prefs.panel_pinned && r is Some ==> {
                &&& r->0.x == x->0
                &&& r->0.y == y->0
                &&& 192 * r->0.width - 96 <= 780 * dpi < 192 * r->0.width + 96
                &&& 192 * r->0.height - 96 <= 456 * dpi < 192 * r->0.height + 96
            }
            &&& open && !s.prefs.panel_pinned ==> (r is Some <==> widget is Some)
            &&& open && !s.prefs.panel_pinned && r is Some ==> stands_next_to_widget(
                widget->0,
                screen_w as int,
                screen_h as int,
                dpi,
                r->0,
            )
        },
{
    lemma_short_lengths_are_nearest(8, dpi);
    lemma_short_lengths_are_nearest(228, dpi);
    lemma_short_lengths_are_nearest(390, dpi);
}

/// The popup stands above the widget, 4 design pixels away, with its right edge at
/// the widget's as far as the screen allows, and its text fits into it.
pub proof fn popup_stands_above_the_widget(
    widget: Rect,
    text_w: i32,
    text_h: i32,
    dpi: u32,
    r: Placement,
    client: Rect,
    text: Rect,
)
    requires
        call_ensures(place_popup, (&widget, text_w, text_h, dpi), r),
        call_ensures(popup_text_rect, (&client,), text),
        client.right - client.left == r.width,
        client.bottom - client.top == r.height,
    ensures
        r.y + r.height + scaled(4, dpi) == widget.top,
        r.width <= widget.right ==> r.x + r.width == widget.right,
        r.width > widget.right ==> r.x == 0,
        text.right - text.left == text_w,
        text.bottom - text.top == text_h,
        text.left == client.left + 6,
        text.top == client.top + 4,
        r.width == text_w + 12,
        r.height == text_h + 8,
{
}

/// A rectangle holds its left and upper edge, but not its right and lower one.
pub proof fn edges_of_a_rectangle(x: i32, y: i32, rect: Rect, r: bool)
    requires
        call_ensures(point_in_rect, (x, y, &rect), r),
    ensures
        r <==> x >= rect.left && x < rect.right && y >= rect.top && y < rect.bottom,
{
}

/// The two words of a parameter, and a word read as a coordinate.
pub proof fn words_of_a_parameter(value: u32, low: u16, high: u16, word: u16, x: i32)
    requires
        call_ensures(loword, (value,), low),
        call_ensures(hiword, (value,), high),
        call_ensures(word_coord, (word,), x),
    ensures
        high * 0x1_0000 + low == value,
        -0x8000 <= x < 0x8000,
        x == word || x + 0x1_0000 == word,
{
}

/// A DPI that the system tells takes the place of the one before; no answer, and
/// the old one stays.
pub proof fn told_dpi_is_taken(current: u32, answer: u32, r: u32)
    requires
        call_ensures(refreshed_dpi, (current, answer), r),
    ensures
        answer != 0 ==> r == answer,
        answer == 0 ==> r == current,
{
}

} // verus!
