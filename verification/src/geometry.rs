//! Pixels: scaling to the monitor's DPI, rectangles, and where the windows go.

use vstd::prelude::*;

verus! {

/// The DPI at which lengths are designed.
pub const BASE_DPI: u32 = 96;

/// The highest DPI whose scaled lengths still add up within 32 bits.
pub const MAX_DPI: u32 = 0x100_0000;

/// The largest coordinate, to either side, that leaves room for the lengths
/// that are added to it.
pub const MAX_COORD: i32 = 0x2000_0000;

pub const SEGMENT_W: i32 = 16;

pub const SEGMENT_GAP: i32 = 1;

pub const SEGMENT_COUNT: i32 = 10;

pub const LEFT_DIVIDER_W: i32 = 3;

pub const DIVIDER_RIGHT_MARGIN: i32 = 10;

pub const BAR_RIGHT_MARGIN: i32 = 4;

pub const RIGHT_MARGIN: i32 = 1;

pub const WIDGET_HEIGHT: i32 = 46;

/// The width of the divider and its margin: the handle by which the widget is dragged.
pub const DIVIDER_HIT_ZONE: i32 = 13;

pub const POPUP_PAD_X: i32 = 6;

pub const POPUP_PAD_Y: i32 = 4;

pub const PANEL_PAD: i32 = 5;

pub const PANEL_HEADER_H: i32 = 40;

pub const PANEL_BUTTON_H: i32 = 28;

pub const PANEL_BUTTON_W: i32 = 32;

pub const PANEL_CORNER_RADIUS: i32 = 10;

pub const PANEL_HERO_H: i32 = 120;

pub const PANEL_WEEKLY_H: i32 = 62;

/// A card holds the hero block and the weekly block.
pub const PANEL_CARD_H: i32 = PANEL_HERO_H + PANEL_WEEKLY_H;

pub const PANEL_SINGLE_MODEL_W: i32 = 390;

pub const PANEL_TWO_MODEL_W: i32 = 390;

/// Padding, header, separator and one card.
pub const PANEL_SINGLE_MODEL_H: i32 = PANEL_PAD + PANEL_HEADER_H + 1 + PANEL_CARD_H;

/// Padding, header, separator, two cards and the gap between them.
pub const PANEL_TWO_MODEL_H: i32 = PANEL_PAD + PANEL_HEADER_H + 1 + PANEL_CARD_H * 2 + 14;

pub open spec fn valid_dpi(dpi: u32) -> bool {
    dpi <= MAX_DPI
}

pub open spec fn valid_coord(x: int) -> bool {
    -MAX_COORD <= x <= MAX_COORD
}

/// A number that 32 bits hold.
pub open spec fn fits(n: int) -> bool {
    i32::MIN <= n <= i32::MAX
}

/// Whether scaled lengths still add up within 32 bits at this DPI.
pub fn dpi_in_range(dpi: u32) -> (r: bool)
    ensures
        r == valid_dpi(dpi),
{
    dpi <= MAX_DPI
}

/// Whether a coordinate leaves room for the lengths that are added to it.
pub fn coord_in_range(x: i32) -> (r: bool)
    ensures
        r == valid_coord(x as int),
{
    -MAX_COORD <= x && x <= MAX_COORD
}

/// The quotient to the nearest whole number, halves away from zero.
pub open spec fn rounded_quotient(n: int, d: int) -> int {
    if n >= 0 {
        (2 * n + d) / (2 * d)
    } else {
        -((-2 * n + d) / (2 * d))
    }
}

/// The nearest value of `i32`.
pub open spec fn saturated_i32(n: int) -> int {
    if n < i32::MIN {
        i32::MIN as int
    } else if n > i32::MAX {
        i32::MAX as int
    } else {
        n
    }
}

/// A length designed at the base DPI, in pixels of a monitor of the given DPI:
/// rounded to whole pixels, halves away from zero, within the range of `i32`.
pub open spec fn scaled(px: int, dpi: u32) -> int {
    saturated_i32(rounded_quotient(px * dpi, BASE_DPI as int))
}

/// Scales a length designed at the base DPI to the given DPI.
pub fn sc(px: i32, dpi: u32) -> (r: i32)
    ensures
        r == scaled(px as int, dpi),
        0 <= px && valid_dpi(dpi) ==> 0 <= r <= px * 174763 + 1,
{
    proof {
        lemma_scaled_bounds(px as int, dpi);
        assert(-0x8000_0000_0000_0000 < px * dpi < 0x8000_0000_0000_0000) by (nonlinear_arith)
            requires
                -0x8000_0000 <= px <= 0x7FFF_FFFF,
                0 <= dpi <= 0xFFFF_FFFF,
        ;
    }
    let n: i128 = (px as i128) * (dpi as i128);
    let quotient: i128 = if n >= 0 {
        (2 * n + 96) / 192
    } else {
        -((-2 * n + 96) / 192)
    };
    if quotient < i32::MIN as i128 {
        i32::MIN
    } else if quotient > i32::MAX as i128 {
        i32::MAX
    } else {
        quotient as i32
    }
}

/// Short lengths stay short at every DPI in range.
pub proof fn lemma_scaled_bounds(px: int, dpi: u32)
    ensures
        px >= 0 ==> scaled(px, dpi) >= 0,
        px <= 0 ==> scaled(px, dpi) <= 0,
        0 <= px && valid_dpi(dpi) ==> scaled(px, dpi) <= px * 174763 + 1,
{
    let n = px * dpi;
    if px >= 0 {
        assert(n >= 0) by (nonlinear_arith)
            requires
                n == px * dpi,
                px >= 0,
                dpi >= 0,
        ;
        if valid_dpi(dpi) {
            assert(n <= px * 0x100_0000) by (nonlinear_arith)
                requires
                    n == px * dpi,
                    0 <= px,
                    0 <= dpi <= 0x100_0000,
            ;
        }
    } else {
        assert(n <= 0) by (nonlinear_arith)
            requires
                n == px * dpi,
                px <= 0,
                dpi >= 0,
        ;
    }
}

/// At the base DPI a length is its own pixel count.
pub proof fn lemma_scaled_at_base(px: i32)
    ensures
        scaled(px as int, BASE_DPI) == px,
{
    let n = px * BASE_DPI;
    assert(n == 96 * px);
    if px >= 0 {
        assert((2 * n + 96) / 192 == px);
    } else {
        assert((-2 * n + 96) / 192 == -px);
    }
    assert(rounded_quotient(n, 96) == px);
}

/// A longer length never gets fewer pixels, and a higher DPI never takes any.
pub proof fn lemma_scaled_is_monotone(a: int, b: int, low: u32, high: u32)
    requires
        a <= b,
        low <= high,
    ensures
        scaled(a, low) <= scaled(b, low),
        0 <= a ==> scaled(a, low) <= scaled(a, high),
{
    assert(a * low <= b * low) by (nonlinear_arith)
        requires
            a <= b,
            low >= 0,
    ;
    if 0 <= a {
        assert(a * low <= a * high) by (nonlinear_arith)
            requires
                0 <= a,
                low <= high,
        ;
        assert(0 <= a * low) by (nonlinear_arith)
            requires
                0 <= a,
                low >= 0,
        ;
    }
}

/// Lengths of opposite sign scale to opposite pixels.
pub proof fn lemma_scaled_is_odd(px: int, dpi: u32)
    requires
        -i32::MAX <= rounded_quotient(px * dpi, BASE_DPI as int) <= i32::MAX,
    ensures
        scaled(-px, dpi) == -scaled(px, dpi),
{
    assert((-px) * dpi == -(px * dpi)) by (nonlinear_arith);
}

/// The DPI in force after the window's DPI was asked for; zero means no answer.
pub fn refreshed_dpi(current: u32, answer: u32) -> (r: u32)
    ensures
        r == if answer > 0 {
            answer
        } else {
            current
        },
{
    if answer > 0 {
        answer
    } else {
        current
    }
}

/// A rectangle on the screen or in a window; the right and bottom edges lie outside.
#[derive(Clone, Copy, Debug, PartialEq, Eq, Structural)]
pub struct Rect {
    pub left: i32,
    pub top: i32,
    pub right: i32,
    pub bottom: i32,
}

impl Rect {
    pub open spec fn contains(self, x: int, y: int) -> bool {
        self.left <= x < self.right && self.top <= y < self.bottom
    }

    /// All four edges leave room for the lengths that are added to them.
    pub open spec fn in_range(self) -> bool {
        &&& valid_coord(self.left as int)
        &&& valid_coord(self.top as int)
        &&& valid_coord(self.right as int)
        &&& valid_coord(self.bottom as int)
    }

    /// Whether all four edges leave room for the lengths that are added to them.
    pub fn is_in_range(&self) -> (r: bool)
        ensures
            r == self.in_range(),
    {
        coord_in_range(self.left) && coord_in_range(self.top) && coord_in_range(self.right)
            && coord_in_range(self.bottom)
    }

    /// The distance between the left and the right edge.
    pub fn width(&self) -> (r: i32)
        requires
            self.in_range(),
        ensures
            r == self.right - self.left,
    {
        self.right - self.left
    }

    /// The distance between the upper and the lower edge.
    pub fn height(&self) -> (r: i32)
        requires
            self.in_range(),
        ensures
            r == self.bottom - self.top,
    {
        self.bottom - self.top
    }
}

/// A window's upper left corner and size.
#[derive(Clone, Copy, Debug, PartialEq, Eq, Structural)]
pub struct Placement {
    pub x: i32,
    pub y: i32,
    pub width: i32,
    pub height: i32,
}

/// Whether a point lies in a rectangle.
pub fn point_in_rect(x: i32, y: i32, rect: &Rect) -> (r: bool)
    ensures
        r == rect.contains(x as int, y as int),
{
    x >= rect.left && x < rect.right && y >= rect.top && y < rect.bottom
}

/// The low 16 bits of a message parameter.
pub fn loword(value: u32) -> (r: u16)
    ensures
        r == value % 0x1_0000,
{
    assert(value & 0xFFFF == value % 0x1_0000) by (bit_vector);
    (value & 0xFFFF) as u16
}

/// The high 16 bits of a message parameter.
pub fn hiword(value: u32) -> (r: u16)
    ensures
        r == value / 0x1_0000,
{
    assert((value >> 16) & 0xFFFF == value / 0x1_0000) by (bit_vector);
    ((value >> 16) & 0xFFFF) as u16
}

/// The two words of a parameter give it back.
pub proof fn lemma_words_recombine(value: u32)
    ensures
        (value / 0x1_0000) * 0x1_0000 + value % 0x1_0000 == value,
{
}

/// A 16-bit word read as a signed coordinate.
pub open spec fn signed_word(word: int) -> int {
    if word % 0x1_0000 >= 0x8000 {
        word % 0x1_0000 - 0x1_0000
    } else {
        word % 0x1_0000
    }
}

/// Reads a word as a signed coordinate.
pub fn word_coord(word: u16) -> (r: i32)
    ensures
        r == signed_word(word as int),
{
    if word >= 0x8000 {
        word as i32 - 0x1_0000
    } else {
        word as i32
    }
}

/// How many segments a bar shows when so many models share the widget.
pub fn row_bar_segment_count(active_models: i32) -> (r: i32)
    ensures
        r == segment_count(active_models),
{
    if active_models > 1 {
        5
    } else {
        SEGMENT_COUNT
    }
}

pub open spec fn segment_count(active_models: i32) -> i32 {
    if active_models > 1 {
        5
    } else {
        SEGMENT_COUNT
    }
}

/// The number of models that the widget shows.
pub fn active_model_count() -> (r: i32)
    ensures
        r == 1,
{
    1
}

/// The width of the widget: divider, bar segments with gaps between them, margins.
pub open spec fn widget_width(active_models: i32, dpi: u32) -> int {
    scaled(LEFT_DIVIDER_W as int, dpi) + scaled(DIVIDER_RIGHT_MARGIN as int, dpi) + segment_count(
        active_models,
    ) * scaled(SEGMENT_W as int, dpi) + (segment_count(active_models) - 1) * scaled(
        SEGMENT_GAP as int,
        dpi,
    ) + scaled(BAR_RIGHT_MARGIN as int, dpi) + scaled(RIGHT_MARGIN as int, dpi)
}

/// The width of the widget for so many models.
pub fn total_widget_width_for(active_models: i32, dpi: u32) -> (r: i32)
    requires
        valid_dpi(dpi),
    ensures
        r == widget_width(active_models, dpi),
        0 <= r <= 0x1000_0000,
{
    let bar_segments: i32 = row_bar_segment_count(active_models);
    let segment: i32 = sc(SEGMENT_W, dpi);
    let gap: i32 = sc(SEGMENT_GAP, dpi);
    proof {
        assert((segment + gap) * bar_segments == bar_segments * segment + bar_segments * gap)
            by (nonlinear_arith);
        assert((bar_segments - 1) * gap == bar_segments * gap - gap) by (nonlinear_arith);
        assert(0 <= (segment + gap) * bar_segments <= 10 * (segment + gap)) by (nonlinear_arith)
            requires
                0 <= segment + gap,
                0 <= bar_segments <= 10,
        ;
    }
    let bar_w: i32 = (segment + gap) * bar_segments - gap;
    sc(LEFT_DIVIDER_W, dpi) + sc(DIVIDER_RIGHT_MARGIN, dpi) + bar_w + sc(BAR_RIGHT_MARGIN, dpi)
        + sc(RIGHT_MARGIN, dpi)
}

/// The width of the widget.
pub fn total_widget_width(dpi: u32) -> (r: i32)
    requires
        valid_dpi(dpi),
    ensures
        r == widget_width(1, dpi),
        0 <= r <= 0x1000_0000,
{
    total_widget_width_for(active_model_count(), dpi)
}

/// Width and height of the panel for so many models.
pub fn panel_size_for_models(active_models: i32, dpi: u32) -> (r: (i32, i32))
    ensures
        r.0 == scaled(
            if active_models > 1 {
                PANEL_TWO_MODEL_W as int
            } else {
                PANEL_SINGLE_MODEL_W as int
            },
            dpi,
        ),
        r.1 == scaled(
            if active_models > 1 {
                PANEL_TWO_MODEL_H as int
            } else {
                PANEL_SINGLE_MODEL_H as int
            },
            dpi,
        ),
        valid_dpi(dpi) ==> 0 <= r.0 <= 0x0B00_0000 && 0 <= r.1 <= 0x0B00_0000,
{
    if active_models > 1 {
        (sc(PANEL_TWO_MODEL_W, dpi), sc(PANEL_TWO_MODEL_H, dpi))
    } else {
        (sc(PANEL_SINGLE_MODEL_W, dpi), sc(PANEL_SINGLE_MODEL_H, dpi))
    }
}

/// Width and height of the panel.
pub fn current_panel_size(dpi: u32) -> (r: (i32, i32))
    ensures
        r.0 == scaled(PANEL_SINGLE_MODEL_W as int, dpi),
        r.1 == scaled(PANEL_SINGLE_MODEL_H as int, dpi),
        valid_dpi(dpi) ==> 0 <= r.0 <= 0x0B00_0000 && 0 <= r.1 <= 0x0B00_0000,
{
    panel_size_for_models(active_model_count(), dpi)
}

pub open spec fn max_of(a: int, b: int) -> int {
    if a >= b {
        a
    } else {
        b
    }
}

/// `value` held between `low` and `high`.
pub open spec fn clamped(value: int, low: int, high: int) -> int {
    if value < low {
        low
    } else if value > high {
        high
    } else {
        value
    }
}

fn clamp(value: i32, low: i32, high: i32) -> (r: i32)
    requires
        low <= high,
    ensures
        r == clamped(value as int, low as int, high as int),
{
    if value < low {
        low
    } else if value > high {
        high
    } else {
        value
    }
}

fn larger(a: i32, b: i32) -> (r: i32)
    ensures
        r == max_of(a as int, b as int),
{
    if a >= b {
        a
    } else {
        b
    }
}

/// The upper edge of the widget: flush with the lower edge of the anchor, but
/// never above its upper edge.
pub fn compute_anchor_y(anchor_top: i32, anchor_height: i32, widget_height: i32) -> (r: i32)
    requires
        i32::MIN <= anchor_top + anchor_height <= i32::MAX,
        i32::MIN <= anchor_top + anchor_height - widget_height <= i32::MAX,
    ensures
        r == max_of(anchor_top + anchor_height - widget_height, anchor_top as int),
{
    let anchor_bottom: i32 = anchor_top + anchor_height;
    larger(anchor_bottom - widget_height, anchor_top)
}

/// Where the taskbar is, and where the notification area in it begins.
#[derive(Clone, Copy, Debug, PartialEq, Eq, Structural)]
pub struct TaskbarGeometry {
    pub rect: Rect,
    pub tray_left: Option<i32>,
}

impl TaskbarGeometry {
    /// The edge that the widget keeps to the left of: the notification area, or
    /// the end of the taskbar where there is none.
    pub open spec fn right_edge(self) -> i32 {
        match self.tray_left {
            Some(x) => x,
            None => self.rect.right,
        }
    }

    pub open spec fn in_range(self) -> bool {
        &&& self.rect.in_range()
        &&& valid_coord(self.right_edge() as int)
    }

    /// Whether every edge leaves room for the lengths that are added to it.
    pub fn is_in_range(&self) -> (r: bool)
        ensures
            r == self.in_range(),
    {
        self.rect.is_in_range() && coord_in_range(self.edge())
    }

    /// The edge that the widget keeps to the left of.
    pub fn edge(&self) -> (r: i32)
        ensures
            r == self.right_edge(),
    {
        match self.tray_left {
            Some(x) => x,
            None => self.rect.right,
        }
    }
}

/// The upper edge of the widget on the taskbar, in screen coordinates.
pub open spec fn widget_top(taskbar: Rect, dpi: u32) -> int {
    max_of(taskbar.bottom - scaled(WIDGET_HEIGHT as int, dpi), taskbar.top as int)
}

/// Where the widget stands when it is `offset` pixels left of its default place.
/// An embedded widget is placed relative to the taskbar, any other on the screen.
pub open spec fn widget_placement(
    taskbar: TaskbarGeometry,
    embedded: bool,
    offset: int,
    dpi: u32,
) -> (int, int, int, int) {
    let x = taskbar.right_edge() - widget_width(1, dpi) - offset;
    let y = widget_top(taskbar.rect, dpi);
    if embedded {
        (
            x - taskbar.rect.left,
            y - taskbar.rect.top,
            widget_width(1, dpi),
            scaled(WIDGET_HEIGHT as int, dpi),
        )
    } else {
        (x, y, widget_width(1, dpi), scaled(WIDGET_HEIGHT as int, dpi))
    }
}

impl Placement {
    /// The placement as whole numbers: corner, then size.
    pub open spec fn parts(self) -> (int, int, int, int) {
        (self.x as int, self.y as int, self.width as int, self.height as int)
    }
}

fn widget_left(taskbar: &TaskbarGeometry, embedded: bool, offset: i32, dpi: u32) -> (r: i64)
    requires
        taskbar.in_range(),
        valid_dpi(dpi),
    ensures
        r == widget_placement(*taskbar, embedded, offset as int, dpi).0,
{
    let x: i64 = taskbar.edge() as i64 - total_widget_width(dpi) as i64 - offset as i64;
    if embedded {
        x - taskbar.rect.left as i64
    } else {
        x
    }
}

/// Whether 32 bits hold the place of a widget `offset` pixels left of its default
/// place.
pub fn widget_fits(taskbar: &TaskbarGeometry, embedded: bool, offset: i32, dpi: u32) -> (r: bool)
    requires
        taskbar.in_range(),
        valid_dpi(dpi),
    ensures
        r == fits(widget_placement(*taskbar, embedded, offset as int, dpi).0),
{
    let x: i64 = widget_left(taskbar, embedded, offset, dpi);
    i32::MIN as i64 <= x && x <= i32::MAX as i64
}

/// Places the widget on the taskbar, `offset` pixels left of its default place.
pub fn place_widget(
    taskbar: &TaskbarGeometry,
    embedded: bool,
    offset: i32,
    dpi: u32,
) -> (r: Placement)
    requires
        taskbar.in_range(),
        valid_dpi(dpi),
        fits(widget_placement(*taskbar, embedded, offset as int, dpi).0),
    ensures
        r.parts() == widget_placement(*taskbar, embedded, offset as int, dpi),
        r.height == scaled(46, dpi),
        192 * r.height - 96 <= 92 * dpi < 192 * r.height + 96,
        ({
            let top = if embedded {
                r.y + taskbar.rect.top
            } else {
                r.y as int
            };
            &&& top >= taskbar.rect.top
            &&& top + r.height >= taskbar.rect.bottom
            &&& top == taskbar.rect.top || top + r.height == taskbar.rect.bottom
        }),
{
    proof {
        let n = 46 * dpi;
        let q = (2 * n + 96) / 192;
        assert(192 * q <= 2 * n + 96 < 192 * q + 192);
        assert(rounded_quotient(n, 96) == q);
    }
    let width: i32 = total_widget_width(dpi);
    let height: i32 = sc(WIDGET_HEIGHT, dpi);
    let rect = taskbar.rect;
    let y: i32 = compute_anchor_y(rect.top, rect.bottom - rect.top, height);
    let x: i32 = widget_left(taskbar, embedded, offset, dpi) as i32;
    if embedded {
        Placement { x, y: y - rect.top, width, height }
    } else {
        Placement { x, y, width, height }
    }
}

/// How far left the widget can be dragged: to the left edge of the taskbar.
pub open spec fn max_drag_offset(taskbar: TaskbarGeometry, dpi: u32) -> int {
    max_of(taskbar.right_edge() - taskbar.rect.left - widget_width(1, dpi), 0)
}

/// The offset that a drag asks for: where it started plus how far left the mouse
/// went, but not to the right of the default place.
pub open spec fn dragged_offset(start_offset: int, start_x: int, mouse_x: int) -> int {
    max_of(start_offset + (start_x - mouse_x), 0)
}

/// Whether 32 bits hold the offset that a drag asks for.
pub fn drag_fits(start_offset: i32, start_x: i32, mouse_x: i32) -> (r: bool)
    ensures
        r == fits(start_offset + (start_x - mouse_x)),
{
    let wanted: i64 = start_offset as i64 + (start_x as i64 - mouse_x as i64);
    i32::MIN as i64 <= wanted && wanted <= i32::MAX as i64
}

/// The offset of a widget under the mouse, on a taskbar of unknown extent.
pub fn drag_offset(start_offset: i32, start_x: i32, mouse_x: i32) -> (r: i32)
    requires
        fits(start_offset + (start_x - mouse_x)),
    ensures
        r == dragged_offset(start_offset as int, start_x as int, mouse_x as int),
{
    let wanted: i64 = start_offset as i64 + (start_x as i64 - mouse_x as i64);
    larger(wanted as i32, 0)
}

/// The offset of a widget under the mouse, held on the taskbar.
pub fn drag_offset_on(
    taskbar: &TaskbarGeometry,
    start_offset: i32,
    start_x: i32,
    mouse_x: i32,
    dpi: u32,
) -> (r: i32)
    requires
        taskbar.in_range(),
        fits(start_offset + (start_x - mouse_x)),
        valid_dpi(dpi),
    ensures
        r == clamped(
            start_offset + (start_x - mouse_x),
            0,
            max_drag_offset(*taskbar, dpi),
        ),
        fits(widget_placement(*taskbar, true, r as int, dpi).0),
        fits(widget_placement(*taskbar, false, r as int, dpi).0),
{
    let wanted: i32 = drag_offset(start_offset, start_x, mouse_x);
    let limit: i32 = larger(taskbar.edge() - taskbar.rect.left - total_widget_width(dpi), 0);
    if wanted > limit {
        limit
    } else {
        wanted
    }
}

/// A dragged widget stays between its default place and the left edge of the
/// taskbar, as far as the taskbar has room for it.
pub proof fn lemma_dragged_widget_stays_on_taskbar(
    taskbar: TaskbarGeometry,
    embedded: bool,
    wanted: int,
    dpi: u32,
)
    ensures
        ({
            let offset = clamped(wanted, 0, max_drag_offset(taskbar, dpi));
            let placed = widget_placement(taskbar, embedded, offset, dpi);
            let left = if embedded {
                0
            } else {
                taskbar.rect.left as int
            };
            &&& offset >= 0
            &&& placed.0 <= widget_placement(taskbar, embedded, 0, dpi).0
            &&& taskbar.right_edge() - taskbar.rect.left >= widget_width(1, dpi) ==> left
                <= placed.0
        }),
{
}

/// Where the panel goes: right edges aligned with the widget's, above the widget
/// where there is room, else below it, and on the screen.
pub open spec fn panel_placement(
    widget: Rect,
    screen_w: int,
    screen_h: int,
    panel_w: int,
    panel_h: int,
    gap: int,
) -> (int, int) {
    (
        clamped(widget.right - panel_w, 0, max_of(screen_w - panel_w, 0)),
        if widget.top - panel_h - gap >= 0 {
            widget.top - panel_h - gap
        } else {
            clamped(widget.bottom + gap, 0, max_of(screen_h - panel_h, 0))
        },
    )
}

/// Places the panel next to the widget.
pub fn place_panel(widget: &Rect, screen_w: i32, screen_h: i32, dpi: u32) -> (r: Placement)
    requires
        widget.in_range(),
        valid_coord(screen_w as int),
        valid_coord(screen_h as int),
        valid_dpi(dpi),
    ensures
        r.width == scaled(PANEL_SINGLE_MODEL_W as int, dpi),
        r.height == scaled(PANEL_SINGLE_MODEL_H as int, dpi),
        (r.x as int, r.y as int) == panel_placement(
            *widget,
            screen_w as int,
            screen_h as int,
            r.width as int,
            r.height as int,
            scaled(8, dpi),
        ),
        r.width == scaled(390, dpi),
        r.height == scaled(228, dpi),
        widget.top - r.height - scaled(8, dpi) >= 0 ==> r.y + r.height + scaled(8, dpi)
            == widget.top,
        widget.top - r.height - scaled(8, dpi) < 0 && 0 <= widget.bottom + scaled(8, dpi)
            <= screen_h - r.height ==> r.y == widget.bottom + scaled(8, dpi),
{
    let (panel_w, panel_h) = current_panel_size(dpi);
    let gap: i32 = sc(8, dpi);
    let max_x: i32 = larger(screen_w - panel_w, 0);
    let max_y: i32 = larger(screen_h - panel_h, 0);
    let x: i32 = clamp(widget.right - panel_w, 0, max_x);
    let above_y: i32 = widget.top - panel_h - gap;
    let below_y: i32 = widget.bottom + gap;
    let y: i32 = if above_y >= 0 {
        above_y
    } else {
        clamp(below_y, 0, max_y)
    };
    Placement { x, y, width: panel_w, height: panel_h }
}

/// The panel never leaves the screen on the left or at the top, and where it fits
/// the screen and the widget is on the screen, it does not leave it at all.
pub proof fn lemma_panel_stays_on_screen(
    widget: Rect,
    screen_w: int,
    screen_h: int,
    panel_w: int,
    panel_h: int,
    gap: int,
)
    requires
        panel_w >= 0,
        panel_h >= 0,
        gap >= 0,
    ensures
        ({
            let at = panel_placement(widget, screen_w, screen_h, panel_w, panel_h, gap);
            &&& at.0 >= 0 && at.1 >= 0
            &&& panel_w <= screen_w ==> at.0 + panel_w <= screen_w
            &&& panel_h <= screen_h && widget.top <= screen_h ==> at.1 + panel_h <= screen_h
        }),
{
}

/// Where the hover popup goes: above the widget, right edges aligned, but not
/// beyond the left edge of the screen.
pub fn place_popup(widget: &Rect, text_w: i32, text_h: i32, dpi: u32) -> (r: Placement)
    requires
        widget.in_range(),
        valid_coord(text_w as int),
        valid_coord(text_h as int),
        valid_dpi(dpi),
    ensures
        r.width == text_w + 2 * POPUP_PAD_X,
        r.height == text_h + 2 * POPUP_PAD_Y,
        r.x == max_of(widget.right - r.width, 0),
        r.y == widget.top - r.height - scaled(4, dpi),
{
    let popup_w: i32 = text_w + POPUP_PAD_X * 2;
    let popup_h: i32 = text_h + POPUP_PAD_Y * 2;
    Placement {
        x: larger(widget.right - popup_w, 0),
        y: widget.top - popup_h - sc(4, dpi),
        width: popup_w,
        height: popup_h,
    }
}

/// The part of the popup that its text fills.
pub fn popup_text_rect(client: &Rect) -> (r: Rect)
    requires
        client.in_range(),
    ensures
        r.left == client.left + POPUP_PAD_X,
        r.top == client.top + POPUP_PAD_Y,
        r.right == client.right - POPUP_PAD_X,
        r.bottom == client.bottom - POPUP_PAD_Y,
{
    Rect {
        left: client.left + POPUP_PAD_X,
        top: client.top + POPUP_PAD_Y,
        right: client.right - POPUP_PAD_X,
        bottom: client.bottom - POPUP_PAD_Y,
    }
}

} // verus!
