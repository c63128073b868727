//! Where everything is drawn: the panel's header and cards, the widget's row.

use crate::geometry::fits;
use crate::geometry::max_of;
use crate::geometry::sc;
use crate::geometry::scaled;
use crate::geometry::valid_coord;
use crate::geometry::valid_dpi;
use crate::geometry::Rect;
use crate::geometry::BAR_RIGHT_MARGIN;
use crate::geometry::DIVIDER_RIGHT_MARGIN;
use crate::geometry::LEFT_DIVIDER_W;
use crate::geometry::PANEL_BUTTON_W;
use crate::geometry::PANEL_CARD_H;
use crate::geometry::PANEL_CORNER_RADIUS;
use crate::geometry::PANEL_HEADER_H;
use crate::geometry::PANEL_HERO_H;
use crate::geometry::PANEL_PAD;
use crate::geometry::PANEL_WEEKLY_H;
use crate::geometry::RIGHT_MARGIN;
use crate::panel::button_zone;
use crate::panel::rect_parts;
use vstd::prelude::*;

verus! {

/// Half a length, rounded towards zero.
pub open spec fn half(n: int) -> int {
    if n >= 0 {
        n / 2
    } else {
        -((-n) / 2)
    }
}

fn half_of(n: i32) -> (r: i32)
    requires
        n > i32::MIN,
    ensures
        r == half(n as int),
{
    if n >= 0 {
        n / 2
    } else {
        -((-n) / 2)
    }
}

/// The measures of a font: the height of its lines, how far its letters reach
/// above the base line, and how much of that is left empty.
#[derive(Clone, Copy, Debug)]
pub struct FontMetrics {
    pub height: i32,
    pub ascent: i32,
    pub internal_leading: i32,
}

impl FontMetrics {
    pub open spec fn in_range(self) -> bool {
        &&& valid_coord(self.height as int)
        &&& valid_coord(self.ascent as int)
        &&& valid_coord(self.internal_leading as int)
    }

    /// Whether the measures leave room for the lengths that are added to them.
    pub fn is_in_range(&self) -> (r: bool)
        ensures
            r == self.in_range(),
    {
        crate::geometry::coord_in_range(self.height) && crate::geometry::coord_in_range(
            self.ascent,
        ) && crate::geometry::coord_in_range(self.internal_leading)
    }

    /// The base line that centres capital letters on a line.
    pub open spec fn centred(self, center: int) -> int {
        center + half(self.ascent - self.internal_leading)
    }

    fn centred_on(&self, center: i32) -> (r: i32)
        requires
            self.in_range(),
            -0x4000_0000 <= center <= 0x4000_0000,
        ensures
            r == self.centred(center as int),
    {
        center + half_of(self.ascent - self.internal_leading)
    }
}

/// A horizontal line, one pixel high.
pub open spec fn line(left: int, y: int, right: int) -> (int, int, int, int) {
    (left, y, right, y + 1)
}

/// The line between two parts of the panel.
pub fn separator_rect(left: i32, y: i32, right: i32) -> (r: Rect)
    requires
        y < i32::MAX,
    ensures
        rect_parts(r) == line(left as int, y as int, right as int),
{
    Rect { left, top: y, right, bottom: y + 1 }
}

/// The panel around its cards.
#[derive(Clone, Copy, Debug)]
pub struct PanelFrame {
    pub product: Rect,
    pub badge: Rect,
    pub badge_radius: i32,
    pub separator: Rect,
    pub status: Rect,
    pub divider: Rect,
    pub content: Rect,
    pub border: Rect,
    pub border_radius: i32,
}

/// The widths of the texts in the panel's header.
#[derive(Clone, Copy, Debug)]
pub struct HeaderWidths {
    pub product: i32,
    pub badge: i32,
    pub separator: i32,
}

impl HeaderWidths {
    pub open spec fn in_range(self) -> bool {
        &&& valid_coord(self.product as int)
        &&& valid_coord(self.badge as int)
        &&& valid_coord(self.separator as int)
    }

    /// Whether the widths leave room for the lengths that are added to them.
    pub fn is_in_range(&self) -> (r: bool)
        ensures
            r == self.in_range(),
    {
        crate::geometry::coord_in_range(self.product) && crate::geometry::coord_in_range(
            self.badge,
        ) && crate::geometry::coord_in_range(self.separator)
    }
}

/// The lower edge of the panel's header.
pub open spec fn header_bottom(dpi: u32) -> int {
    scaled(PANEL_PAD as int, dpi) + scaled(PANEL_HEADER_H as int, dpi)
}

/// Where the badge in the panel's header begins.
pub open spec fn badge_left(widths: HeaderWidths, dpi: u32) -> int {
    scaled(14, dpi) + widths.product + scaled(6, dpi)
}

/// The upper edge of the badge in the panel's header.
pub open spec fn badge_top(dpi: u32) -> int {
    scaled(PANEL_PAD as int, dpi) + half(scaled(PANEL_HEADER_H as int, dpi) - scaled(16, dpi))
}

/// Where the badge in the panel's header ends.
pub open spec fn badge_right(widths: HeaderWidths, dpi: u32) -> int {
    badge_left(widths, dpi) + widths.badge + 2 * scaled(10, dpi)
}

/// Lays out the panel around its cards: product, badge, separator and status in a
/// row in the header, up to the buttons, then a line and the cards.
pub fn panel_frame(client: &Rect, widths: &HeaderWidths, dpi: u32) -> (r: PanelFrame)
    requires
        client.in_range(),
        widths.in_range(),
        valid_dpi(dpi),
    ensures
        ({
            let width = client.right - client.left;
            let height = client.bottom - client.top;
            let top = scaled(PANEL_PAD as int, dpi);
            let bottom = header_bottom(dpi);
            let left = scaled(14, dpi);
            let pill = badge_right(*widths, dpi);
            &&& rect_parts(r.product) == (left, top, left + widths.product, bottom)
            &&& rect_parts(r.badge) == (
                badge_left(*widths, dpi),
                badge_top(dpi),
                pill,
                badge_top(dpi) + scaled(16, dpi),
            )
            &&& r.badge_radius == half(scaled(16, dpi))
            &&& rect_parts(r.separator) == (pill, top, pill + widths.separator, bottom)
            &&& rect_parts(r.status) == (
                pill + widths.separator,
                top,
                width - button_zone(dpi),
                bottom,
            )
            &&& rect_parts(r.divider) == line(0, bottom, width)
            &&& rect_parts(r.content) == (0int, bottom + scaled(1, dpi), width, height)
            &&& rect_parts(r.border) == (
                client.left as int,
                client.top as int,
                client.right - 1,
                client.bottom - 1,
            )
            &&& r.border_radius == scaled(PANEL_CORNER_RADIUS as int, dpi)
        }),
{
    let width: i32 = client.right - client.left;
    let height: i32 = client.bottom - client.top;
    let top: i32 = sc(PANEL_PAD, dpi);
    let header: i32 = sc(PANEL_HEADER_H, dpi);
    let bottom: i32 = top + header;
    let left: i32 = sc(14, dpi);
    let buttons: i32 = sc(PANEL_BUTTON_W, dpi) * 3 + sc(4, dpi) * 2 + sc(PANEL_PAD, dpi);
    let badge_w: i32 = widths.badge + sc(10, dpi) * 2;
    let pill_left: i32 = left + widths.product + sc(6, dpi);
    let pill_h: i32 = sc(16, dpi);
    let pill_top: i32 = top + half_of(header - pill_h);
    let pill_right: i32 = pill_left + badge_w;
    let status_left: i32 = pill_right + widths.separator;
    PanelFrame {
        product: Rect { left, top, right: left + widths.product, bottom },
        badge: Rect {
            left: pill_left,
            top: pill_top,
            right: pill_right,
            bottom: pill_top + pill_h,
        },
        badge_radius: half_of(pill_h),
        separator: Rect { left: pill_right, top, right: status_left, bottom },
        status: Rect { left: status_left, top, right: width - buttons, bottom },
        divider: separator_rect(0, bottom, width),
        content: Rect { left: 0, top: bottom + sc(1, dpi), right: width, bottom: height },
        border: Rect {
            left: client.left,
            top: client.top,
            right: client.right - 1,
            bottom: client.bottom - 1,
        },
        border_radius: sc(PANEL_CORNER_RADIUS, dpi),
    }
}

/// The texts of the header stand one behind the other and do not overlap.
pub proof fn lemma_header_texts_do_not_overlap(widths: HeaderWidths, dpi: u32)
    requires
        widths.badge >= 0,
    ensures
        scaled(14, dpi) + widths.product <= badge_left(widths, dpi) <= badge_right(widths, dpi),
        badge_top(dpi) + scaled(16, dpi) <= header_bottom(dpi),
        scaled(PANEL_PAD as int, dpi) <= badge_top(dpi),
{
    crate::geometry::lemma_scaled_bounds(6, dpi);
    crate::geometry::lemma_scaled_bounds(10, dpi);
    crate::geometry::lemma_scaled_is_monotone(16, PANEL_HEADER_H as int, dpi, dpi);
}

/// The place of a card, and the line below it where another one follows.
#[derive(Clone, Copy, Debug)]
pub struct CardSlot {
    pub card: Rect,
    pub separator: Option<Rect>,
}

/// The height of a card with the gap to the next one.
pub open spec fn card_pitch(dpi: u32) -> int {
    scaled(PANEL_CARD_H as int, dpi) + scaled(14, dpi)
}

/// The place of the `i`th of `n` cards.
pub open spec fn slot_placed(slot: CardSlot, bounds: Rect, i: int, n: int, dpi: u32) -> bool {
    let top = bounds.top + i * card_pitch(dpi);
    let bottom = top + scaled(PANEL_CARD_H as int, dpi);
    &&& rect_parts(slot.card) == (bounds.left as int, top, bounds.right as int, bottom)
    &&& match slot.separator {
        Some(rect) => i + 1 < n && rect_parts(rect) == line(
            bounds.left as int,
            bottom + scaled(4, dpi),
            bounds.right as int,
        ),
        None => i + 1 >= n,
    }
}

/// Lays out `n` cards below each other.
pub fn card_slots(n: usize, bounds: &Rect, dpi: u32) -> (r: Vec<CardSlot>)
    requires
        n > 0 ==> bounds.top + (n - 1) * card_pitch(dpi) + scaled(PANEL_CARD_H as int, dpi)
            < i32::MAX,
        valid_dpi(dpi),
    ensures
        r@.len() == n,
        forall|i: int| 0 <= i < n ==> slot_placed(#[trigger] r@[i], *bounds, i, n as int, dpi),
{
    let mut slots: Vec<CardSlot> = Vec::new();
    let card: i32 = sc(PANEL_CARD_H, dpi);
    let gap: i32 = sc(14, dpi);
    let line_gap: i32 = sc(4, dpi);
    proof {
        crate::geometry::lemma_scaled_is_monotone(4, 14, dpi, dpi);
    }
    let mut top: i32 = bounds.top;
    let mut i: usize = 0;
    while i < n
        invariant
            i <= n,
            slots@.len() == i,
            card == scaled(PANEL_CARD_H as int, dpi),
            gap == scaled(14, dpi),
            line_gap == scaled(4, dpi),
            0 <= card,
            0 <= line_gap <= gap,
            i < n ==> top == bounds.top + i * card_pitch(dpi),
            n > 0 ==> bounds.top + (n - 1) * card_pitch(dpi) + card < i32::MAX,
            forall|j: int| 0 <= j < i ==> slot_placed(#[trigger] slots@[j], *bounds, j, n as int, dpi),
        decreases n - i,
    {
        proof {
            let pitch = card_pitch(dpi);
            assert((i + 1) * pitch == i * pitch + pitch) by (nonlinear_arith);
            assert(i * pitch <= (n - 1) * pitch) by (nonlinear_arith)
                requires
                    i <= n - 1,
                    pitch >= 0,
            ;
            assert(i * pitch >= 0) by (nonlinear_arith)
                requires
                    i >= 0,
                    pitch >= 0,
            ;
            if i + 1 < n {
                assert((i + 1) * pitch <= (n - 1) * pitch) by (nonlinear_arith)
                    requires
                        i + 1 <= n - 1,
                        pitch >= 0,
                ;
            }
        }
        let bottom: i32 = top + card;
        let mut slot = CardSlot {
            card: Rect { left: bounds.left, top, right: bounds.right, bottom },
            separator: None,
        };
        if i + 1 < n {
            proof {
                crate::geometry::lemma_scaled_is_monotone(4, 14, dpi, dpi);
            }
            slot.separator = Some(separator_rect(bounds.left, bottom + line_gap, bounds.right));
            top = bottom + gap;
        }
        slots.push(slot);
        i += 1;
    }
    slots
}

/// The upper block of a card: where its dot, captions and countdown go.
#[derive(Clone, Copy, Debug)]
pub struct HeroLayout {
    pub block: Rect,
    pub glow: Rect,
    pub dot: Rect,
    pub label_x: i32,
    pub label_baseline: i32,
    pub email_right: i32,
    pub timer_x: i32,
    pub timer_baseline: i32,
    pub helper_x: i32,
    pub detail: Rect,
    pub divider: Rect,
    pub weekly: Rect,
    pub weekly_divider: Rect,
}

/// What the upper block of a card is laid out from: the measures of the captions'
/// bold font and of the countdown's font, and the width of the countdown.
#[derive(Clone, Copy, Debug)]
pub struct HeroMeasures {
    pub bold: FontMetrics,
    pub timer: FontMetrics,
    pub timer_width: i32,
}

impl HeroMeasures {
    pub open spec fn in_range(self) -> bool {
        self.bold.in_range() && self.timer.in_range() && valid_coord(self.timer_width as int)
    }

    /// Whether the measures leave room for the lengths that are added to them.
    pub fn is_in_range(&self) -> (r: bool)
        ensures
            r == self.in_range(),
    {
        self.bold.is_in_range() && self.timer.is_in_range() && crate::geometry::coord_in_range(
            self.timer_width,
        )
    }
}

/// The height of the row with the dot: that of the glow or of the caption.
pub open spec fn chip_height(m: HeroMeasures, dpi: u32) -> int {
    max_of(scaled(11, dpi), m.bold.height as int)
}

/// The line through the middle of the dot and the caption.
pub open spec fn chip_center(top: int, m: HeroMeasures, dpi: u32) -> int {
    top + scaled(18, dpi) + half(chip_height(m, dpi))
}

/// The upper edge of the countdown.
pub open spec fn timer_top(top: int, m: HeroMeasures, dpi: u32) -> int {
    top + scaled(18, dpi) + chip_height(m, dpi) + scaled(10, dpi)
}

/// Lays out the upper block of a card.
pub fn hero_layout(card: &Rect, m: &HeroMeasures, dpi: u32) -> (r: HeroLayout)
    requires
        card.in_range(),
        m.in_range(),
        valid_dpi(dpi),
    ensures
        ({
            let left = card.left as int;
            let right = card.right as int;
            let top = card.top as int;
            let inner_left = left + scaled(14, dpi);
            let hero_bottom = top + scaled(PANEL_HERO_H as int, dpi);
            let weekly_bottom = hero_bottom + scaled(PANEL_WEEKLY_H as int, dpi);
            let center = chip_center(top, *m, dpi);
            let dot = scaled(7, dpi);
            let glow = scaled(11, dpi);
            let glow_left = inner_left + half(dot) - half(glow);
            let glow_top = center - half(glow);
            let dot_top = center - half(dot);
            let detail_top = timer_top(top, *m, dpi) + m.timer.height + scaled(6, dpi);
            &&& rect_parts(r.block) == (left, top, right, hero_bottom)
            &&& rect_parts(r.glow) == (glow_left, glow_top, glow_left + glow, glow_top + glow)
            &&& rect_parts(r.dot) == (inner_left, dot_top, inner_left + dot, dot_top + dot)
            &&& r.label_x == inner_left + dot + scaled(7, dpi)
            &&& r.label_baseline == m.bold.centred(center)
            &&& r.email_right == right - scaled(14, dpi)
            &&& r.timer_x == inner_left
            &&& r.timer_baseline == timer_top(top, *m, dpi) + m.timer.ascent
            &&& r.helper_x == inner_left + m.timer_width + scaled(10, dpi)
            &&& rect_parts(r.detail) == (
                inner_left,
                detail_top,
                right - scaled(14, dpi),
                detail_top + scaled(20, dpi),
            )
            &&& rect_parts(r.divider) == line(left, hero_bottom, right)
            &&& rect_parts(r.weekly) == (left, hero_bottom, right, weekly_bottom)
            &&& rect_parts(r.weekly_divider) == line(left, weekly_bottom, right)
        }),
{
    let pad: i32 = sc(14, dpi);
    let inner_left: i32 = card.left + pad;
    let hero_bottom: i32 = card.top + sc(PANEL_HERO_H, dpi);
    let weekly_bottom: i32 = hero_bottom + sc(PANEL_WEEKLY_H, dpi);
    let dot: i32 = sc(7, dpi);
    let glow: i32 = sc(11, dpi);
    let row: i32 = if glow >= m.bold.height {
        glow
    } else {
        m.bold.height
    };
    let chip_top: i32 = card.top + sc(18, dpi);
    let center: i32 = chip_top + half_of(row);
    let dot_center: i32 = inner_left + half_of(dot);
    let glow_left: i32 = dot_center - half_of(glow);
    let glow_top: i32 = center - half_of(glow);
    let dot_top: i32 = center - half_of(dot);
    let timer_y: i32 = chip_top + row + sc(10, dpi);
    let detail_top: i32 = timer_y + m.timer.height + sc(6, dpi);
    HeroLayout {
        block: Rect { left: card.left, top: card.top, right: card.right, bottom: hero_bottom },
        glow: Rect {
            left: glow_left,
            top: glow_top,
            right: glow_left + glow,
            bottom: glow_top + glow,
        },
        dot: Rect { left: inner_left, top: dot_top, right: inner_left + dot, bottom: dot_top + dot },
        label_x: inner_left + dot + sc(7, dpi),
        label_baseline: m.bold.centred_on(center),
        email_right: card.right - pad,
        timer_x: inner_left,
        timer_baseline: timer_y + m.timer.ascent,
        helper_x: inner_left + m.timer_width + sc(10, dpi),
        detail: Rect {
            left: inner_left,
            top: detail_top,
            right: card.right - pad,
            bottom: detail_top + sc(20, dpi),
        },
        divider: separator_rect(card.left, hero_bottom, card.right),
        weekly: Rect {
            left: card.left,
            top: hero_bottom,
            right: card.right,
            bottom: weekly_bottom,
        },
        weekly_divider: separator_rect(card.left, weekly_bottom, card.right),
    }
}

/// The lower block of a card: where its captions and its bar go.
#[derive(Clone, Copy, Debug)]
pub struct WeeklyLayout {
    pub label_x: i32,
    pub label_baseline: i32,
    pub resets_x: i32,
    pub baseline: i32,
    pub percent_x: i32,
    pub suffix_x: i32,
    pub bar: Rect,
    pub bar_radius: i32,
}

/// What the lower block of a card is laid out from: the measures of the system's
/// font and of the bold font, and the widths of the captions.
#[derive(Clone, Copy, Debug)]
pub struct WeeklyMeasures {
    pub system: FontMetrics,
    pub bold: FontMetrics,
    pub label_width: i32,
    pub percent_width: i32,
    pub suffix_width: i32,
}

impl WeeklyMeasures {
    pub open spec fn in_range(self) -> bool {
        &&& self.system.in_range()
        &&& self.bold.in_range()
        &&& valid_coord(self.label_width as int)
        &&& valid_coord(self.percent_width as int)
        &&& valid_coord(self.suffix_width as int)
    }

    /// Whether the measures leave room for the lengths that are added to them.
    pub fn is_in_range(&self) -> (r: bool)
        ensures
            r == self.in_range(),
    {
        self.system.is_in_range() && self.bold.is_in_range() && crate::geometry::coord_in_range(
            self.label_width,
        ) && crate::geometry::coord_in_range(self.percent_width)
            && crate::geometry::coord_in_range(self.suffix_width)
    }
}

/// Lays out the lower block of a card.
pub fn weekly_layout(block: &Rect, m: &WeeklyMeasures, dpi: u32) -> (r: WeeklyLayout)
    requires
        block.in_range(),
        m.in_range(),
        valid_dpi(dpi),
    ensures
        ({
            let left = block.left + scaled(14, dpi);
            let right = block.right - scaled(14, dpi);
            let row = block.top + scaled(12, dpi);
            let center = row + half(m.system.height as int);
            let bar_top = row + m.system.height + scaled(10, dpi);
            &&& r.label_x == left
            &&& r.label_baseline == m.bold.centred(center)
            &&& r.resets_x == left + m.label_width
            &&& r.baseline == m.system.centred(center)
            &&& r.percent_x == right - m.suffix_width - m.percent_width
            &&& r.suffix_x == right - m.suffix_width
            &&& rect_parts(r.bar) == (left, bar_top, right, bar_top + scaled(6, dpi))
            &&& r.bar_radius == half(scaled(6, dpi))
        }),
{
    let left: i32 = block.left + sc(14, dpi);
    let right: i32 = block.right - sc(14, dpi);
    let row: i32 = block.top + sc(12, dpi);
    let center: i32 = row + half_of(m.system.height);
    let bar_top: i32 = row + m.system.height + sc(10, dpi);
    let bar_h: i32 = sc(6, dpi);
    let percent_x: i32 = right - m.suffix_width - m.percent_width;
    WeeklyLayout {
        label_x: left,
        label_baseline: m.bold.centred_on(center),
        resets_x: left + m.label_width,
        baseline: m.system.centred_on(center),
        percent_x,
        suffix_x: percent_x + m.percent_width,
        bar: Rect { left, top: bar_top, right, bottom: bar_top + bar_h },
        bar_radius: half_of(bar_h),
    }
}

/// The filled part of a bar: `fill` pixels from the left, none where that is too
/// short for the round ends.
pub fn bar_fill(bar: &Rect, radius: i32, fill: i32) -> (r: Option<Rect>)
    requires
        i32::MIN <= bar.left + fill <= i32::MAX,
    ensures
        r == if fill > radius {
            Some(Rect { right: (bar.left + fill) as i32, ..*bar })
        } else {
            None
        },
{
    if fill > radius {
        Some(Rect { left: bar.left, top: bar.top, right: bar.left + fill, bottom: bar.bottom })
    } else {
        None
    }
}

/// The widget's row: the handle, the captions and the bar.
#[derive(Clone, Copy, Debug)]
pub struct WidgetLayout {
    pub divider: Rect,
    pub divider_radius: i32,
    pub text: Rect,
    pub bar: Rect,
    pub bar_radius: i32,
}

/// The upper edge of the widget's row: it is centred in the widget.
pub open spec fn row_top(height: int, dpi: u32) -> int {
    half(height - (scaled(14, dpi) + scaled(5, dpi) + scaled(8, dpi)))
}

/// Lays out the widget's row.
pub fn widget_layout(width: i32, height: i32, dpi: u32) -> (r: WidgetLayout)
    requires
        valid_coord(width as int),
        valid_coord(height as int),
        valid_dpi(dpi),
    ensures
        ({
            let handle_top = half(height - scaled(25, dpi));
            let left = scaled(LEFT_DIVIDER_W as int, dpi) + scaled(
                DIVIDER_RIGHT_MARGIN as int,
                dpi,
            );
            let right = width - scaled(BAR_RIGHT_MARGIN as int, dpi) - scaled(
                RIGHT_MARGIN as int,
                dpi,
            );
            let top = row_top(height as int, dpi);
            let bar_top = top + scaled(14, dpi) + scaled(5, dpi);
            &&& rect_parts(r.divider) == (
                0int,
                handle_top,
                scaled(3, dpi),
                handle_top + scaled(25, dpi),
            )
            &&& r.divider_radius == half(scaled(3, dpi))
            &&& rect_parts(r.text) == (left, top, right, top + scaled(14, dpi))
            &&& rect_parts(r.bar) == (left, bar_top, right, bar_top + scaled(8, dpi))
            &&& r.bar_radius == half(scaled(8, dpi))
        }),
{
    let divider_h: i32 = sc(25, dpi);
    let divider_top: i32 = half_of(height - divider_h);
    let divider_w: i32 = sc(3, dpi);
    let left: i32 = sc(LEFT_DIVIDER_W, dpi) + sc(DIVIDER_RIGHT_MARGIN, dpi);
    let bar_w: i32 = width - left - sc(BAR_RIGHT_MARGIN, dpi) - sc(RIGHT_MARGIN, dpi);
    let bar_h: i32 = sc(8, dpi);
    let text_h: i32 = sc(14, dpi);
    let gap: i32 = sc(5, dpi);
    let top: i32 = half_of(height - (text_h + gap + bar_h));
    let bar_top: i32 = top + text_h + gap;
    WidgetLayout {
        divider: Rect {
            left: 0,
            top: divider_top,
            right: divider_w,
            bottom: divider_top + divider_h,
        },
        divider_radius: half_of(divider_w),
        text: Rect { left, top, right: left + bar_w, bottom: top + text_h },
        bar: Rect { left, top: bar_top, right: left + bar_w, bottom: bar_top + bar_h },
        bar_radius: half_of(bar_h),
    }
}

/// In a widget of its own size the bar is as wide as its segments with the gaps
/// between them.
pub proof fn lemma_bar_is_as_wide_as_its_segments(dpi: u32)
    ensures
        crate::geometry::widget_width(1, dpi) - scaled(BAR_RIGHT_MARGIN as int, dpi) - scaled(
            RIGHT_MARGIN as int,
            dpi,
        ) - (scaled(LEFT_DIVIDER_W as int, dpi) + scaled(DIVIDER_RIGHT_MARGIN as int, dpi))
            == crate::geometry::SEGMENT_COUNT * scaled(crate::geometry::SEGMENT_W as int, dpi) + (
        crate::geometry::SEGMENT_COUNT - 1) * scaled(crate::geometry::SEGMENT_GAP as int, dpi),
{
}

/// One arc of a rounded outline: the box around its circle, and the angle at which
/// it begins, in degrees. Each arc covers a right angle.
#[derive(Clone, Copy, Debug, PartialEq, Eq, Structural)]
pub struct Arc {
    pub x: i32,
    pub y: i32,
    pub diameter: i32,
    pub start: i32,
}

pub open spec fn arc_parts(a: Arc) -> (int, int, int, int) {
    (a.x as int, a.y as int, a.diameter as int, a.start as int)
}

/// The outline of a rectangle with round corners, clockwise from the upper left.
pub fn round_path(rect: &Rect, radius: i32) -> (r: Vec<Arc>)
    requires
        fits(2 * radius),
        fits(rect.right - 2 * radius),
        fits(rect.bottom - 2 * radius),
    ensures
        r@.len() == 4,
        arc_parts(r@[0]) == (rect.left as int, rect.top as int, 2 * radius, 180int),
        arc_parts(r@[1]) == (rect.right - 2 * radius, rect.top as int, 2 * radius, 270int),
        arc_parts(r@[2]) == (rect.right - 2 * radius, rect.bottom - 2 * radius, 2 * radius, 0int),
        arc_parts(r@[3]) == (rect.left as int, rect.bottom - 2 * radius, 2 * radius, 90int),
{
    let d: i32 = radius * 2;
    let mut arcs: Vec<Arc> = Vec::new();
    arcs.push(Arc { x: rect.left, y: rect.top, diameter: d, start: 180 });
    arcs.push(Arc { x: rect.right - d, y: rect.top, diameter: d, start: 270 });
    arcs.push(Arc { x: rect.right - d, y: rect.bottom - d, diameter: d, start: 0 });
    arcs.push(Arc { x: rect.left, y: rect.bottom - d, diameter: d, start: 90 });
    arcs
}

/// A placeholder for data that is not there yet: its place, whether it is in its
/// bright phase, and the diameter of its round ends.
#[derive(Clone, Copy, Debug)]
pub struct Bone {
    pub rect: Rect,
    pub bright: bool,
    pub rounding: i32,
}

/// The rounding of a placeholder: its height, but at least a pixel.
pub open spec fn bone_of(
    bone: Bone,
    left: int,
    top: int,
    right: int,
    bottom: int,
    bright: bool,
) -> bool {
    &&& rect_parts(bone.rect) == (left, top, right, bottom)
    &&& bone.bright == bright
    &&& bone.rounding == max_of(bottom - top, 1)
}

fn bone(left: i32, top: i32, right: i32, bottom: i32, bright: bool) -> (r: Bone)
    requires
        i32::MIN <= bottom - top <= i32::MAX,
    ensures
        bone_of(r, left as int, top as int, right as int, bottom as int, bright),
{
    let height: i32 = bottom - top;
    Bone {
        rect: Rect { left, top, right, bottom },
        bright,
        rounding: if height >= 1 {
            height
        } else {
            1
        },
    }
}

/// The three placeholders of a row that begins at `top`, between `left` and `right`.
pub open spec fn bone_row(
    bones: Seq<Bone>,
    at: int,
    left: int,
    right: int,
    top: int,
    bright: bool,
    dpi: u32,
) -> bool {
    let width = right - left - scaled(52, dpi) - scaled(8, dpi);
    &&& bone_of(
        bones[at],
        left,
        top,
        left + width - scaled(20, dpi),
        top + scaled(12, dpi),
        bright,
    )
    &&& bone_of(
        bones[at + 1],
        left,
        top + scaled(15, dpi),
        left + width - scaled(50, dpi),
        top + scaled(25, dpi),
        !bright,
    )
    &&& bone_of(
        bones[at + 2],
        right - scaled(52, dpi) + scaled(6, dpi),
        top,
        right,
        top + scaled(24, dpi),
        bright,
    )
}

/// The placeholders of a card whose data is not there yet: two rows of three.
pub fn skeleton_rows(left: i32, right: i32, card_top: i32, bright: bool, dpi: u32) -> (r: Vec<Bone>)
    requires
        valid_coord(left as int),
        valid_coord(right as int),
        valid_coord(card_top as int),
        valid_dpi(dpi),
    ensures
        r@.len() == 6,
        bone_row(
            r@,
            0,
            left as int,
            right as int,
            card_top + scaled(34, dpi),
            bright,
            dpi,
        ),
        bone_row(
            r@,
            3,
            left as int,
            right as int,
            card_top + scaled(72, dpi),
            bright,
            dpi,
        ),
{
    let percent_w: i32 = sc(52, dpi);
    let width: i32 = right - left - percent_w - sc(8, dpi);
    let long: i32 = left + width - sc(20, dpi);
    let short: i32 = left + width - sc(50, dpi);
    let percent_left: i32 = right - percent_w + sc(6, dpi);
    let upper: i32 = card_top + sc(34, dpi);
    let lower: i32 = card_top + sc(72, dpi);
    let mut bones: Vec<Bone> = Vec::new();
    bones.push(bone(left, upper, long, upper + sc(12, dpi), bright));
    bones.push(bone(left, upper + sc(15, dpi), short, upper + sc(25, dpi), !bright));
    bones.push(bone(percent_left, upper, right, upper + sc(24, dpi), bright));
    bones.push(bone(left, lower, long, lower + sc(12, dpi), bright));
    bones.push(bone(left, lower + sc(15, dpi), short, lower + sc(25, dpi), !bright));
    bones.push(bone(percent_left, lower, right, lower + sc(24, dpi), bright));
    bones
}

} // verus!
