use usage_monitor::geometry::total_widget_width;
use usage_monitor::geometry::Rect;
use usage_monitor::layout::bar_fill;
use usage_monitor::layout::card_slots;
use usage_monitor::layout::hero_layout;
use usage_monitor::layout::panel_frame;
use usage_monitor::layout::round_path;
use usage_monitor::layout::separator_rect;
use usage_monitor::layout::skeleton_rows;
use usage_monitor::layout::weekly_layout;
use usage_monitor::layout::widget_layout;
use usage_monitor::layout::Arc;
use usage_monitor::layout::FontMetrics;
use usage_monitor::layout::HeaderWidths;
use usage_monitor::layout::HeroMeasures;
use usage_monitor::layout::WeeklyMeasures;

fn rect(left: i32, top: i32, right: i32, bottom: i32) -> Rect {
    Rect { left, top, right, bottom }
}

fn font(height: i32, ascent: i32, internal_leading: i32) -> FontMetrics {
    FontMetrics { height, ascent, internal_leading }
}

#[test]
fn header_is_laid_out_in_a_row() {
    let widths = HeaderWidths { product: 70, badge: 25, separator: 8 };
    assert!(widths.is_in_range());
    let frame = panel_frame(&rect(0, 0, 390, 228), &widths, 96);
    assert_eq!(frame.product, rect(14, 5, 84, 45));
    assert_eq!(frame.badge, rect(90, 17, 135, 33));
    assert_eq!(frame.badge_radius, 8);
    assert_eq!(frame.separator, rect(135, 5, 143, 45));
    assert_eq!(frame.status, rect(143, 5, 281, 45));
    assert_eq!(frame.divider, rect(0, 45, 390, 46));
    assert_eq!(frame.content, rect(0, 46, 390, 228));
    assert_eq!(frame.border, rect(0, 0, 389, 227));
    assert_eq!(frame.border_radius, 10);
}

#[test]
fn cards_stand_below_each_other() {
    let bounds = rect(0, 46, 390, 424);
    assert!(card_slots(0, &bounds, 96).is_empty());
    let one = card_slots(1, &bounds, 96);
    assert_eq!(one.len(), 1);
    assert_eq!(one[0].card, rect(0, 46, 390, 228));
    assert_eq!(one[0].separator, None);
    let two = card_slots(2, &bounds, 96);
    assert_eq!(two[0].separator, Some(rect(0, 232, 390, 233)));
    assert_eq!(two[1].card, rect(0, 242, 390, 424));
    assert_eq!(two[1].separator, None);
}

#[test]
fn hero_block_is_laid_out() {
    let measures =
        HeroMeasures { bold: font(16, 13, 3), timer: font(33, 26, 5), timer_width: 80 };
    assert!(measures.is_in_range());
    let hero = hero_layout(&rect(0, 46, 390, 228), &measures, 96);
    assert_eq!(hero.block, rect(0, 46, 390, 166));
    assert_eq!(hero.glow, rect(12, 67, 23, 78));
    assert_eq!(hero.dot, rect(14, 69, 21, 76));
    assert_eq!(hero.label_x, 28);
    assert_eq!(hero.label_baseline, 77);
    assert_eq!(hero.email_right, 376);
    assert_eq!(hero.timer_x, 14);
    assert_eq!(hero.timer_baseline, 116);
    assert_eq!(hero.helper_x, 104);
    assert_eq!(hero.detail, rect(14, 129, 376, 149));
    assert_eq!(hero.divider, rect(0, 166, 390, 167));
    assert_eq!(hero.weekly, rect(0, 166, 390, 228));
    assert_eq!(hero.weekly_divider, rect(0, 228, 390, 229));
}

#[test]
fn weekly_block_is_laid_out() {
    let measures = WeeklyMeasures {
        system: font(15, 12, 3),
        bold: font(16, 13, 2),
        label_width: 50,
        percent_width: 30,
        suffix_width: 60,
    };
    assert!(measures.is_in_range());
    let weekly = weekly_layout(&rect(0, 166, 390, 228), &measures, 96);
    assert_eq!(weekly.label_x, 14);
    assert_eq!(weekly.label_baseline, 190);
    assert_eq!(weekly.resets_x, 64);
    assert_eq!(weekly.baseline, 189);
    assert_eq!(weekly.percent_x, 286);
    assert_eq!(weekly.suffix_x, 316);
    assert_eq!(weekly.bar, rect(14, 203, 376, 209));
    assert_eq!(weekly.bar_radius, 3);
}

#[test]
fn short_fills_are_left_out() {
    let bar = rect(14, 203, 376, 209);
    assert_eq!(bar_fill(&bar, 3, 3), None);
    assert_eq!(bar_fill(&bar, 3, 4), Some(rect(14, 203, 18, 209)));
    assert_eq!(bar_fill(&bar, 3, 362), Some(bar));
}

#[test]
fn widget_row_is_laid_out() {
    let width = total_widget_width(96);
    let widget = widget_layout(width, 46, 96);
    assert_eq!(widget.divider, rect(0, 10, 3, 35));
    assert_eq!(widget.divider_radius, 1);
    assert_eq!(widget.text, rect(13, 9, 182, 23));
    assert_eq!(widget.bar, rect(13, 28, 182, 36));
    assert_eq!(widget.bar_radius, 4);
    assert_eq!(widget.bar.width(), 10 * 16 + 9);
}

#[test]
fn low_widgets_are_centred_too() {
    let widget = widget_layout(187, 20, 96);
    assert_eq!(widget.divider.top, -2);
    assert_eq!(widget.text.top, -3);
}

#[test]
fn outlines_go_round_the_corners() {
    assert_eq!(
        round_path(&rect(10, 20, 110, 70), 8),
        vec![
            Arc { x: 10, y: 20, diameter: 16, start: 180 },
            Arc { x: 94, y: 20, diameter: 16, start: 270 },
            Arc { x: 94, y: 54, diameter: 16, start: 0 },
            Arc { x: 10, y: 54, diameter: 16, start: 90 },
        ]
    );
    assert_eq!(separator_rect(1, 2, 3), rect(1, 2, 3, 3));
}

#[test]
fn placeholders_take_the_place_of_data() {
    let bones = skeleton_rows(14, 376, 46, true, 96);
    assert_eq!(bones.len(), 6);
    assert_eq!(bones[0].rect, rect(14, 80, 296, 92));
    assert_eq!((bones[0].bright, bones[0].rounding), (true, 12));
    assert_eq!(bones[1].rect, rect(14, 95, 266, 105));
    assert_eq!((bones[1].bright, bones[1].rounding), (false, 10));
    assert_eq!(bones[2].rect, rect(330, 80, 376, 104));
    assert_eq!(bones[3].rect, rect(14, 118, 296, 130));
    assert_eq!(bones[5].rect, rect(330, 118, 376, 142));
}
