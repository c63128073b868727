use usage_monitor::geometry::active_model_count;
use usage_monitor::geometry::compute_anchor_y;
use usage_monitor::geometry::coord_in_range;
use usage_monitor::geometry::current_panel_size;
use usage_monitor::geometry::dpi_in_range;
use usage_monitor::geometry::drag_fits;
use usage_monitor::geometry::drag_offset;
use usage_monitor::geometry::drag_offset_on;
use usage_monitor::geometry::hiword;
use usage_monitor::geometry::loword;
use usage_monitor::geometry::panel_size_for_models;
use usage_monitor::geometry::place_panel;
use usage_monitor::geometry::place_popup;
use usage_monitor::geometry::place_widget;
use usage_monitor::geometry::point_in_rect;
use usage_monitor::geometry::popup_text_rect;
use usage_monitor::geometry::refreshed_dpi;
use usage_monitor::geometry::row_bar_segment_count;
use usage_monitor::geometry::sc;
use usage_monitor::geometry::total_widget_width;
use usage_monitor::geometry::total_widget_width_for;
use usage_monitor::geometry::widget_fits;
use usage_monitor::geometry::word_coord;
use usage_monitor::geometry::Placement;
use usage_monitor::geometry::Rect;
use usage_monitor::geometry::TaskbarGeometry;

fn taskbar() -> TaskbarGeometry {
    TaskbarGeometry {
        rect: Rect { left: 0, top: 1040, right: 1920, bottom: 1080 },
        tray_left: Some(1700),
    }
}

#[test]
fn lengths_scale_with_the_dpi() {
    assert_eq!(sc(10, 96), 10);
    assert_eq!(sc(10, 144), 15);
    assert_eq!(sc(3, 144), 5);
    assert_eq!(sc(-3, 144), -5);
    assert_eq!(sc(1, 120), 1);
    assert_eq!(sc(2, 120), 3);
    assert_eq!(sc(46, 192), 92);
    assert_eq!(sc(i32::MAX, 192), i32::MAX);
    assert_eq!(sc(i32::MIN, 192), i32::MIN);
    assert_eq!(sc(13, 0), 0);
}

#[test]
fn scaling_agrees_with_rounding_in_floating_point() {
    for px in [-28, -13, -12, 0, 1, 3, 4, 7, 13, 46, 182, 390] {
        for dpi in [0, 72, 96, 97, 110, 120, 144, 168, 192, 240, 288, 480] {
            let expected = (px as f64 * dpi as f64 / 96.0).round() as i32;
            assert_eq!(sc(px, dpi), expected, "{px} at {dpi}");
        }
    }
}

#[test]
fn no_answer_keeps_the_dpi() {
    assert_eq!(refreshed_dpi(120, 144), 144);
    assert_eq!(refreshed_dpi(120, 0), 120);
}

#[test]
fn ranges_are_told() {
    assert!(dpi_in_range(480));
    assert!(!dpi_in_range(u32::MAX));
    assert!(coord_in_range(-32768));
    assert!(!coord_in_range(i32::MIN));
    assert!(taskbar().is_in_range());
    assert!(!Rect { left: 0, top: 0, right: i32::MAX, bottom: 0 }.is_in_range());
}

#[test]
fn words_are_read_as_signed_coordinates() {
    assert_eq!(loword(0xFFFF_0005), 5);
    assert_eq!(hiword(0xFFFF_0005), 0xFFFF);
    assert_eq!(word_coord(5), 5);
    assert_eq!(word_coord(0xFFFF), -1);
    assert_eq!(word_coord(0x8000), -32768);
}

#[test]
fn right_and_lower_edges_lie_outside() {
    let rect = Rect { left: 10, top: 20, right: 30, bottom: 40 };
    assert!(point_in_rect(10, 20, &rect));
    assert!(point_in_rect(29, 39, &rect));
    assert!(!point_in_rect(30, 39, &rect));
    assert!(!point_in_rect(29, 40, &rect));
    assert_eq!(rect.width(), 20);
    assert_eq!(rect.height(), 20);
}

#[test]
fn widget_and_panel_have_their_sizes() {
    assert_eq!(active_model_count(), 1);
    assert_eq!(row_bar_segment_count(1), 10);
    assert_eq!(row_bar_segment_count(2), 5);
    assert_eq!(total_widget_width(96), 3 + 10 + 17 * 10 - 1 + 4 + 1);
    assert_eq!(total_widget_width_for(2, 96), 3 + 10 + 17 * 5 - 1 + 4 + 1);
    assert_eq!(panel_size_for_models(1, 96), (390, 228));
    assert_eq!(panel_size_for_models(2, 96), (390, 424));
    assert_eq!(current_panel_size(192), (780, 456));
}

#[test]
fn widget_is_anchored_to_the_lower_edge() {
    assert_eq!(compute_anchor_y(1032, 48, 46), 1034);
    assert_eq!(compute_anchor_y(1040, 40, 46), 1040);
}

#[test]
fn widget_stands_left_of_the_notification_area() {
    let width = total_widget_width(96);
    assert_eq!(
        place_widget(&taskbar(), true, 20, 96),
        Placement { x: 1700 - width - 20, y: 0, width, height: 46 }
    );
    assert_eq!(
        place_widget(&taskbar(), false, 0, 96),
        Placement { x: 1700 - width, y: 1040, width, height: 46 }
    );
    let bare = TaskbarGeometry { tray_left: None, ..taskbar() };
    assert_eq!(place_widget(&bare, false, 0, 96).x, 1920 - width);
}

#[test]
fn dragged_widget_stays_on_the_taskbar() {
    let width = total_widget_width(96);
    assert_eq!(drag_offset_on(&taskbar(), 100, 500, 450, 96), 150);
    assert_eq!(drag_offset_on(&taskbar(), 100, 500, 5000, 96), 0);
    assert_eq!(drag_offset_on(&taskbar(), 100, 5000, 0, 96), 1700 - width);
    assert_eq!(drag_offset(100, 500, 450), 150);
    assert_eq!(drag_offset(100, 500, 900), 0);
    assert_eq!(drag_offset(100, 50000, 0), 50100);
    assert_eq!(place_widget(&taskbar(), true, 1700 - width, 96).x, 0);
}

#[test]
fn panel_opens_above_the_widget_and_on_the_screen() {
    let widget = Rect { left: 1500, top: 1040, right: 1680, bottom: 1080 };
    assert_eq!(
        place_panel(&widget, 1920, 1080, 96),
        Placement { x: 1290, y: 804, width: 390, height: 228 }
    );
    let upper = Rect { left: 100, top: 0, right: 280, bottom: 46 };
    assert_eq!(
        place_panel(&upper, 1920, 1080, 96),
        Placement { x: 0, y: 54, width: 390, height: 228 }
    );
}

#[test]
fn popup_keeps_clear_of_the_left_edge() {
    let widget = Rect { left: 1500, top: 1040, right: 1680, bottom: 1080 };
    assert_eq!(
        place_popup(&widget, 300, 16, 96),
        Placement { x: 1368, y: 1012, width: 312, height: 24 }
    );
    assert_eq!(place_popup(&widget, 2000, 16, 96).x, 0);
    let client = Rect { left: 0, top: 0, right: 312, bottom: 24 };
    assert_eq!(
        popup_text_rect(&client),
        Rect { left: 6, top: 4, right: 306, bottom: 20 }
    );
}

#[test]
fn far_offsets_are_placed_as_long_as_they_fit() {
    let width = total_widget_width(96);
    assert!(widget_fits(&taskbar(), false, 1_000_000_000, 96));
    assert_eq!(
        place_widget(&taskbar(), false, 1_000_000_000, 96).x,
        1700 - width - 1_000_000_000
    );
    assert!(widget_fits(&taskbar(), true, i32::MAX, 96));
    assert!(!widget_fits(&taskbar(), true, i32::MIN, 96));
    assert!(drag_fits(i32::MAX, 0, 0));
    assert!(!drag_fits(i32::MAX, 1, 0));
    assert_eq!(drag_offset(i32::MAX, 5, 10), i32::MAX - 5);
    assert_eq!(drag_offset_on(&taskbar(), i32::MIN, 0, 0, 96), 0);
}
