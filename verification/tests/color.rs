use usage_monitor::color::apply_layer_alpha;
use usage_monitor::color::button_look;
use usage_monitor::color::claude_accent_color;
use usage_monitor::color::glow_color;
use usage_monitor::color::gradient_channels;
use usage_monitor::color::layered_pixel;
use usage_monitor::color::panel_alpha;
use usage_monitor::color::panel_style;
use usage_monitor::color::skeleton_color;
use usage_monitor::color::status_dot_color;
use usage_monitor::color::to_gdip_argb;
use usage_monitor::color::unlayered_style;
use usage_monitor::color::widget_colors;
use usage_monitor::color::Color;
use usage_monitor::color::PanelColors;
use usage_monitor::models::Percent;
use usage_monitor::panel::PanelButtonVisualState;
use usage_monitor::sections::SessionState;
use usage_monitor::settings::PanelBackground;

fn percent(p: f64) -> Percent {
    Percent { bits: p.to_bits() }
}

#[test]
fn colors_become_numbers() {
    let c = Color::new(0x12, 0x34, 0x56);
    assert_eq!(c.to_colorref(), 0x0056_3412);
    assert_eq!(to_gdip_argb(c), 0xFF12_3456);
    assert_eq!(claude_accent_color(), Color::new(0xD9, 0x77, 0x57));
    assert_eq!(gradient_channels(c), (0x1200, 0x3400, 0x5600));
}

#[test]
fn palettes_follow_the_theme() {
    let dark = PanelColors::new(true);
    let light = PanelColors::new(false);
    assert_eq!(dark.bg, Color::new(0x1C, 0x1C, 0x1E));
    assert_eq!(light.bg, Color::new(0xF2, 0xF2, 0xF7));
    assert_eq!(dark.session_accent(SessionState::Capped), dark.red);
    assert_eq!(dark.session_accent(SessionState::SlowingDown), dark.amber);
    assert_eq!(dark.session_accent(SessionState::GoingSteady), dark.green);
    assert_eq!(dark.session_accent(SessionState::PlentyLeft), dark.green);
    assert_eq!(light.session_soft(SessionState::Capped), light.red_soft);
    assert_eq!(light.session_soft(SessionState::SlowingDown), light.amber_soft);
    assert_eq!(light.session_soft(SessionState::GoingSteady), light.green_soft);
    let widget = widget_colors(true, percent(90.0));
    assert_eq!(widget.accent, dark.amber);
    assert_eq!(widget.track, dark.amber_soft);
    assert_eq!(widget.text, Color::new(0x88, 0x88, 0x88));
    assert_eq!(widget.background, Color::new(0x1C, 0x1C, 0x1C));
    assert_eq!(widget.divider, Color::new(80, 80, 80));
    let widget = widget_colors(false, percent(10.0));
    assert_eq!(widget.accent, light.green);
    assert_eq!(widget.text, Color::new(0x40, 0x40, 0x40));
    assert_eq!(widget.background, Color::new(0xF3, 0xF3, 0xF3));
    assert_eq!(widget.divider, Color::new(160, 160, 160));
}

#[test]
fn mixed_colors_are_exact() {
    let accent = Color::new(201, 54, 54);
    let soft = Color::new(58, 26, 26);
    assert_eq!(
        status_dot_color(SessionState::Capped, false, accent, soft),
        Color::new(136, 41, 41)
    );
    assert_eq!(status_dot_color(SessionState::Capped, true, accent, soft), accent);
    assert_eq!(status_dot_color(SessionState::SlowingDown, false, accent, soft), accent);
    assert_eq!(glow_color(accent, soft), Color::new(93, 32, 32));
    let base = Color::new(0x2C, 250, 235);
    assert_eq!(skeleton_color(base, true), Color::new(0x40, 255, 255));
    assert_eq!(skeleton_color(base, false), base);
}

#[test]
fn buttons_light_up_under_the_pointer() {
    let colors = PanelColors::new(true);
    let normal = button_look(false, PanelButtonVisualState::Normal, &colors);
    assert_eq!((normal.icon, normal.background), (colors.muted, None));
    let hot = button_look(false, PanelButtonVisualState::Hot, &colors);
    assert_eq!((hot.icon, hot.background), (colors.text, Some(colors.bg_soft)));
    let pressed = button_look(false, PanelButtonVisualState::Pressed, &colors);
    assert_eq!((pressed.icon, pressed.background), (colors.text, Some(colors.bg_soft)));
    let disabled = button_look(false, PanelButtonVisualState::Disabled, &colors);
    assert_eq!((disabled.icon, disabled.background), (colors.dim, None));
    let pinned = button_look(true, PanelButtonVisualState::Normal, &colors);
    assert_eq!((pinned.icon, pinned.background), (claude_accent_color(), None));
}

#[test]
fn background_pixels_are_all_but_see_through() {
    assert_eq!(layered_pixel(0x001C_1C1C, 0x001C_1C1C), 0x0100_0000);
    assert_eq!(layered_pixel(0xAB1C_1C1C, 0x001C_1C1C), 0x0100_0000);
    assert_eq!(layered_pixel(0x0012_3456, 0x001C_1C1C), 0xFF12_3456);
    let mut pixels = vec![0x001C_1C1C, 0x00FF_FFFF, 0x001C_1C1C];
    apply_layer_alpha(&mut pixels, 0x001C_1C1C);
    assert_eq!(pixels, vec![0x0100_0000, 0xFFFF_FFFF, 0x0100_0000]);
}

#[test]
fn translucent_panels_are_layered() {
    assert_eq!(panel_style(0x0000_0088, PanelBackground::Translucent), 0x0008_0088);
    assert_eq!(panel_style(0x0008_0088, PanelBackground::Solid), 0x0000_0088);
    assert_eq!(panel_style(0x0000_0088, PanelBackground::Solid), 0x0000_0088);
    assert_eq!(panel_alpha(PanelBackground::Translucent), Some(242));
    assert_eq!(panel_alpha(PanelBackground::Solid), None);
    assert_eq!(unlayered_style(0x0008_0088), Some(0x0000_0088));
    assert_eq!(unlayered_style(0x0000_0088), None);
}
