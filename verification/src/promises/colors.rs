//! The colours on display, and the opacity of the windows.

use crate::color::apply_layer_alpha;
use crate::color::button_look;
use crate::color::claude_accent_color;
use crate::color::glow_color;
use crate::color::gradient_channels;
use crate::color::layered_pixel;
use crate::color::panel_alpha;
use crate::color::panel_style;
use crate::color::skeleton_color;
use crate::color::status_dot_color;
use crate::color::to_gdip_argb;
use crate::color::unlayered_style;
use crate::color::widget_colors;
use crate::color::ButtonLook;
use crate::color::Color;
use crate::color::PanelColors;
use crate::color::WidgetColors;
use crate::models::Percent;
use crate::panel::PanelButtonVisualState;
use crate::sections::state_from_utilization;
use crate::sections::SessionState;
use crate::settings::PanelBackground;
use vstd::prelude::*;

verus! {

/// A colour is the one with the given parts.
pub open spec fn is_rgb(c: Color, r: int, g: int, b: int) -> bool {
    c.r == r && c.g == g && c.b == b
}

/// The colours of the dark theme.
pub proof fn dark_panel_has_its_colors(c: PanelColors)
    requires
        call_ensures(PanelColors::new, (true,), c),
    ensures
        is_rgb(c.bg, 0x1C, 0x1C, 0x1E),
        is_rgb(c.bg_soft, 0x2C, 0x2C, 0x2E),
        is_rgb(c.border, 0x3A, 0x3A, 0x3C),
        is_rgb(c.divider, 0x2C, 0x2C, 0x2E),
        is_rgb(c.text, 0xF2, 0xF2, 0xF2),
        is_rgb(c.muted, 0x8E, 0x8E, 0x93),
        is_rgb(c.dim, 0x63, 0x63, 0x66),
        is_rgb(c.badge_border, 0x9E, 0x50, 0x20),
        is_rgb(c.badge_text, 0xC8, 0x78, 0x38),
        is_rgb(c.red, 0xC9, 0x36, 0x36),
        is_rgb(c.red_soft, 0x3A, 0x1A, 0x1A),
        is_rgb(c.amber, 0xD9, 0x6B, 0x37),
        is_rgb(c.amber_soft, 0x3A, 0x22, 0x10),
        is_rgb(c.green, 0x8F, 0xCB, 0x9B),
        is_rgb(c.green_soft, 0x1A, 0x2E, 0x20),
{
}

/// The colours of the light theme.
pub proof fn light_panel_has_its_colors(c: PanelColors)
    requires
        call_ensures(PanelColors::new, (false,), c),
    ensures
        is_rgb(c.bg, 0xF2, 0xF2, 0xF7),
        is_rgb(c.bg_soft, 0xE5, 0xE5, 0xEA),
        is_rgb(c.border, 0xC6, 0xC6, 0xC8),
        is_rgb(c.divider, 0xD1, 0xD1, 0xD6),
        is_rgb(c.text, 0x1C, 0x1C, 0x1E),
        is_rgb(c.muted, 0x6C, 0x6C, 0x70),
        is_rgb(c.dim, 0x8E, 0x8E, 0x93),
        is_rgb(c.badge_border, 0xC4, 0x65, 0x1A),
        is_rgb(c.badge_text, 0x8B, 0x40, 0x10),
        is_rgb(c.red, 0xC9, 0x36, 0x36),
        is_rgb(c.red_soft, 0xFC, 0xEA, 0xEA),
        is_rgb(c.amber, 0xD9, 0x6B, 0x37),
        is_rgb(c.amber_soft, 0xFD, 0xF0, 0xE7),
        is_rgb(c.green, 0x2F, 0x7D, 0x48),
        is_rgb(c.green_soft, 0xEB, 0xF7, 0xEE),
{
}

/// A session is shown in green while there is something left, in amber when it slows
/// down, and in red when it is capped; the soft colours go with the strong ones.
pub proof fn session_states_have_their_colors(
    colors: PanelColors,
    state: SessionState,
    accent: Color,
    soft: Color,
)
    requires
        call_ensures(PanelColors::session_accent, (&colors, state), accent),
        call_ensures(PanelColors::session_soft, (&colors, state), soft),
    ensures
        state is PlentyLeft || state is GoingSteady ==> accent == colors.green && soft
            == colors.green_soft,
        state is SlowingDown ==> accent == colors.amber && soft == colors.amber_soft,
        state is Capped ==> accent == colors.red && soft == colors.red_soft,
{
}

/// The widget's bar has the colours of its session's state in the theme; its text,
/// background and handle are gray.
pub proof fn widget_has_its_colors(
    is_dark: bool,
    session: Percent,
    colors: PanelColors,
    state: SessionState,
    accent: Color,
    soft: Color,
    r: WidgetColors,
)
    requires
        call_ensures(widget_colors, (is_dark, session), r),
        call_ensures(PanelColors::new, (is_dark,), colors),
        call_ensures(state_from_utilization, (Some(session),), state),
        call_ensures(PanelColors::session_accent, (&colors, state), accent),
        call_ensures(PanelColors::session_soft, (&colors, state), soft),
    ensures
        r.accent == accent,
        r.track == soft,
        is_dark ==> is_rgb(r.text, 0x88, 0x88, 0x88) && is_rgb(r.background, 0x1C, 0x1C, 0x1C)
            && is_rgb(r.divider, 80, 80, 80),
        !is_dark ==> is_rgb(r.text, 0x40, 0x40, 0x40) && is_rgb(r.background, 0xF3, 0xF3, 0xF3)
            && is_rgb(r.divider, 160, 160, 160),
{
}

/// A channel that is mixed of 140 parts of one and 115 of another, rounded down.
pub open spec fn is_faded(c: u8, accent: u8, soft: u8) -> bool {
    255 * c <= 140 * accent + 115 * soft < 255 * c + 255
}

/// The dot of a capped session pulses towards its soft colour; every other dot is in
/// the accent. Its halo is a quarter of the accent.
pub proof fn dot_pulses_when_capped(
    state: SessionState,
    bright: bool,
    accent: Color,
    soft: Color,
    dot: Color,
    halo: Color,
)
    requires
        call_ensures(status_dot_color, (state, bright, accent, soft), dot),
        call_ensures(glow_color, (accent, soft), halo),
    ensures
        !(state is Capped) || bright ==> dot == accent,
        state is Capped && !bright ==> is_faded(dot.r, accent.r, soft.r) && is_faded(
            dot.g,
            accent.g,
            soft.g,
        ) && is_faded(dot.b, accent.b, soft.b),
        halo.r == accent.r / 4 + 3 * soft.r / 4,
        halo.g == accent.g / 4 + 3 * soft.g / 4,
        halo.b == accent.b / 4 + 3 * soft.b / 4,
{
}

/// A channel twenty steps up, as far as it goes.
pub open spec fn is_brighter(c: u8, base: u8) -> bool {
    c == base + 20 || (c == 255 && base + 20 > 255)
}

/// A placeholder is brighter in every other phase of the shimmer.
pub proof fn placeholders_get_brighter(base: Color, bright: bool, r: Color)
    requires
        call_ensures(skeleton_color, (base, bright), r),
    ensures
        !bright ==> r == base,
        bright ==> is_brighter(r.r, base.r) && is_brighter(r.g, base.g) && is_brighter(r.b, base.b),
{
}

/// A selected button is in the accent of the service; another one is brighter under
/// the pointer, and dim when it is disabled. Only what the pointer is on has a
/// background.
pub proof fn buttons_have_their_look(
    selected: bool,
    state: PanelButtonVisualState,
    colors: PanelColors,
    accent: Color,
    r: ButtonLook,
)
    requires
        call_ensures(button_look, (selected, state, &colors), r),
        call_ensures(claude_accent_color, (), accent),
    ensures
        is_rgb(accent, 0xD9, 0x77, 0x57),
        selected ==> r.icon == accent,
        !selected && state is Normal ==> r.icon == colors.muted,
        !selected && (state is Hot || state is Pressed) ==> r.icon == colors.text,
        !selected && state is Disabled ==> r.icon == colors.dim,
        state is Hot || state is Pressed ==> r.background == Some(colors.bg_soft),
        state is Normal || state is Disabled ==> r.background is None,
{
}

/// The numbers of a colour: red lowest for the one interface, blue lowest and opaque
/// for the other, and sixteen bits to the channel for the gradient.
pub proof fn colors_have_their_numbers(
    red: u8,
    green: u8,
    blue: u8,
    c: Color,
    lowest: u32,
    opaque: u32,
    wide: (u16, u16, u16),
)
    requires
        call_ensures(Color::new, (red, green, blue), c),
        call_ensures(Color::to_colorref, (c,), lowest),
        call_ensures(to_gdip_argb, (c,), opaque),
        call_ensures(gradient_channels, (c,), wide),
    ensures
        is_rgb(c, red as int, green as int, blue as int),
        lowest == red + 256 * green + 65536 * blue,
        opaque == 255 * 16777216 + 65536 * red + 256 * green + blue,
        wide.0 == 256 * red && wide.1 == 256 * green && wide.2 == 256 * blue,
{
}

/// A pixel has its opacity in the highest byte: the background is all but
/// see-through, and everything else is opaque in its own colour.
pub open spec fn has_its_opacity(before: u32, background: u32, after: u32) -> bool {
    let color = before % 16777216;
    &&& color == background ==> after == 16777216
    &&& color != background ==> after / 16777216 == 255 && after % 16777216 == color
}

/// Every pixel of the layered widget gets its opacity.
pub proof fn widget_is_see_through_but_for_its_content(
    pixels: &mut [u32],
    background: u32,
    pixel: u32,
    one: u32,
    r: (),
)
    requires
        call_ensures(apply_layer_alpha, (pixels, background), r),
        call_ensures(layered_pixel, (pixel, background), one),
    ensures
        has_its_opacity(pixel, background, one),
        final(pixels)@.len() == old(pixels)@.len(),
        forall|i: int|
            0 <= i < old(pixels)@.len() ==> has_its_opacity(
                old(pixels)@[i],
                background,
                #[trigger] final(pixels)@[i],
            ),
{
}

/// A translucent panel is layered, at 242 parts of 255, and a solid one is not; no
/// other bit of the style changes, and a style that is not layered is left alone.
pub proof fn translucent_panel_is_layered(
    style: i32,
    background: PanelBackground,
    r: i32,
    alpha: Option<u8>,
    plain: Option<i32>,
)
    requires
        call_ensures(panel_style, (style, background), r),
        call_ensures(panel_alpha, (background,), alpha),
        call_ensures(unlayered_style, (style,), plain),
    ensures
        background is Translucent <==> r & 0x0008_0000 != 0,
        r & !0x0008_0000 == style & !0x0008_0000,
        background is Translucent ==> alpha == Some(242u8),
        background is Solid ==> alpha is None,
        plain is Some <==> style & 0x0008_0000 != 0,
        plain matches Some(new) ==> new & 0x0008_0000 == 0 && new & !0x0008_0000 == style
            & !0x0008_0000,
{
}

} // verus!
