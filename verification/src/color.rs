//! Colours: the palettes, how they are mixed, and how the system wants them.

use crate::models::Percent;
use crate::panel::PanelButtonVisualState;
use crate::sections::session_state;
use crate::sections::state_from_utilization;
use crate::sections::SessionState;
use crate::settings::PanelBackground;
use vstd::prelude::*;

verus! {

/// The style bit of a layered window.
pub const WS_EX_LAYERED: i32 = 0x0008_0000;

/// The opacity of a translucent panel, of 255.
pub const TRANSLUCENT_ALPHA: u8 = 242;

#[derive(Clone, Copy, Debug, PartialEq, Eq, Structural)]
pub struct Color {
    pub r: u8,
    pub g: u8,
    pub b: u8,
}

pub open spec fn rgb(r: u8, g: u8, b: u8) -> Color {
    Color { r, g, b }
}

impl Color {
    /// A colour from its parts.
    pub fn new(r: u8, g: u8, b: u8) -> (c: Color)
        ensures
            c == rgb(r, g, b),
    {
        Color { r, g, b }
    }

    /// The colour as a number with red lowest.
    pub open spec fn colorref(self) -> int {
        self.r + self.g * 0x100 + self.b * 0x1_0000
    }

    /// The colour as the drawing interface of the system takes it: red in the
    /// lowest byte.
    pub fn to_colorref(self) -> (n: u32)
        ensures
            n == self.colorref(),
    {
        self.r as u32 + self.g as u32 * 0x100 + self.b as u32 * 0x1_0000
    }
}

/// The colour as an opaque number with blue lowest.
pub open spec fn argb(c: Color) -> int {
    0xFF00_0000 + c.r * 0x1_0000 + c.g * 0x100 + c.b
}

/// The colour as the anti-aliasing interface takes it: opaque, blue in the lowest
/// byte.
pub fn to_gdip_argb(c: Color) -> (n: u32)
    ensures
        n == argb(c),
{
    0xFF00_0000 + c.r as u32 * 0x1_0000 + c.g as u32 * 0x100 + c.b as u32
}

/// No two colours have the same number, in either form.
pub proof fn lemma_color_numbers_are_distinct(a: Color, b: Color)
    ensures
        a.colorref() == b.colorref() ==> a == b,
        argb(a) == argb(b) ==> a == b,
{
}

/// The accent of the service.
pub fn claude_accent_color() -> (c: Color)
    ensures
        c == rgb(0xD9, 0x77, 0x57),
{
    Color::new(0xD9, 0x77, 0x57)
}

/// The colours of the panel.
#[derive(Clone, Copy, Debug, PartialEq, Eq, Structural)]
pub struct PanelColors {
    pub bg: Color,
    pub bg_soft: Color,
    pub border: Color,
    pub divider: Color,
    pub text: Color,
    pub muted: Color,
    pub dim: Color,
    pub badge_border: Color,
    pub badge_text: Color,
    pub red: Color,
    pub red_soft: Color,
    pub amber: Color,
    pub amber_soft: Color,
    pub green: Color,
    pub green_soft: Color,
}

/// The colours of the panel in a dark or a light theme.
pub open spec fn palette(is_dark: bool) -> PanelColors {
    if is_dark {
        PanelColors {
            bg: rgb(0x1C, 0x1C, 0x1E),
            bg_soft: rgb(0x2C, 0x2C, 0x2E),
            border: rgb(0x3A, 0x3A, 0x3C),
            divider: rgb(0x2C, 0x2C, 0x2E),
            text: rgb(0xF2, 0xF2, 0xF2),
            muted: rgb(0x8E, 0x8E, 0x93),
            dim: rgb(0x63, 0x63, 0x66),
            badge_border: rgb(0x9E, 0x50, 0x20),
            badge_text: rgb(0xC8, 0x78, 0x38),
            red: rgb(0xC9, 0x36, 0x36),
            red_soft: rgb(0x3A, 0x1A, 0x1A),
            amber: rgb(0xD9, 0x6B, 0x37),
            amber_soft: rgb(0x3A, 0x22, 0x10),
            green: rgb(0x8F, 0xCB, 0x9B),
            green_soft: rgb(0x1A, 0x2E, 0x20),
        }
    } else {
        PanelColors {
            bg: rgb(0xF2, 0xF2, 0xF7),
            bg_soft: rgb(0xE5, 0xE5, 0xEA),
            border: rgb(0xC6, 0xC6, 0xC8),
            divider: rgb(0xD1, 0xD1, 0xD6),
            text: rgb(0x1C, 0x1C, 0x1E),
            muted: rgb(0x6C, 0x6C, 0x70),
            dim: rgb(0x8E, 0x8E, 0x93),
            badge_border: rgb(0xC4, 0x65, 0x1A),
            badge_text: rgb(0x8B, 0x40, 0x10),
            red: rgb(0xC9, 0x36, 0x36),
            red_soft: rgb(0xFC, 0xEA, 0xEA),
            amber: rgb(0xD9, 0x6B, 0x37),
            amber_soft: rgb(0xFD, 0xF0, 0xE7),
            green: rgb(0x2F, 0x7D, 0x48),
            green_soft: rgb(0xEB, 0xF7, 0xEE),
        }
    }
}

impl PanelColors {
    /// The colours of the panel in a dark or a light theme.
    pub fn new(is_dark: bool) -> (c: PanelColors)
        ensures
            c == palette(is_dark),
    {
        if is_dark {
            PanelColors {
                bg: Color::new(0x1C, 0x1C, 0x1E),
                bg_soft: Color::new(0x2C, 0x2C, 0x2E),
                border: Color::new(0x3A, 0x3A, 0x3C),
                divider: Color::new(0x2C, 0x2C, 0x2E),
                text: Color::new(0xF2, 0xF2, 0xF2),
                muted: Color::new(0x8E, 0x8E, 0x93),
                dim: Color::new(0x63, 0x63, 0x66),
                badge_border: Color::new(0x9E, 0x50, 0x20),
                badge_text: Color::new(0xC8, 0x78, 0x38),
                red: Color::new(0xC9, 0x36, 0x36),
                red_soft: Color::new(0x3A, 0x1A, 0x1A),
                amber: Color::new(0xD9, 0x6B, 0x37),
                amber_soft: Color::new(0x3A, 0x22, 0x10),
                green: Color::new(0x8F, 0xCB, 0x9B),
                green_soft: Color::new(0x1A, 0x2E, 0x20),
            }
        } else {
            PanelColors {
                bg: Color::new(0xF2, 0xF2, 0xF7),
                bg_soft: Color::new(0xE5, 0xE5, 0xEA),
                border: Color::new(0xC6, 0xC6, 0xC8),
                divider: Color::new(0xD1, 0xD1, 0xD6),
                text: Color::new(0x1C, 0x1C, 0x1E),
                muted: Color::new(0x6C, 0x6C, 0x70),
                dim: Color::new(0x8E, 0x8E, 0x93),
                badge_border: Color::new(0xC4, 0x65, 0x1A),
                badge_text: Color::new(0x8B, 0x40, 0x10),
                red: Color::new(0xC9, 0x36, 0x36),
                red_soft: Color::new(0xFC, 0xEA, 0xEA),
                amber: Color::new(0xD9, 0x6B, 0x37),
                amber_soft: Color::new(0xFD, 0xF0, 0xE7),
                green: Color::new(0x2F, 0x7D, 0x48),
                green_soft: Color::new(0xEB, 0xF7, 0xEE),
            }
        }
    }

    pub open spec fn accent(self, state: SessionState) -> Color {
        match state {
            SessionState::Capped => self.red,
            SessionState::SlowingDown => self.amber,
            SessionState::GoingSteady => self.green,
            SessionState::PlentyLeft => self.green,
        }
    }

    /// The strong colour of a session's state.
    pub fn session_accent(&self, state: SessionState) -> (c: Color)
        ensures
            c == self.accent(state),
    {
        match state {
            SessionState::Capped => self.red,
            SessionState::SlowingDown => self.amber,
            SessionState::GoingSteady => self.green,
            SessionState::PlentyLeft => self.green,
        }
    }

    pub open spec fn soft(self, state: SessionState) -> Color {
        match state {
            SessionState::Capped => self.red_soft,
            SessionState::SlowingDown => self.amber_soft,
            SessionState::GoingSteady => self.green_soft,
            SessionState::PlentyLeft => self.green_soft,
        }
    }

    /// The soft colour of a session's state.
    pub fn session_soft(&self, state: SessionState) -> (c: Color)
        ensures
            c == self.soft(state),
    {
        match state {
            SessionState::Capped => self.red_soft,
            SessionState::SlowingDown => self.amber_soft,
            SessionState::GoingSteady => self.green_soft,
            SessionState::PlentyLeft => self.green_soft,
        }
    }
}

/// A channel 140/255 of the way from `under` to `over`, rounded down.
pub open spec fn pulsed(over: u8, under: u8) -> u8 {
    ((over * 140 + under * 115) / 255) as u8
}

/// A channel a quarter of the way from `under` to `over`, each part rounded down.
pub open spec fn glowing(over: u8, under: u8) -> u8 {
    (over * 25 / 100 + under * 75 / 100) as u8
}

/// A channel twenty steps brighter, as far as it goes.
pub open spec fn brightened(c: u8) -> u8 {
    if c > 235 {
        255
    } else {
        (c + 20) as u8
    }
}

/// The colour of the status dot: the accent, which fades towards the background
/// in every other phase once the session is capped.
pub open spec fn dot_color(state: SessionState, bright: bool, accent: Color, soft: Color) -> Color {
    if state is Capped && !bright {
        rgb(pulsed(accent.r, soft.r), pulsed(accent.g, soft.g), pulsed(accent.b, soft.b))
    } else {
        accent
    }
}

/// The colour of the status dot.
pub fn status_dot_color(state: SessionState, bright: bool, accent: Color, soft: Color) -> (c: Color)
    ensures
        c == dot_color(state, bright, accent, soft),
{
    if state == SessionState::Capped && !bright {
        Color {
            r: ((accent.r as u16 * 140 + soft.r as u16 * 115) / 255) as u8,
            g: ((accent.g as u16 * 140 + soft.g as u16 * 115) / 255) as u8,
            b: ((accent.b as u16 * 140 + soft.b as u16 * 115) / 255) as u8,
        }
    } else {
        accent
    }
}

/// The colour of the halo round the status dot.
pub open spec fn halo(accent: Color, soft: Color) -> Color {
    rgb(glowing(accent.r, soft.r), glowing(accent.g, soft.g), glowing(accent.b, soft.b))
}

/// The colour of the halo round the status dot.
pub fn glow_color(accent: Color, soft: Color) -> (c: Color)
    ensures
        c == halo(accent, soft),
{
    Color {
        r: (accent.r as u16 * 25 / 100 + soft.r as u16 * 75 / 100) as u8,
        g: (accent.g as u16 * 25 / 100 + soft.g as u16 * 75 / 100) as u8,
        b: (accent.b as u16 * 25 / 100 + soft.b as u16 * 75 / 100) as u8,
    }
}

/// A mixed channel lies between the channels that it is mixed from; the halo may
/// fall short by the two roundings.
pub proof fn lemma_mixed_channels_lie_between(over: u8, under: u8)
    ensures
        over <= under ==> over <= pulsed(over, under) <= under,
        under <= over ==> under <= pulsed(over, under) <= over,
        over <= under ==> over - 1 <= glowing(over, under) <= under,
        under <= over ==> under - 1 <= glowing(over, under) <= over,
{
}

/// The colour of a placeholder for data that is not there yet.
pub fn skeleton_color(base: Color, bright: bool) -> (c: Color)
    ensures
        c == if bright {
            rgb(brightened(base.r), brightened(base.g), brightened(base.b))
        } else {
            base
        },
{
    if bright {
        Color {
            r: base.r.saturating_add(20),
            g: base.g.saturating_add(20),
            b: base.b.saturating_add(20),
        }
    } else {
        base
    }
}

/// A colour as the gradient interface takes it: sixteen bits to the channel.
pub fn gradient_channels(c: Color) -> (n: (u16, u16, u16))
    ensures
        n.0 == c.r * 0x100,
        n.1 == c.g * 0x100,
        n.2 == c.b * 0x100,
{
    (c.r as u16 * 0x100, c.g as u16 * 0x100, c.b as u16 * 0x100)
}

/// The look of a button of the panel: the colour of its symbol, and that of its
/// background where it has one.
#[derive(Clone, Copy, Debug, PartialEq, Eq, Structural)]
pub struct ButtonLook {
    pub icon: Color,
    pub background: Option<Color>,
}

/// The look of a button: the accent when selected, else brighter the more the
/// pointer has to do with it, with a background under the pointer alone.
pub fn button_look(selected: bool, state: PanelButtonVisualState, colors: &PanelColors) -> (r:
    ButtonLook)
    ensures
        r.icon == if selected {
            rgb(0xD9, 0x77, 0x57)
        } else {
            match state {
                PanelButtonVisualState::Normal => colors.muted,
                PanelButtonVisualState::Hot => colors.text,
                PanelButtonVisualState::Pressed => colors.text,
                PanelButtonVisualState::Disabled => colors.dim,
            }
        },
        r.background == if state is Hot || state is Pressed {
            Some(colors.bg_soft)
        } else {
            None
        },
{
    let icon = if selected {
        claude_accent_color()
    } else {
        match state {
            PanelButtonVisualState::Normal => colors.muted,
            PanelButtonVisualState::Hot => colors.text,
            PanelButtonVisualState::Pressed => colors.text,
            PanelButtonVisualState::Disabled => colors.dim,
        }
    };
    let background = match state {
        PanelButtonVisualState::Hot => Some(colors.bg_soft),
        PanelButtonVisualState::Pressed => Some(colors.bg_soft),
        _ => None,
    };
    ButtonLook { icon, background }
}

/// The colours of the widget.
#[derive(Clone, Copy, Debug, PartialEq, Eq, Structural)]
pub struct WidgetColors {
    pub accent: Color,
    pub track: Color,
    pub text: Color,
    pub background: Color,
    pub divider: Color,
}

/// The colours of the widget in a theme, for a session of that utilization.
pub open spec fn widget_palette(is_dark: bool, session: Percent) -> WidgetColors {
    let state = session_state(Some(session));
    WidgetColors {
        accent: palette(is_dark).accent(state),
        track: palette(is_dark).soft(state),
        text: if is_dark {
            rgb(0x88, 0x88, 0x88)
        } else {
            rgb(0x40, 0x40, 0x40)
        },
        background: if is_dark {
            rgb(0x1C, 0x1C, 0x1C)
        } else {
            rgb(0xF3, 0xF3, 0xF3)
        },
        divider: if is_dark {
            rgb(80, 80, 80)
        } else {
            rgb(160, 160, 160)
        },
    }
}

/// The colours of the widget.
pub fn widget_colors(is_dark: bool, session: Percent) -> (r: WidgetColors)
    ensures
        r == widget_palette(is_dark, session),
{
    let colors = PanelColors::new(is_dark);
    let state = state_from_utilization(Some(session));
    let (text, background, divider) = if is_dark {
        (Color::new(0x88, 0x88, 0x88), Color::new(0x1C, 0x1C, 0x1C), Color::new(80, 80, 80))
    } else {
        (Color::new(0x40, 0x40, 0x40), Color::new(0xF3, 0xF3, 0xF3), Color::new(160, 160, 160))
    };
    WidgetColors {
        accent: colors.session_accent(state),
        track: colors.session_soft(state),
        text,
        background,
        divider,
    }
}

/// A pixel of the layered widget: the background all but see-through, so that it
/// still takes clicks, and everything else opaque.
pub open spec fn layered(pixel: u32, background: u32) -> u32 {
    let color = pixel % 0x100_0000;
    if color == background {
        0x0100_0000
    } else {
        (color + 0xFF00_0000) as u32
    }
}

/// Gives a pixel of the widget its opacity.
pub fn layered_pixel(pixel: u32, background: u32) -> (r: u32)
    ensures
        r == layered(pixel, background),
{
    assert(pixel & 0x00FF_FFFF == pixel % 0x100_0000) by (bit_vector);
    let color: u32 = pixel & 0x00FF_FFFF;
    if color == background {
        0x0100_0000
    } else {
        color + 0xFF00_0000
    }
}

/// Gives every pixel of the widget its opacity.
pub fn apply_layer_alpha(pixels: &mut [u32], background: u32)
    ensures
        final(pixels)@.len() == old(pixels)@.len(),
        forall|i: int|
            0 <= i < old(pixels)@.len() ==> #[trigger] final(pixels)@[i] == layered(
                old(pixels)@[i],
                background,
            ),
{
    let mut i: usize = 0;
    let n: usize = pixels.len();
    while i < n
        invariant
            i <= n,
            n == pixels@.len(),
            pixels@.len() == old(pixels)@.len(),
            forall|j: int|
                0 <= j < i ==> #[trigger] pixels@[j] == layered(old(pixels)@[j], background),
            forall|j: int| i <= j < n ==> #[trigger] pixels@[j] == old(pixels)@[j],
        decreases n - i,
    {
        let pixel: u32 = pixels[i];
        pixels[i] = layered_pixel(pixel, background);
        i += 1;
    }
}

/// Exactly the pixels in the colour of the background are see-through, every
/// other keeps its colour, and none is wholly transparent.
pub proof fn lemma_content_stays_opaque(pixel: u32, background: u32)
    requires
        background < 0x100_0000,
    ensures
        layered(pixel, background) / 0x100_0000 == (if pixel % 0x100_0000 == background {
            1u32
        } else {
            255u32
        }),
        pixel % 0x100_0000 != background ==> layered(pixel, background) % 0x100_0000 == pixel
            % 0x100_0000,
{
}

/// The style of the panel's window for a background: layered exactly when it is
/// translucent, and else as it was.
pub fn panel_style(style: i32, background: PanelBackground) -> (r: i32)
    ensures
        (r & WS_EX_LAYERED != 0) == (background is Translucent),
        r & !WS_EX_LAYERED == style & !WS_EX_LAYERED,
{
    proof {
        assert((style & !0x0008_0000i32) & 0x0008_0000i32 == 0) by (bit_vector);
        assert((style & !0x0008_0000i32) & !0x0008_0000i32 == style & !0x0008_0000i32)
            by (bit_vector);
        assert((style | 0x0008_0000i32) & 0x0008_0000i32 != 0) by (bit_vector);
        assert((style | 0x0008_0000i32) & !0x0008_0000i32 == style & !0x0008_0000i32)
            by (bit_vector);
    }
    match background {
        PanelBackground::Solid => style & !WS_EX_LAYERED,
        PanelBackground::Translucent => style | WS_EX_LAYERED,
    }
}

/// The opacity to set for a background; a solid one needs none.
pub fn panel_alpha(background: PanelBackground) -> (r: Option<u8>)
    ensures
        r == if background is Translucent {
            Some(TRANSLUCENT_ALPHA)
        } else {
            None
        },
{
    match background {
        PanelBackground::Solid => None,
        PanelBackground::Translucent => Some(TRANSLUCENT_ALPHA),
    }
}

/// The style of the panel's window before it is hidden: not layered. None where
/// it is not layered already.
pub fn unlayered_style(style: i32) -> (r: Option<i32>)
    ensures
        match r {
            Some(new) => style & WS_EX_LAYERED != 0 && new & WS_EX_LAYERED == 0 && new
                & !WS_EX_LAYERED == style & !WS_EX_LAYERED,
            None => style & WS_EX_LAYERED == 0,
        },
{
    proof {
        assert((style & !0x0008_0000i32) & 0x0008_0000i32 == 0) by (bit_vector);
        assert((style & !0x0008_0000i32) & !0x0008_0000i32 == style & !0x0008_0000i32)
            by (bit_vector);
    }
    if style & WS_EX_LAYERED != 0 {
        Some(style & !WS_EX_LAYERED)
    } else {
        None
    }
}

} // verus!
