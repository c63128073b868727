//! What the windows show of the state.

use crate::captions::build_popup_text;
use crate::captions::header_status;
use crate::captions::panel_header_status_text;
use crate::captions::plan_label;
use crate::captions::plan_name;
use crate::captions::popup_text;
use crate::captions::tooltip;
use crate::captions::tray_tooltip;
use crate::color::button_look;
use crate::color::palette;
use crate::color::rgb;
use crate::color::widget_colors;
use crate::color::widget_palette;
use crate::color::ButtonLook;
use crate::color::PanelColors;
use crate::color::WidgetColors;
use crate::geometry::valid_dpi;
use crate::geometry::Rect;
use crate::geometry::MAX_COORD;
use crate::localization::Strings;
use crate::models::Percent;
use crate::models::Timestamp;
use crate::panel::laid_out;
use crate::panel::panel_button_visual_state;
use crate::panel::panel_buttons_for_layout;
use crate::panel::visual_state;
use crate::panel::PanelButton;
use crate::panel::PanelButtonVisualState;
use crate::panel::PanelState;
use crate::sections::panel_model_sections;
use crate::sections::section_of;
use crate::sections::PanelModelSection;
use crate::sections::ResetTimes;
use crate::state::AppState;
use crate::state::Shell;
use crate::state::TrayIconKind;
use vstd::prelude::*;

verus! {

/// A button of the panel as it is drawn.
#[derive(Debug)]
pub struct ButtonView {
    pub rect: Rect,
    pub label: String,
    pub look: ButtonLook,
}

/// The panel as it is drawn.
#[derive(Debug)]
pub struct PanelView {
    pub is_dark: bool,
    pub status: String,
    pub plan: String,
    pub sections: Vec<PanelModelSection>,
    pub buttons: Vec<ButtonView>,
    pub bright: bool,
}

/// The look of a button in a state.
pub open spec fn look_of(
    selected: bool,
    state: PanelButtonVisualState,
    colors: PanelColors,
) -> ButtonLook {
    ButtonLook {
        icon: if selected {
            rgb(0xD9, 0x77, 0x57)
        } else {
            match state {
                PanelButtonVisualState::Normal => colors.muted,
                PanelButtonVisualState::Hot => colors.text,
                PanelButtonVisualState::Pressed => colors.text,
                PanelButtonVisualState::Disabled => colors.dim,
            }
        },
        background: if state is Hot || state is Pressed {
            Some(colors.bg_soft)
        } else {
            None
        },
    }
}

/// A button is drawn as the panel has it.
pub open spec fn drawn_as(view: ButtonView, panel: PanelState, i: int, colors: PanelColors) -> bool {
    let button = panel.buttons@[i];
    &&& view.rect == button.rect
    &&& view.label@ == button.label@
    &&& view.look == look_of(button.selected, visual_state(panel, button), colors)
}

/// The panel's buttons as they are drawn.
pub fn button_views(panel: &PanelState, colors: &PanelColors) -> (r: Vec<ButtonView>)
    ensures
        r@.len() == panel.buttons@.len(),
        forall|i: int|
            0 <= i < panel.buttons@.len() ==> drawn_as(#[trigger] r@[i], *panel, i, *colors),
{
    let mut views: Vec<ButtonView> = Vec::new();
    let mut i: usize = 0;
    while i < panel.buttons.len()
        invariant
            i <= panel.buttons.len(),
            views@.len() == i,
            forall|j: int| 0 <= j < i ==> drawn_as(#[trigger] views@[j], *panel, j, *colors),
        decreases panel.buttons.len() - i,
    {
        let button: &PanelButton = &panel.buttons[i];
        let state = panel_button_visual_state(panel, button);
        let look = button_look(button.selected, state, colors);
        let view = ButtonView { rect: button.rect, label: button.label.clone(), look };
        assert(drawn_as(view, *panel, i as int, *colors));
        views.push(view);
        i += 1;
    }
    views
}

/// What there is to draw of the panel without a state.
pub open spec fn blank_panel(view: PanelView, strings: Strings, system_dark: bool) -> bool {
    &&& view.is_dark == system_dark
    &&& view.status@ == strings.panel_waiting_for_data@
    &&& view.plan@ == "PRO"@
    &&& view.sections@.len() == 0
    &&& view.buttons@.len() == 0
    &&& !view.bright
}

/// What there is to draw of the panel of a state whose buttons are laid out.
pub open spec fn panel_viewed(
    s: AppState,
    view: PanelView,
    strings: Strings,
    times: ResetTimes,
    now: Timestamp,
) -> bool {
    &&& view.is_dark == s.is_dark
    &&& view.status@ == header_status(
        strings,
        s.polling.last_poll_at,
        s.polling.last_poll_ok,
        s.polling.last_poll_status,
        now,
    )
    &&& view.plan@ == plan_label(s.figures.data)
    &&& view.sections@ =~= if s.prefs.show_claude_code {
        seq![section_of(s, strings.claude_code_model, times)]
    } else {
        Seq::empty()
    }
    &&& view.buttons@.len() == s.panel.buttons@.len()
    &&& forall|i: int|
        0 <= i < view.buttons@.len() ==> drawn_as(
            #[trigger] view.buttons@[i],
            s.panel,
            i,
            palette(s.is_dark),
        )
    &&& view.bright == s.shimmer_phase
}

/// The time of the last poll leaves room for what is counted from it.
pub open spec fn poll_time_in_range(a: Shell) -> bool {
    a.app matches Some(s) ==> (s.polling.last_poll_at matches Some(at) ==> at.in_range())
}

/// What painting the panel does to the shell: the buttons are laid out for its
/// width, but not in an empty client area.
pub open spec fn panel_painted(
    a: Shell,
    b: Shell,
    strings: Strings,
    width: int,
    height: int,
    dpi: u32,
) -> bool {
    if width <= 0 || height <= 0 {
        b == a
    } else {
        &&& b == (Shell { app: b.app, ..a })
        &&& match a.app {
            Some(s) => {
                &&& b.app matches Some(t)
                &&& t == (AppState { panel: t.panel, ..s })
                &&& t.panel == (PanelState { buttons: t.panel.buttons, ..s.panel })
                &&& laid_out(
                    t.panel.buttons@,
                    strings.settings@,
                    strings.refresh@,
                    width,
                    s.prefs.panel_pinned,
                    dpi,
                )
            },
            None => b.app is None,
        }
    }
}

/// Makes up what there is to draw of the panel, and lays its buttons out for its
/// width. In an empty client area there is nothing to draw, and the buttons stay
/// where they are. `strings` are the phrases of the interface's language, `times` the local
/// times of the resets of the data at hand, and `system_dark` the theme to go by
/// where there is no state yet.
pub fn paint_panel(
    shell: &mut Shell,
    strings: &Strings,
    times: ResetTimes,
    system_dark: bool,
    width: i32,
    height: i32,
    now: Timestamp,
    dpi: u32,
) -> (r: Option<PanelView>)
    requires
        poll_time_in_range(*old(shell)),
        width <= MAX_COORD,
        now.in_range(),
        valid_dpi(dpi),
    ensures
        width <= 0 || height <= 0 ==> r is None && *final(shell) == *old(shell),
        panel_painted(*old(shell), *final(shell), *strings, width as int, height as int, dpi),
        width > 0 && height > 0 ==> match (r, final(shell).app) {
            (Some(view), Some(b)) => panel_viewed(b, view, *strings, times, now),
            (Some(view), None) => blank_panel(view, *strings, system_dark),
            (None, _) => false,
        },
{
    if width <= 0 || height <= 0 {
        return None;
    }
    let view = match &mut shell.app {
        Some(s) => {
            s.panel.buttons = panel_buttons_for_layout(
                strings.settings,
                strings.refresh,
                width,
                s.prefs.panel_pinned,
                dpi,
            );
            let colors = PanelColors::new(s.is_dark);
            let status = panel_header_status_text(
                strings,
                s.polling.last_poll_at,
                s.polling.last_poll_ok,
                s.polling.last_poll_status,
                now,
            );
            let plan = plan_name(&s.figures.data);
            let sections = panel_model_sections(s, strings, times);
            let buttons = button_views(&s.panel, &colors);
            PanelView {
                is_dark: s.is_dark,
                status,
                plan,
                sections,
                buttons,
                bright: s.shimmer_phase,
            }
        },
        None => PanelView {
            is_dark: system_dark,
            status: strings.panel_waiting_for_data.to_owned(),
            plan: "PRO".to_owned(),
            sections: Vec::new(),
            buttons: Vec::new(),
            bright: false,
        },
    };
    Some(view)
}

/// The widget as it is drawn.
#[derive(Debug)]
pub struct WidgetView {
    pub is_dark: bool,
    pub colors: WidgetColors,
    pub session_percent: Percent,
    pub session_text: String,
    pub session_resets_at: Option<Timestamp>,
    pub show_claude_code: bool,
}

/// What there is to draw of the widget of a state.
pub open spec fn widget_viewed(s: AppState, view: WidgetView) -> bool {
    view == (WidgetView {
        is_dark: s.is_dark,
        colors: widget_palette(s.is_dark, s.figures.session_percent),
        session_percent: s.figures.session_percent,
        session_text: s.figures.session_text,
        session_resets_at: s.figures.session_resets_at,
        show_claude_code: s.prefs.show_claude_code,
    })
}

fn widget_view(s: &AppState) -> (r: WidgetView)
    ensures
        widget_viewed(*s, r),
{
    WidgetView {
        is_dark: s.is_dark,
        colors: widget_colors(s.is_dark, s.figures.session_percent),
        session_percent: s.figures.session_percent,
        session_text: s.figures.session_text.clone(),
        session_resets_at: s.figures.session_resets_at,
        show_claude_code: s.prefs.show_claude_code,
    }
}

/// Makes up what there is to draw of the widget in a client area; nothing without
/// a state or in an empty area.
pub fn paint(shell: &Shell, width: i32, height: i32) -> (r: Option<WidgetView>)
    ensures
        match shell.app {
            Some(s) if width > 0 && height > 0 => r matches Some(view) && widget_viewed(s, view),
            _ => r is None,
        },
{
    match &shell.app {
        Some(s) if width > 0 && height > 0 => Some(widget_view(s)),
        _ => None,
    }
}

/// How the widget gets onto the screen.
#[derive(Debug)]
pub enum Rendering {
    /// There is nothing to draw.
    Nothing,
    /// The window has to be painted in the ordinary way.
    Invalidate,
    /// The layered window gets its pixels at once.
    Layered(WidgetView),
}

/// Tells how the widget gets onto the screen: a widget in the taskbar is layered,
/// any other is painted in the ordinary way.
pub fn render_layered(shell: &Shell) -> (r: Rendering)
    ensures
        match shell.app {
            Some(s) => if s.embedded {
                r matches Rendering::Layered(view) && widget_viewed(s, view)
            } else {
                r is Invalidate
            },
            None => r is Nothing,
        },
{
    match &shell.app {
        Some(s) => {
            if s.embedded {
                Rendering::Layered(widget_view(s))
            } else {
                Rendering::Invalidate
            }
        },
        None => Rendering::Nothing,
    }
}

/// A tray icon: whose it is, its percentage, and the text that the pointer brings
/// up.
#[derive(Debug)]
pub struct TrayIconData {
    pub kind: TrayIconKind,
    pub percent: Option<Percent>,
    pub tooltip: String,
}

/// The tray icon of a state.
pub open spec fn icon_of(
    s: AppState,
    icon: TrayIconData,
    strings: Strings,
    times: ResetTimes,
) -> bool {
    &&& icon.kind == TrayIconKind::Claude
    &&& if s.polling.last_poll_ok {
        &&& icon.percent == Some(s.figures.session_percent)
        &&& icon.tooltip@ == tooltip(
            strings.claude_code_model@,
            s.figures,
            times.session@,
            times.weekly@,
        )
    } else {
        &&& icon.percent is None
        &&& icon.tooltip@ == strings.window_title@
    }
}

/// The tray icons: one for the model that is shown, with its figures after a poll
/// that went well. `strings` are the phrases of the interface's language, `times`
/// the local times of the resets of the data at hand.
pub fn tray_icon_data_from_state(shell: &Shell, strings: &Strings, times: &ResetTimes) -> (r: Vec<
    TrayIconData,
>)
    ensures
        match shell.app {
            Some(s) if s.prefs.show_claude_code => r@.len() == 1 && icon_of(
                s,
                r@[0],
                *strings,
                *times,
            ),
            _ => r@.len() == 0,
        },
{
    let mut icons: Vec<TrayIconData> = Vec::new();
    match &shell.app {
        Some(s) => {
            if s.prefs.show_claude_code {
                if s.polling.last_poll_ok {
                    icons.push(
                        TrayIconData {
                            kind: TrayIconKind::Claude,
                            percent: Some(s.figures.session_percent),
                            tooltip: tray_tooltip(
                                strings.claude_code_model,
                                &s.figures,
                                times.session.as_str(),
                                times.weekly.as_str(),
                            ),
                        },
                    );
                } else {
                    icons.push(
                        TrayIconData {
                            kind: TrayIconKind::Claude,
                            percent: None,
                            tooltip: strings.window_title.to_owned(),
                        },
                    );
                }
            }
        },
        None => {},
    }
    icons
}

/// The popup's text for a state.
pub open spec fn popup_of(s: AppState, name: Seq<char>, times: ResetTimes) -> Seq<char> {
    popup_text(
        name,
        s.polling.last_poll_ok,
        s.prefs.show_claude_code,
        s.figures.data,
        times.session@,
        times.weekly@,
    )
}

/// What wording the popup does to the shell.
pub open spec fn popup_worded(a: Shell, b: Shell, name: Seq<char>, times: ResetTimes) -> bool {
    &&& b == (Shell { app: b.app, ..a })
    &&& match a.app {
        Some(s) => {
            &&& b.app matches Some(t)
            &&& t == (AppState { popup_text: t.popup_text, ..s })
            &&& t.popup_text@ == popup_of(s, name, times)
        },
        None => b.app is None,
    }
}

/// Puts the popup's text together and says which window is to show it; none where
/// there is no text or no window. `name` is the name of the model, `times` are the
/// local times of the resets of the data at hand.
pub fn show_hover_popup(shell: &mut Shell, name: &str, times: &ResetTimes) -> (r: Option<isize>)
    ensures
        popup_worded(*old(shell), *final(shell), name@, *times),
        r == match old(shell).app {
            Some(a) if popup_of(a, name@, *times).len() > 0 => a.windows.popup_hwnd,
            _ => None,
        },
{
    match &mut shell.app {
        Some(s) => {
            let text = build_popup_text(
                name,
                s.polling.last_poll_ok,
                s.prefs.show_claude_code,
                &s.figures.data,
                times.session.as_str(),
                times.weekly.as_str(),
            );
            let n: usize = text.as_str().unicode_len();
            s.popup_text = text;
            if n > 0 {
                s.windows.popup_hwnd
            } else {
                None
            }
        },
        None => None,
    }
}

} // verus!
