use usage_monitor::geometry::Placement;
use usage_monitor::geometry::Rect;
use usage_monitor::launch::first_state;
use usage_monitor::localization::LanguageId;
use usage_monitor::messages::PanelMessage;
use usage_monitor::panel::accessible_title;
use usage_monitor::panel::focusable_buttons;
use usage_monitor::panel::is_drag_zone;
use usage_monitor::panel::panel_button_hit_test;
use usage_monitor::panel::panel_button_visual_state;
use usage_monitor::panel::panel_buttons_for_layout;
use usage_monitor::panel::same_button;
use usage_monitor::panel::PanelButtonId;
use usage_monitor::panel::PanelButtonVisualState;
use usage_monitor::panel_window::execute_panel_button;
use usage_monitor::panel_window::hide_panel;
use usage_monitor::panel_window::menu_dismissed;
use usage_monitor::panel_window::moment_in_range;
use usage_monitor::panel_window::on_panel_message;
use usage_monitor::panel_window::panel_reopen_suppressed;
use usage_monitor::panel_window::position_panel_near_widget;
use usage_monitor::panel_window::refresh_from_panel;
use usage_monitor::panel_window::refresh_panel_view;
use usage_monitor::panel_window::show_panel;
use usage_monitor::panel_window::toggle_panel;
use usage_monitor::panel_window::PanelSurroundings;
use usage_monitor::settings::PanelBackground;
use usage_monitor::settings::SettingsFile;
use usage_monitor::state::Action;
use usage_monitor::state::AppState;
use usage_monitor::state::CursorShape;
use usage_monitor::state::InstallChannel;
use usage_monitor::state::Reply;
use usage_monitor::state::Shell;

fn app() -> Shell {
    let mut shell = Shell::new();
    shell.app = Some(first_state(
        100,
        true,
        &SettingsFile::default(),
        None,
        LanguageId::English,
        InstallChannel::Portable,
    ));
    shell
}

fn state(shell: &Shell) -> &AppState {
    shell.app.as_ref().unwrap()
}

fn state_mut(shell: &mut Shell) -> &mut AppState {
    shell.app.as_mut().unwrap()
}

const MS: u64 = 1_000_000;

fn with_panel() -> Shell {
    let mut shell = app();
    let s = state_mut(&mut shell);
    s.panel.hwnd = Some(7);
    s.windows.popup_hwnd = Some(8);
    s.panel.buttons = panel_buttons_for_layout("Settings", "Refresh", 390, false, 96);
    shell
}

fn around(now: u64) -> PanelSurroundings {
    PanelSurroundings {
        dpi: 96,
        now,
        pointer_x: 20,
        pointer_y: 10,
        client_right: 390,
        window_left: 55,
        window_top: 66,
    }
}

#[test]
fn buttons_stand_at_the_right_end_of_the_header() {
    let buttons = panel_buttons_for_layout("Settings", "Refresh", 390, true, 96);
    assert_eq!(buttons.len(), 3);
    assert_eq!(buttons[0].id, PanelButtonId::Pin);
    assert_eq!(buttons[0].rect, Rect { left: 281, top: 11, right: 313, bottom: 39 });
    assert_eq!(buttons[0].label, "\u{E718}");
    assert_eq!(buttons[0].accessible_label, "Pin");
    assert!(buttons[0].selected && buttons[0].enabled);
    assert_eq!(buttons[1].id, PanelButtonId::Settings);
    assert_eq!(buttons[1].rect, Rect { left: 317, top: 11, right: 349, bottom: 39 });
    assert_eq!(buttons[1].accessible_label, "Settings");
    assert!(!buttons[1].selected);
    assert_eq!(buttons[2].id, PanelButtonId::Refresh);
    assert_eq!(buttons[2].rect, Rect { left: 353, top: 11, right: 385, bottom: 39 });
    assert_eq!(buttons[2].label, "\u{E72C}");
}

#[test]
fn clicks_reach_enabled_buttons() {
    let mut buttons = panel_buttons_for_layout("Settings", "Refresh", 390, false, 96);
    assert_eq!(panel_button_hit_test(&buttons, 281, 11), Some(PanelButtonId::Pin));
    assert_eq!(panel_button_hit_test(&buttons, 348, 38), Some(PanelButtonId::Settings));
    assert_eq!(panel_button_hit_test(&buttons, 384, 20), Some(PanelButtonId::Refresh));
    assert_eq!(panel_button_hit_test(&buttons, 314, 20), None);
    buttons[0].enabled = false;
    assert_eq!(panel_button_hit_test(&buttons, 281, 11), None);
    assert_eq!(focusable_buttons(&buttons), vec![PanelButtonId::Settings, PanelButtonId::Refresh]);
    assert!(same_button(None, None));
    assert!(!same_button(None, Some(PanelButtonId::Pin)));
}

#[test]
fn drag_zone_ends_before_the_buttons() {
    assert!(is_drag_zone(0, 0, 390, 96));
    assert!(is_drag_zone(280, 44, 390, 96));
    assert!(!is_drag_zone(281, 10, 390, 96));
    assert!(!is_drag_zone(10, 45, 390, 96));
    assert!(!is_drag_zone(-1, 10, 390, 96));
}

#[test]
fn screen_readers_hear_the_hot_button() {
    let mut shell = with_panel();
    let panel = &mut state_mut(&mut shell).panel;
    assert_eq!(accessible_title(panel, "Usage"), "Usage");
    panel.hot_button = Some(PanelButtonId::Settings);
    assert_eq!(accessible_title(panel, "Usage"), "Usage - Settings");
    panel.buttons.clear();
    assert_eq!(accessible_title(panel, "Usage"), "Usage");
}

#[test]
fn buttons_look_as_the_pointer_has_it() {
    let mut shell = with_panel();
    let panel = &mut state_mut(&mut shell).panel;
    let look = |panel: &usage_monitor::panel::PanelState| {
        panel_button_visual_state(panel, &panel.buttons[0])
    };
    assert_eq!(look(panel), PanelButtonVisualState::Normal);
    panel.hot_button = Some(PanelButtonId::Pin);
    assert_eq!(look(panel), PanelButtonVisualState::Hot);
    panel.pressed_button = Some(PanelButtonId::Pin);
    assert_eq!(look(panel), PanelButtonVisualState::Pressed);
    panel.buttons[0].enabled = false;
    assert_eq!(look(panel), PanelButtonVisualState::Disabled);
}

#[test]
fn panel_opens_and_closes() {
    let mut shell = with_panel();
    assert_eq!(
        toggle_panel(&mut shell, 0),
        vec![
            Action::HidePopup(8),
            Action::PositionPanel,
            Action::ApplyPanelBackground(PanelBackground::Solid),
            Action::ShowPanelWindow,
            Action::FocusPanel,
            Action::SetShimmerTimer { ms: 600 },
        ]
    );
    assert!(state(&shell).panel.visible);
    assert_eq!(toggle_panel(&mut shell, 1000 * MS), vec![Action::HidePanelWindow]);
    assert!(!state(&shell).panel.visible);
    assert!(panel_reopen_suppressed(&shell, 1199 * MS));
    assert!(toggle_panel(&mut shell, 1199 * MS).is_empty());
    assert!(!state(&shell).panel.visible);
    assert!(!panel_reopen_suppressed(&shell, 1200 * MS));
    assert_eq!(toggle_panel(&mut shell, 1200 * MS).len(), 6);
    assert!(state(&shell).panel.visible);
}

#[test]
fn panel_needs_a_window_to_open() {
    let mut shell = app();
    assert!(show_panel(&mut shell).is_empty());
    assert!(!state(&shell).panel.visible);
    assert!(show_panel(&mut Shell::new()).is_empty());
}

#[test]
fn panel_with_data_does_not_shimmer() {
    let mut shell = with_panel();
    state_mut(&mut shell).figures.data = Some(Default::default());
    assert!(!show_panel(&mut shell).contains(&Action::SetShimmerTimer { ms: 600 }));
}

#[test]
fn closing_unpins_the_panel() {
    let mut shell = with_panel();
    show_panel(&mut shell);
    let s = state_mut(&mut shell);
    s.prefs.panel_pinned = true;
    s.prefs.panel_pinned_x = Some(1);
    s.prefs.panel_pinned_y = Some(2);
    assert_eq!(
        hide_panel(&mut shell, 5),
        vec![Action::SaveSettings, Action::HidePanelWindow]
    );
    let s = state(&shell);
    assert!(!s.prefs.panel_pinned);
    assert_eq!((s.prefs.panel_pinned_x, s.prefs.panel_pinned_y), (None, None));
    assert_eq!(shell.panel_reopen_until, Some(5 + 200 * MS));
    let mut empty = Shell::new();
    assert!(hide_panel(&mut empty, 5).is_empty());
    assert_eq!(empty.panel_reopen_until, Some(5 + 200 * MS));
    assert!(moment_in_range(5));
    assert!(!moment_in_range(u64::MAX));
}

#[test]
fn panel_goes_next_to_the_widget_or_where_it_is_pinned() {
    let mut shell = with_panel();
    let widget = Some(Rect { left: 1500, top: 1040, right: 1680, bottom: 1080 });
    assert_eq!(position_panel_near_widget(&shell, widget, 1920, 1080, 96), None);
    show_panel(&mut shell);
    assert_eq!(
        position_panel_near_widget(&shell, widget, 1920, 1080, 96),
        Some(Placement { x: 1290, y: 804, width: 390, height: 228 })
    );
    assert_eq!(position_panel_near_widget(&shell, None, 1920, 1080, 96), None);
    state_mut(&mut shell).prefs.panel_pinned = true;
    assert_eq!(position_panel_near_widget(&shell, widget, 1920, 1080, 96), None);
    let moved = on_panel_message(&mut shell, PanelMessage::ExitSizeMove, &around(0));
    assert_eq!(moved.actions, vec![Action::SaveSettings]);
    assert_eq!(
        position_panel_near_widget(&shell, widget, 1920, 1080, 96),
        Some(Placement { x: 55, y: 66, width: 390, height: 228 })
    );
}

#[test]
fn drags_give_no_place_to_an_unpinned_panel() {
    let mut shell = with_panel();
    on_panel_message(&mut shell, PanelMessage::ExitSizeMove, &around(0));
    assert_eq!(state(&shell).prefs.panel_pinned_x, None);
}

#[test]
fn open_panels_are_brought_up_to_date() {
    let mut shell = with_panel();
    assert!(refresh_panel_view(&shell).is_empty());
    show_panel(&mut shell);
    assert_eq!(
        refresh_panel_view(&shell),
        vec![
            Action::PositionPanel,
            Action::KillShimmerTimer,
            Action::InvalidatePanel { erase: true }
        ]
    );
}

#[test]
fn buttons_act_when_they_are_let_go() {
    let mut shell = with_panel();
    let moved = on_panel_message(&mut shell, PanelMessage::MouseMove { x: 290, y: 20 }, &around(0));
    assert_eq!(
        moved.actions,
        vec![
            Action::SetAccessibleTitle,
            Action::InvalidatePanel { erase: false },
            Action::TrackPanelLeave
        ]
    );
    let again = on_panel_message(&mut shell, PanelMessage::MouseMove { x: 291, y: 20 }, &around(0));
    assert_eq!(again.actions, vec![Action::TrackPanelLeave]);
    let down = on_panel_message(&mut shell, PanelMessage::LeftDown { x: 290, y: 20 }, &around(0));
    assert_eq!(
        down.actions,
        vec![Action::CapturePanel, Action::InvalidatePanel { erase: false }]
    );
    let up = on_panel_message(&mut shell, PanelMessage::LeftUp, &around(0));
    assert_eq!(
        up.actions,
        vec![
            Action::ReleaseMouse,
            Action::InvalidatePanel { erase: false },
            Action::SaveSettings,
            Action::InvalidatePanel { erase: true },
        ]
    );
    assert_eq!(up.reply, Reply::Value(0));
    assert!(state(&shell).prefs.panel_pinned);
}

#[test]
fn button_that_the_pointer_left_does_not_act() {
    let mut shell = with_panel();
    on_panel_message(&mut shell, PanelMessage::MouseMove { x: 290, y: 20 }, &around(0));
    on_panel_message(&mut shell, PanelMessage::LeftDown { x: 290, y: 20 }, &around(0));
    on_panel_message(&mut shell, PanelMessage::MouseMove { x: 330, y: 20 }, &around(0));
    let up = on_panel_message(&mut shell, PanelMessage::LeftUp, &around(0));
    assert_eq!(
        up.actions,
        vec![Action::ReleaseMouse, Action::InvalidatePanel { erase: false }]
    );
    assert!(!state(&shell).prefs.panel_pinned);
    let miss = on_panel_message(&mut shell, PanelMessage::LeftDown { x: 10, y: 100 }, &around(0));
    assert!(miss.actions.is_empty());
}

#[test]
fn buttons_do_what_they_are_for() {
    let mut shell = with_panel();
    assert_eq!(
        execute_panel_button(&mut shell, PanelButtonId::Refresh),
        vec![
            Action::RenderLayered,
            Action::RefreshPanelView,
            Action::SpawnPoll,
            Action::InvalidatePanel { erase: true }
        ]
    );
    assert_eq!(state(&shell).figures.session_text, "...");
    assert_eq!(state(&shell).figures.weekly_text, "...");
    assert!(state(&shell).polling.force_notify_auth_error);
    execute_panel_button(&mut shell, PanelButtonId::Pin);
    state_mut(&mut shell).prefs.panel_pinned_x = Some(4);
    execute_panel_button(&mut shell, PanelButtonId::Pin);
    assert!(!state(&shell).prefs.panel_pinned);
    assert_eq!(state(&shell).prefs.panel_pinned_x, None);
    assert_eq!(
        execute_panel_button(&mut shell, PanelButtonId::Settings),
        vec![Action::ShowContextMenu, Action::MenuDismissed]
    );
    assert!(state(&shell).panel_menu_open);
    assert_eq!(menu_dismissed(&mut shell), vec![Action::FocusPanel]);
    assert!(!state(&shell).panel_menu_open);
    assert!(execute_panel_button(&mut Shell::new(), PanelButtonId::Pin).is_empty());
    assert_eq!(refresh_from_panel(&mut Shell::new()).len(), 3);
}

#[test]
fn focus_goes_round() {
    let mut shell = with_panel();
    let order = [
        PanelButtonId::Pin,
        PanelButtonId::Settings,
        PanelButtonId::Refresh,
        PanelButtonId::Pin,
    ];
    for id in order {
        let tab = on_panel_message(&mut shell, PanelMessage::KeyDown(0x09), &around(0));
        assert_eq!(
            tab.actions,
            vec![Action::SetAccessibleTitle, Action::InvalidatePanel { erase: false }]
        );
        assert_eq!(state(&shell).panel.hot_button, Some(id));
    }
    let lost = on_panel_message(&mut shell, PanelMessage::KillFocus, &around(0));
    assert_eq!(lost.actions.len(), 2);
    assert_eq!(state(&shell).panel.hot_button, None);
    let left = on_panel_message(&mut shell, PanelMessage::MouseLeave, &around(0));
    assert!(left.actions.is_empty());
    state_mut(&mut shell).panel.buttons.clear();
    let tab = on_panel_message(&mut shell, PanelMessage::KeyDown(0x09), &around(0));
    assert!(tab.actions.is_empty());
}

#[test]
fn losing_the_focus_closes_the_panel() {
    let lose = PanelMessage::Activate { active: false };
    let mut shell = with_panel();
    show_panel(&mut shell);
    let gained = on_panel_message(&mut shell, PanelMessage::Activate { active: true }, &around(0));
    assert!(gained.actions.is_empty());
    state_mut(&mut shell).panel_menu_open = true;
    assert!(on_panel_message(&mut shell, lose, &around(0)).actions.is_empty());
    state_mut(&mut shell).panel_menu_open = false;
    state_mut(&mut shell).prefs.panel_pinned = true;
    assert!(on_panel_message(&mut shell, lose, &around(0)).actions.is_empty());
    state_mut(&mut shell).prefs.panel_pinned = false;
    let lost = on_panel_message(&mut shell, lose, &around(0));
    assert_eq!(lost.actions, vec![Action::HidePanelWindow]);
    assert_eq!(lost.reply, Reply::Default);
    assert!(!state(&shell).panel.visible);
}

#[test]
fn escape_closes_even_a_pinned_panel() {
    let mut shell = with_panel();
    show_panel(&mut shell);
    state_mut(&mut shell).prefs.panel_pinned = true;
    let escape = on_panel_message(&mut shell, PanelMessage::KeyDown(0x1B), &around(0));
    assert_eq!(escape.actions, vec![Action::SaveSettings, Action::HidePanelWindow]);
    let other = on_panel_message(&mut shell, PanelMessage::KeyDown(0x41), &around(0));
    assert_eq!(other.actions, vec![]);
    assert_eq!(other.reply, Reply::Value(0));
}

#[test]
fn pinned_panels_are_dragged_by_the_header() {
    let mut shell = with_panel();
    let test = |shell: &mut Shell| on_panel_message(shell, PanelMessage::HitTest, &around(0)).reply;
    assert_eq!(test(&mut shell), Reply::Default);
    state_mut(&mut shell).prefs.panel_pinned = true;
    assert_eq!(test(&mut shell), Reply::Value(2));
    let mut below = around(0);
    below.pointer_y = 45;
    assert!(below.is_in_range());
    assert_eq!(
        on_panel_message(&mut shell, PanelMessage::HitTest, &below).reply,
        Reply::Default
    );
    let cursor = on_panel_message(&mut shell, PanelMessage::SetCursor { hit: 2 }, &around(0));
    assert_eq!(cursor.actions, vec![Action::ShowCursor(CursorShape::Move)]);
    assert_eq!(cursor.reply, Reply::Value(1));
    let cursor = on_panel_message(&mut shell, PanelMessage::SetCursor { hit: 1 }, &around(0));
    assert_eq!(cursor.reply, Reply::Default);
}

#[test]
fn shimmer_ends_with_data() {
    let mut shell = with_panel();
    let tick = on_panel_message(&mut shell, PanelMessage::Shimmer, &around(0));
    assert_eq!(tick.actions, vec![Action::InvalidatePanel { erase: true }]);
    assert!(state(&shell).shimmer_phase);
    state_mut(&mut shell).figures.data = Some(Default::default());
    let tick = on_panel_message(&mut shell, PanelMessage::Shimmer, &around(0));
    assert_eq!(
        tick.actions,
        vec![Action::KillShimmerTimer, Action::InvalidatePanel { erase: true }]
    );
    assert!(!state(&shell).shimmer_phase);
}

#[test]
fn panel_paints_and_leaves_the_rest_to_the_system() {
    let mut shell = with_panel();
    let paint = on_panel_message(&mut shell, PanelMessage::Paint, &around(0));
    assert_eq!(paint.actions, vec![Action::PaintPanel]);
    let erase = on_panel_message(&mut shell, PanelMessage::EraseBackground, &around(0));
    assert_eq!(erase.reply, Reply::Value(1));
    let other = on_panel_message(&mut shell, PanelMessage::Other, &around(0));
    assert_eq!((other.actions.len(), other.reply), (0, Reply::Default));
}
