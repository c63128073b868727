use usage_monitor::geometry::total_widget_width;
use usage_monitor::geometry::Placement;
use usage_monitor::geometry::Rect;
use usage_monitor::geometry::TaskbarGeometry;
use usage_monitor::launch::first_state;
use usage_monitor::localization::LanguageId;
use usage_monitor::messages::Message;
use usage_monitor::models::Timestamp;
use usage_monitor::poll::poll_failed;
use usage_monitor::poll::PollError;
use usage_monitor::settings::SettingsFile;
use usage_monitor::state::Action;
use usage_monitor::state::AppState;
use usage_monitor::state::CursorShape;
use usage_monitor::state::InstallChannel;
use usage_monitor::state::Reply;
use usage_monitor::state::Response;
use usage_monitor::state::Shell;
use usage_monitor::state::TimerKind;
use usage_monitor::widget::drag_to;
use usage_monitor::widget::on_message;
use usage_monitor::widget::on_tray_action;
use usage_monitor::widget::on_tray_location_changed;
use usage_monitor::widget::position_at_taskbar;
use usage_monitor::widget::suppress_tray_reposition;
use usage_monitor::widget::tray_reposition_is_suppressed;
use usage_monitor::widget::Surroundings;
use usage_monitor::widget::TrayAction;

fn app() -> Shell {
    let mut shell = Shell::new();
    shell.app = Some(first_state(
        100,
        true,
        &SettingsFile::default(),
        None,
        LanguageId::English,
        InstallChannel::Portable,
    ));
    shell
}

fn state(shell: &Shell) -> &AppState {
    shell.app.as_ref().unwrap()
}

fn state_mut(shell: &mut Shell) -> &mut AppState {
    shell.app.as_mut().unwrap()
}

const MS: u64 = 1_000_000;

fn around(now: u64) -> Surroundings {
    Surroundings { dpi: 96, now, cursor_x: 1000, cursor_client_x: 5 }
}

fn send(shell: &mut Shell, message: Message) -> Response {
    on_message(shell, message, &around(0), 50)
}

fn taskbar() -> TaskbarGeometry {
    TaskbarGeometry {
        rect: Rect { left: 0, top: 1032, right: 1920, bottom: 1080 },
        tray_left: Some(1700),
    }
}

#[test]
fn embedded_widgets_are_not_painted() {
    let mut shell = app();
    assert_eq!(send(&mut shell, Message::Paint).actions, vec![Action::PaintFallback]);
    state_mut(&mut shell).embedded = true;
    let paint = send(&mut shell, Message::Paint);
    assert_eq!(paint.actions, vec![Action::ValidatePaint]);
    assert_eq!(paint.reply, Reply::Value(0));
    assert_eq!(send(&mut shell, Message::EraseBackground).reply, Reply::Value(1));
}

#[test]
fn screen_changes_are_followed() {
    let mut shell = app();
    let after = vec![
        Action::RefreshDpi,
        Action::PositionAtTaskbar,
        Action::RefreshPanelView,
        Action::RenderLayered,
    ];
    assert_eq!(send(&mut shell, Message::DisplayChange).actions, after);
    let dpi = send(&mut shell, Message::DpiChange(144)).actions;
    assert_eq!(dpi[0], Action::StoreDpi(144));
    assert_eq!(dpi[1..], after[..]);
    let setting = send(&mut shell, Message::SettingChange).actions;
    assert_eq!(setting[..2], [Action::CheckTheme, Action::CheckLanguage]);
    assert_eq!(setting[2..], after[..]);
}

#[test]
fn timers_do_their_work() {
    let mut shell = app();
    let fire = |shell: &mut Shell, timer| send(shell, Message::Timer(timer)).actions;
    assert_eq!(fire(&mut shell, Some(TimerKind::Poll)), vec![Action::SpawnPoll]);
    assert_eq!(
        fire(&mut shell, Some(TimerKind::Countdown)),
        vec![
            Action::UpdateDisplay,
            Action::RenderLayered,
            Action::RefreshPanelView,
            Action::ScheduleCountdown
        ]
    );
    assert_eq!(fire(&mut shell, Some(TimerKind::ResetPoll)), vec![Action::SpawnPoll]);
    assert_eq!(
        fire(&mut shell, Some(TimerKind::UpdateCheck)),
        vec![Action::BeginUpdateCheck { interactive: false }]
    );
    assert!(fire(&mut shell, None).is_empty());
    poll_failed(&mut shell, PollError::TokenExpired, Timestamp { nanos: 0 }, vec![]);
    assert!(fire(&mut shell, Some(TimerKind::ResetPoll)).is_empty());
    assert!(matches!(
        fire(&mut shell, Some(TimerKind::Poll))[..],
        [Action::SampleCredentials { .. }]
    ));
}

#[test]
fn finished_work_is_followed_up() {
    let mut shell = app();
    assert_eq!(
        send(&mut shell, Message::UsageUpdated).actions,
        vec![
            Action::CheckTheme,
            Action::CheckLanguage,
            Action::RenderLayered,
            Action::RefreshPanelView,
            Action::ScheduleCountdown,
            Action::SuppressTrayReposition,
            Action::SyncTrayIcons
        ]
    );
    assert_eq!(
        send(&mut shell, Message::UpdateCheckComplete).actions,
        vec![Action::ScheduleAutoUpdateCheck]
    );
    assert_eq!(send(&mut shell, Message::RightUp).actions, vec![Action::ShowContextMenu]);
    assert_eq!(send(&mut shell, Message::Tray).actions, vec![Action::ReadTrayAction]);
    assert_eq!(send(&mut shell, Message::Other).reply, Reply::Default);
}

#[test]
fn click_on_the_widget_closes_an_open_panel() {
    let mut shell = app();
    state_mut(&mut shell).panel.hwnd = Some(7);
    assert_eq!(send(&mut shell, Message::MouseActivate).reply, Reply::Default);
    state_mut(&mut shell).panel.visible = true;
    let activate = on_message(&mut shell, Message::MouseActivate, &around(0), 50);
    assert_eq!(activate.actions, vec![Action::HidePanelWindow]);
    assert_eq!(activate.reply, Reply::Value(3));
    let up = on_message(&mut shell, Message::LeftUp { x: 100 }, &around(199 * MS), 50);
    assert!(up.actions.is_empty());
    assert!(!state(&shell).panel.visible);
    on_message(&mut shell, Message::LeftUp { x: 100 }, &around(200 * MS), 50);
    assert!(state(&shell).panel.visible);
    state_mut(&mut shell).prefs.panel_pinned = true;
    assert_eq!(send(&mut shell, Message::MouseActivate).reply, Reply::Default);
    assert!(state(&shell).panel.visible);
}

#[test]
fn handle_shows_the_resize_pointer() {
    let mut shell = app();
    let on = send(&mut shell, Message::SetCursor { hit: 1 });
    assert_eq!(on.actions, vec![Action::ShowCursor(CursorShape::ResizeHorizontally)]);
    assert_eq!(on.reply, Reply::Value(1));
    let off = Surroundings { cursor_client_x: 13, ..around(0) };
    assert!(off.is_in_range());
    let beside = on_message(&mut shell, Message::SetCursor { hit: 1 }, &off, 50);
    assert_eq!(beside.reply, Reply::Default);
    assert_eq!(send(&mut shell, Message::SetCursor { hit: 0 }).reply, Reply::Default);
    state_mut(&mut shell).drag.dragging = true;
    assert_eq!(
        on_message(&mut shell, Message::SetCursor { hit: 0 }, &off, 50).reply,
        Reply::Value(1)
    );
}

#[test]
fn widget_is_dragged_along_the_taskbar() {
    let width = total_widget_width(96);
    let mut shell = app();
    let s = state_mut(&mut shell);
    s.prefs.tray_offset = 30;
    s.embedded = true;
    s.windows.taskbar_hwnd = Some(1);
    assert!(send(&mut shell, Message::LeftDown { x: 13 }).actions.is_empty());
    let down = send(&mut shell, Message::LeftDown { x: 12 });
    assert_eq!(down.actions, vec![Action::CaptureMouse]);
    assert_eq!(send(&mut shell, Message::MouseMove).actions, vec![Action::SampleDrag]);
    assert_eq!(position_at_taskbar(&shell, Some(taskbar()), 96), None);
    let actions = drag_to(&mut shell, 950, Some(taskbar()), 96);
    assert_eq!(
        actions,
        vec![
            Action::MoveWidget { x: 1700 - width - 80, y: 2, width, height: 46 },
            Action::PositionPanel
        ]
    );
    assert_eq!(state(&shell).prefs.tray_offset, 80);
    drag_to(&mut shell, -5000, Some(taskbar()), 96);
    assert_eq!(state(&shell).prefs.tray_offset, 1700 - width);
    drag_to(&mut shell, 5000, Some(taskbar()), 96);
    assert_eq!(state(&shell).prefs.tray_offset, 0);
    assert!(drag_to(&mut shell, -5000, None, 96).is_empty());
    assert_eq!(state(&shell).prefs.tray_offset, 6030);
    drag_to(&mut shell, 1000, Some(taskbar()), 96);
    assert_eq!(state(&shell).prefs.tray_offset, 30);
    let up = send(&mut shell, Message::LeftUp { x: 100 });
    assert_eq!(up.actions, vec![Action::ReleaseMouse, Action::SaveSettings]);
    assert!(!state(&shell).drag.dragging);
    assert_eq!(state(&shell).prefs.tray_offset, 30);
    assert_eq!(
        position_at_taskbar(&shell, Some(taskbar()), 96),
        Some(Placement { x: 1700 - width - 30, y: 2, width, height: 46 })
    );
    assert!(drag_to(&mut Shell::new(), 0, Some(taskbar()), 96).is_empty());
}

#[test]
fn widget_needs_a_taskbar_to_stand_on() {
    let mut shell = app();
    assert_eq!(position_at_taskbar(&shell, Some(taskbar()), 96), None);
    state_mut(&mut shell).windows.taskbar_hwnd = Some(1);
    assert_eq!(position_at_taskbar(&shell, None, 96), None);
    assert_eq!(position_at_taskbar(&Shell::new(), Some(taskbar()), 96), None);
}

#[test]
fn popup_comes_up_once() {
    let mut shell = app();
    state_mut(&mut shell).windows.popup_hwnd = Some(8);
    assert_eq!(
        send(&mut shell, Message::MouseMove).actions,
        vec![Action::TrackMouseLeave, Action::ShowHoverPopup]
    );
    assert!(send(&mut shell, Message::MouseMove).actions.is_empty());
    assert_eq!(send(&mut shell, Message::MouseLeave).actions, vec![Action::HidePopup(8)]);
    assert_eq!(send(&mut shell, Message::MouseMove).actions.len(), 2);
    assert!(send(&mut Shell::new(), Message::MouseMove).actions.is_empty());
}

#[test]
fn tray_clicks_open_the_panel_or_the_menu() {
    let mut shell = app();
    state_mut(&mut shell).panel.hwnd = Some(7);
    on_tray_action(&mut shell, TrayAction::ToggleWidget, 0);
    assert!(state(&shell).panel.visible);
    assert_eq!(
        on_tray_action(&mut shell, TrayAction::ShowContextMenu, 0),
        vec![Action::ShowContextMenu]
    );
    assert!(on_tray_action(&mut shell, TrayAction::Nothing, 0).is_empty());
}

#[test]
fn widget_follows_the_notification_area() {
    let follow = vec![Action::PositionAtTaskbar, Action::RenderLayered];
    let mut shell = app();
    assert!(on_tray_location_changed(&mut shell, 9, 0).is_empty());
    state_mut(&mut shell).windows.tray_notify_hwnd = Some(9);
    assert!(on_tray_location_changed(&mut shell, 10, 0).is_empty());
    assert_eq!(on_tray_location_changed(&mut shell, 9, 0), follow);
    assert!(on_tray_location_changed(&mut shell, 9, 500 * MS).is_empty());
    assert!(on_tray_location_changed(&mut shell, 9, 501 * MS - 1).is_empty());
    assert_eq!(on_tray_location_changed(&mut shell, 9, 501 * MS), follow);
    suppress_tray_reposition(&mut shell, 1000 * MS);
    assert!(on_tray_location_changed(&mut shell, 9, 1749 * MS).is_empty());
    assert_eq!(shell.tray_reposition_until, Some(1750 * MS));
    assert_eq!(on_tray_location_changed(&mut shell, 9, 1750 * MS), follow);
    assert_eq!(shell.tray_reposition_until, None);
    assert!(!tray_reposition_is_suppressed(&mut shell, 0));
}

#[test]
fn end_of_the_window_cleans_up() {
    let mut shell = app();
    let always =
        vec![Action::RemoveTrayIcons, Action::ShutdownGraphics, Action::PostQuit];
    assert_eq!(send(&mut shell, Message::Destroy).actions, always);
    let s = state_mut(&mut shell);
    s.windows.win_event_hook = Some(3);
    s.panel.hwnd = Some(7);
    let actions = send(&mut shell, Message::Destroy).actions;
    assert_eq!(actions[..2], [Action::Unhook(3), Action::DestroyPanel(7)]);
    assert_eq!(actions[2..], always[..]);
}

#[test]
fn commands_go_through_the_window() {
    let mut shell = app();
    let reset = send(&mut shell, Message::Command(30));
    assert_eq!(reset.actions, vec![Action::SaveSettings, Action::PositionAtTaskbar]);
    assert_eq!(reset.reply, Reply::Value(0));
    let toggle = send(&mut shell, Message::Command(50));
    assert_eq!(
        toggle.actions,
        vec![Action::SaveSettings, Action::HidePanel, Action::HideWidget]
    );
}

#[test]
fn handle_grows_with_any_dpi() {
    let mut shell = app();
    let huge = Surroundings { dpi: u32::MAX, cursor_client_x: 500_000_000, ..around(0) };
    assert!(huge.is_in_range());
    let on = on_message(&mut shell, Message::SetCursor { hit: 1 }, &huge, 50);
    assert_eq!(on.reply, Reply::Value(1));
    let none = Surroundings { dpi: 0, cursor_client_x: 0, ..around(0) };
    let beside = on_message(&mut shell, Message::SetCursor { hit: 1 }, &none, 50);
    assert_eq!(beside.reply, Reply::Default);
}
