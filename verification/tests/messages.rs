use usage_monitor::messages;
use usage_monitor::messages::decode_message;
use usage_monitor::messages::decode_panel_message;
use usage_monitor::messages::hit_test_point;
use usage_monitor::messages::Message;
use usage_monitor::messages::NativeIds;
use usage_monitor::messages::PanelMessage;
use usage_monitor::state::TimerKind;

fn ids() -> NativeIds {
    NativeIds {
        timer_poll: 1,
        timer_countdown: 2,
        timer_reset_poll: 3,
        timer_update_check: 4,
        timer_panel_shimmer: 5,
        app_usage_updated: 0x8001,
        app_tray: 0x8003,
        toggle_widget: 50,
    }
}

#[test]
fn widget_messages_are_decoded() {
    let ids = ids();
    let decode = |msg: u32, wparam: u64, lparam: i64| decode_message(&ids, msg, wparam, lparam);
    assert_eq!(decode(messages::WM_PAINT, 0, 0), Message::Paint);
    assert_eq!(decode(messages::WM_ERASEBKGND, 0, 0), Message::EraseBackground);
    assert_eq!(decode(messages::WM_DISPLAYCHANGE, 0, 0), Message::DisplayChange);
    assert_eq!(decode(0x02E0, 0x0090_0090, 0), Message::DpiChange(144));
    assert_eq!(decode(messages::WM_SETTINGCHANGE, 0, 0), Message::SettingChange);
    assert_eq!(decode(messages::WM_TIMER, 1, 0), Message::Timer(Some(TimerKind::Poll)));
    assert_eq!(decode(messages::WM_TIMER, 2, 0), Message::Timer(Some(TimerKind::Countdown)));
    assert_eq!(decode(messages::WM_TIMER, 3, 0), Message::Timer(Some(TimerKind::ResetPoll)));
    assert_eq!(decode(messages::WM_TIMER, 4, 0), Message::Timer(Some(TimerKind::UpdateCheck)));
    assert_eq!(decode(messages::WM_TIMER, 5, 0), Message::Timer(None));
    assert_eq!(decode(0x8001, 0, 0), Message::UsageUpdated);
    assert_eq!(decode(0x8002, 0, 0), Message::UpdateCheckComplete);
    assert_eq!(decode(0x8003, 0, 0), Message::Tray);
    assert_eq!(decode(messages::WM_MOUSEACTIVATE, 0, 0), Message::MouseActivate);
    assert_eq!(decode(messages::WM_SETCURSOR, 0, 0x0200_0001), Message::SetCursor { hit: 1 });
    assert_eq!(decode(messages::WM_LBUTTONDOWN, 0, 0x0005_FFFF), Message::LeftDown { x: -1 });
    assert_eq!(decode(messages::WM_LBUTTONUP, 0, 0x0005_0007), Message::LeftUp { x: 7 });
    assert_eq!(decode(messages::WM_MOUSEMOVE, 0, 0), Message::MouseMove);
    assert_eq!(decode(0x02A3, 0, 0), Message::MouseLeave);
    assert_eq!(decode(messages::WM_RBUTTONUP, 0, 0), Message::RightUp);
    assert_eq!(decode(messages::WM_COMMAND, 0x0001_001F, 0), Message::Command(31));
    assert_eq!(decode(messages::WM_DESTROY, 0, 0), Message::Destroy);
    assert_eq!(decode(messages::WM_KEYDOWN, 0, 0), Message::Other);
}

#[test]
fn panel_messages_are_decoded() {
    let ids = ids();
    let decode =
        |msg: u32, wparam: u64, lparam: i64| decode_panel_message(&ids, msg, wparam, lparam);
    assert_eq!(decode(messages::WM_ERASEBKGND, 0, 0), PanelMessage::EraseBackground);
    assert_eq!(decode(messages::WM_PAINT, 0, 0), PanelMessage::Paint);
    assert_eq!(
        decode(messages::WM_MOUSEMOVE, 0, 0xFFFE_0003),
        PanelMessage::MouseMove { x: 3, y: -2 }
    );
    assert_eq!(decode(0x02A3, 0, 0), PanelMessage::MouseLeave);
    assert_eq!(decode(messages::WM_ACTIVATE, 0x1_0000, 0), PanelMessage::Activate { active: false });
    assert_eq!(decode(messages::WM_ACTIVATE, 2, 0), PanelMessage::Activate { active: true });
    assert_eq!(decode(messages::WM_SETCURSOR, 0, 0x0200_0002), PanelMessage::SetCursor { hit: 2 });
    assert_eq!(decode(messages::WM_NCHITTEST, 0, 0), PanelMessage::HitTest);
    assert_eq!(
        decode(messages::WM_LBUTTONDOWN, 0, 0x0004_0003),
        PanelMessage::LeftDown { x: 3, y: 4 }
    );
    assert_eq!(decode(messages::WM_LBUTTONUP, 0, 0), PanelMessage::LeftUp);
    assert_eq!(decode(messages::WM_EXITSIZEMOVE, 0, 0), PanelMessage::ExitSizeMove);
    assert_eq!(decode(messages::WM_KEYDOWN, 0x1_0000_001B, 0), PanelMessage::KeyDown(0x1B));
    assert_eq!(decode(messages::WM_KILLFOCUS, 0, 0), PanelMessage::KillFocus);
    assert_eq!(decode(messages::WM_TIMER, 5, 0), PanelMessage::Shimmer);
    assert_eq!(decode(messages::WM_TIMER, 1, 0), PanelMessage::Other);
    assert_eq!(decode(messages::WM_DESTROY, 0, 0), PanelMessage::Other);
}

#[test]
fn hit_tests_name_a_point_on_the_screen() {
    assert_eq!(hit_test_point(0x0010_FFF0), (-16, 16));
    assert_eq!(hit_test_point(-1), (-1, -1));
}
