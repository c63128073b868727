//! Window messages: what the numbers of a message stand for.

use crate::geometry::hiword;
use crate::geometry::loword;
use crate::geometry::signed_word;
use crate::geometry::word_coord;
use crate::state::TimerKind;
use vstd::prelude::*;

verus! {

pub const WM_DESTROY: u32 = 0x0002;

pub const WM_ACTIVATE: u32 = 0x0006;

pub const WM_KILLFOCUS: u32 = 0x0008;

pub const WM_PAINT: u32 = 0x000F;

pub const WM_ERASEBKGND: u32 = 0x0014;

pub const WM_SETTINGCHANGE: u32 = 0x001A;

pub const WM_SETCURSOR: u32 = 0x0020;

pub const WM_MOUSEACTIVATE: u32 = 0x0021;

pub const WM_DISPLAYCHANGE: u32 = 0x007E;

pub const WM_NCHITTEST: u32 = 0x0084;

pub const WM_KEYDOWN: u32 = 0x0100;

pub const WM_COMMAND: u32 = 0x0111;

pub const WM_TIMER: u32 = 0x0113;

pub const WM_MOUSEMOVE: u32 = 0x0200;

pub const WM_LBUTTONDOWN: u32 = 0x0201;

pub const WM_LBUTTONUP: u32 = 0x0202;

pub const WM_RBUTTONUP: u32 = 0x0205;

pub const WM_EXITSIZEMOVE: u32 = 0x0232;

pub const WM_MOUSELEAVE: u32 = 0x02A3;

pub const WM_DPICHANGED: u32 = 0x02E0;

/// The first message number of the program's own.
pub const WM_APP: u32 = 0x8000;

/// A search for newer releases has ended.
pub const WM_APP_UPDATE_CHECK_COMPLETE: u32 = WM_APP + 2;

pub const KEY_TAB: u32 = 0x09;

pub const KEY_ESCAPE: u32 = 0x1B;

/// The numbers under which the system reports timers, tray messages, finished
/// polls and the menu entry that shows the widget.
#[derive(Clone, Copy, Debug)]
pub struct NativeIds {
    pub timer_poll: u64,
    pub timer_countdown: u64,
    pub timer_reset_poll: u64,
    pub timer_update_check: u64,
    pub timer_panel_shimmer: u64,
    pub app_usage_updated: u32,
    pub app_tray: u32,
    pub toggle_widget: u16,
}

/// A message to the widget's window.
#[derive(Clone, Copy, Debug, PartialEq, Eq, Structural)]
pub enum Message {
    Paint,
    EraseBackground,
    DisplayChange,
    DpiChange(u32),
    SettingChange,
    Timer(Option<TimerKind>),
    UsageUpdated,
    UpdateCheckComplete,
    MouseActivate,
    SetCursor { hit: u16 },
    LeftDown { x: i32 },
    MouseMove,
    MouseLeave,
    LeftUp { x: i32 },
    RightUp,
    Command(u16),
    Tray,
    Destroy,
    Other,
}

/// A message to the panel's window.
#[derive(Clone, Copy, Debug, PartialEq, Eq, Structural)]
pub enum PanelMessage {
    EraseBackground,
    Paint,
    MouseMove { x: i32, y: i32 },
    MouseLeave,
    Activate { active: bool },
    SetCursor { hit: u16 },
    HitTest,
    LeftDown { x: i32, y: i32 },
    LeftUp,
    ExitSizeMove,
    KeyDown(u32),
    KillFocus,
    Shimmer,
    Other,
}

/// The low word of a parameter.
pub open spec fn low_word(value: int) -> int {
    value % 0x1_0000
}

/// The word above the low one.
pub open spec fn high_word(value: int) -> int {
    (value / 0x1_0000) % 0x1_0000
}

fn low_word_of(value: i64) -> (r: u16)
    ensures
        r == low_word(value as int),
{
    assert((value as u32) % 0x1_0000 == value % 0x1_0000) by (bit_vector);
    loword(value as u32)
}

fn high_word_of(value: i64) -> (r: u16)
    ensures
        r == high_word(value as int),
{
    assert((value as u32) / 0x1_0000 == (value / 0x1_0000) % 0x1_0000) by (bit_vector);
    hiword(value as u32)
}

fn low_word_of_wparam(value: u64) -> (r: u16)
    ensures
        r == low_word(value as int),
{
    assert((value as u32) % 0x1_0000 == value % 0x1_0000) by (bit_vector);
    loword(value as u32)
}

/// The widget's timer with that number.
pub open spec fn timer_numbered(ids: NativeIds, id: u64) -> Option<TimerKind> {
    if id == ids.timer_poll {
        Some(TimerKind::Poll)
    } else if id == ids.timer_countdown {
        Some(TimerKind::Countdown)
    } else if id == ids.timer_reset_poll {
        Some(TimerKind::ResetPoll)
    } else if id == ids.timer_update_check {
        Some(TimerKind::UpdateCheck)
    } else {
        None
    }
}

fn timer_of(ids: &NativeIds, id: u64) -> (r: Option<TimerKind>)
    ensures
        r == timer_numbered(*ids, id),
{
    if id == ids.timer_poll {
        Some(TimerKind::Poll)
    } else if id == ids.timer_countdown {
        Some(TimerKind::Countdown)
    } else if id == ids.timer_reset_poll {
        Some(TimerKind::ResetPoll)
    } else if id == ids.timer_update_check {
        Some(TimerKind::UpdateCheck)
    } else {
        None
    }
}

/// The message that the numbers of a message to the widget stand for.
pub open spec fn message_numbered(ids: NativeIds, msg: u32, wparam: u64, lparam: i64) -> Message {
    if msg == WM_PAINT {
        Message::Paint
    } else if msg == WM_ERASEBKGND {
        Message::EraseBackground
    } else if msg == WM_DISPLAYCHANGE {
        Message::DisplayChange
    } else if msg == WM_DPICHANGED {
        Message::DpiChange(low_word(wparam as int) as u32)
    } else if msg == WM_SETTINGCHANGE {
        Message::SettingChange
    } else if msg == WM_TIMER {
        Message::Timer(timer_numbered(ids, wparam))
    } else if msg == ids.app_usage_updated {
        Message::UsageUpdated
    } else if msg == WM_APP_UPDATE_CHECK_COMPLETE {
        Message::UpdateCheckComplete
    } else if msg == WM_MOUSEACTIVATE {
        Message::MouseActivate
    } else if msg == WM_SETCURSOR {
        Message::SetCursor { hit: low_word(lparam as int) as u16 }
    } else if msg == WM_LBUTTONDOWN {
        Message::LeftDown { x: signed_word(lparam as int) as i32 }
    } else if msg == WM_MOUSEMOVE {
        Message::MouseMove
    } else if msg == WM_MOUSELEAVE {
        Message::MouseLeave
    } else if msg == WM_LBUTTONUP {
        Message::LeftUp { x: signed_word(lparam as int) as i32 }
    } else if msg == WM_RBUTTONUP {
        Message::RightUp
    } else if msg == WM_COMMAND {
        Message::Command(low_word(wparam as int) as u16)
    } else if msg == ids.app_tray {
        Message::Tray
    } else if msg == WM_DESTROY {
        Message::Destroy
    } else {
        Message::Other
    }
}

/// Tells what the numbers of a message to the widget stand for.
pub fn decode_message(ids: &NativeIds, msg: u32, wparam: u64, lparam: i64) -> (r: Message)
    ensures
        r == message_numbered(*ids, msg, wparam, lparam),
{
    if msg == WM_PAINT {
        Message::Paint
    } else if msg == WM_ERASEBKGND {
        Message::EraseBackground
    } else if msg == WM_DISPLAYCHANGE {
        Message::DisplayChange
    } else if msg == WM_DPICHANGED {
        Message::DpiChange(low_word_of_wparam(wparam) as u32)
    } else if msg == WM_SETTINGCHANGE {
        Message::SettingChange
    } else if msg == WM_TIMER {
        Message::Timer(timer_of(ids, wparam))
    } else if msg == ids.app_usage_updated {
        Message::UsageUpdated
    } else if msg == WM_APP_UPDATE_CHECK_COMPLETE {
        Message::UpdateCheckComplete
    } else if msg == WM_MOUSEACTIVATE {
        Message::MouseActivate
    } else if msg == WM_SETCURSOR {
        Message::SetCursor { hit: low_word_of(lparam) }
    } else if msg == WM_LBUTTONDOWN {
        Message::LeftDown { x: word_coord(low_word_of(lparam)) }
    } else if msg == WM_MOUSEMOVE {
        Message::MouseMove
    } else if msg == WM_MOUSELEAVE {
        Message::MouseLeave
    } else if msg == WM_LBUTTONUP {
        Message::LeftUp { x: word_coord(low_word_of(lparam)) }
    } else if msg == WM_RBUTTONUP {
        Message::RightUp
    } else if msg == WM_COMMAND {
        Message::Command(low_word_of_wparam(wparam))
    } else if msg == ids.app_tray {
        Message::Tray
    } else if msg == WM_DESTROY {
        Message::Destroy
    } else {
        Message::Other
    }
}

/// The message that the numbers of a message to the panel stand for.
pub open spec fn panel_message_numbered(
    ids: NativeIds,
    msg: u32,
    wparam: u64,
    lparam: i64,
) -> PanelMessage {
    let x = signed_word(lparam as int) as i32;
    let y = signed_word(high_word(lparam as int)) as i32;
    if msg == WM_ERASEBKGND {
        PanelMessage::EraseBackground
    } else if msg == WM_PAINT {
        PanelMessage::Paint
    } else if msg == WM_MOUSEMOVE {
        PanelMessage::MouseMove { x, y }
    } else if msg == WM_MOUSELEAVE {
        PanelMessage::MouseLeave
    } else if msg == WM_ACTIVATE {
        PanelMessage::Activate { active: low_word(wparam as int) != 0 }
    } else if msg == WM_SETCURSOR {
        PanelMessage::SetCursor { hit: low_word(lparam as int) as u16 }
    } else if msg == WM_NCHITTEST {
        PanelMessage::HitTest
    } else if msg == WM_LBUTTONDOWN {
        PanelMessage::LeftDown { x, y }
    } else if msg == WM_LBUTTONUP {
        PanelMessage::LeftUp
    } else if msg == WM_EXITSIZEMOVE {
        PanelMessage::ExitSizeMove
    } else if msg == WM_KEYDOWN {
        PanelMessage::KeyDown(wparam as u32)
    } else if msg == WM_KILLFOCUS {
        PanelMessage::KillFocus
    } else if msg == WM_TIMER && wparam == ids.timer_panel_shimmer {
        PanelMessage::Shimmer
    } else {
        PanelMessage::Other
    }
}

/// Tells what the numbers of a message to the panel stand for.
pub fn decode_panel_message(ids: &NativeIds, msg: u32, wparam: u64, lparam: i64) -> (r:
    PanelMessage)
    ensures
        r == panel_message_numbered(*ids, msg, wparam, lparam),
{
    let x: i32 = word_coord(low_word_of(lparam));
    let y: i32 = word_coord(high_word_of(lparam));
    if msg == WM_ERASEBKGND {
        PanelMessage::EraseBackground
    } else if msg == WM_PAINT {
        PanelMessage::Paint
    } else if msg == WM_MOUSEMOVE {
        PanelMessage::MouseMove { x, y }
    } else if msg == WM_MOUSELEAVE {
        PanelMessage::MouseLeave
    } else if msg == WM_ACTIVATE {
        PanelMessage::Activate { active: low_word_of_wparam(wparam) != 0 }
    } else if msg == WM_SETCURSOR {
        PanelMessage::SetCursor { hit: low_word_of(lparam) }
    } else if msg == WM_NCHITTEST {
        PanelMessage::HitTest
    } else if msg == WM_LBUTTONDOWN {
        PanelMessage::LeftDown { x, y }
    } else if msg == WM_LBUTTONUP {
        PanelMessage::LeftUp
    } else if msg == WM_EXITSIZEMOVE {
        PanelMessage::ExitSizeMove
    } else if msg == WM_KEYDOWN {
        PanelMessage::KeyDown(wparam as u32)
    } else if msg == WM_KILLFOCUS {
        PanelMessage::KillFocus
    } else if msg == WM_TIMER && wparam == ids.timer_panel_shimmer {
        PanelMessage::Shimmer
    } else {
        PanelMessage::Other
    }
}

/// The point on the screen that a hit test asks about.
pub fn hit_test_point(lparam: i64) -> (r: (i32, i32))
    ensures
        r.0 == signed_word(lparam as int),
        r.1 == signed_word(high_word(lparam as int)),
{
    (word_coord(low_word_of(lparam)), word_coord(high_word_of(lparam)))
}

} // verus!
