//! What the numbers of the window messages stand for.

use crate::messages::decode_message;
use crate::messages::decode_panel_message;
use crate::messages::hit_test_point;
use crate::messages::Message;
use crate::messages::NativeIds;
use crate::messages::PanelMessage;
use crate::state::TimerKind;
use vstd::prelude::*;

verus! {

/// A coordinate of 16 bits with a sign, whose bits are the low word of a number.
pub open spec fn is_low_word_of(coord: int, number: int) -> bool {
    &&& -0x8000 <= coord < 0x8000
    &&& (number - coord) % 0x1_0000 == 0
}

/// The numbers of the messages that the system sends to the widget.
pub open spec fn widget_hears(msg: u32) -> bool {
    ||| msg == 0x0002
    ||| msg == 0x000F
    ||| msg == 0x0014
    ||| msg == 0x001A
    ||| msg == 0x0020
    ||| msg == 0x0021
    ||| msg == 0x007E
    ||| msg == 0x0111
    ||| msg == 0x0113
    ||| msg == 0x0200
    ||| msg == 0x0201
    ||| msg == 0x0202
    ||| msg == 0x0205
    ||| msg == 0x02A3
    ||| msg == 0x02E0
    ||| msg == 0x8002
}

/// The messages to the widget are told apart by the numbers that the system gives
/// them.
pub proof fn messages_have_their_numbers(
    ids: NativeIds,
    msg: u32,
    wparam: u64,
    lparam: i64,
    r: Message,
)
    requires
        call_ensures(decode_message, (&ids, msg, wparam, lparam), r),
        msg != ids.app_usage_updated,
        msg != ids.app_tray,
    ensures
        r is Destroy <==> msg == 0x0002,
        r is Paint <==> msg == 0x000F,
        r is EraseBackground <==> msg == 0x0014,
        r is SettingChange <==> msg == 0x001A,
        r is SetCursor <==> msg == 0x0020,
        r is MouseActivate <==> msg == 0x0021,
        r is DisplayChange <==> msg == 0x007E,
        r is Command <==> msg == 0x0111,
        r is Timer <==> msg == 0x0113,
        r is MouseMove <==> msg == 0x0200,
        r is LeftDown <==> msg == 0x0201,
        r is LeftUp <==> msg == 0x0202,
        r is RightUp <==> msg == 0x0205,
        r is MouseLeave <==> msg == 0x02A3,
        r is DpiChange <==> msg == 0x02E0,
        r is UpdateCheckComplete <==> msg == 0x8002,
        r is Other <==> !widget_hears(msg),
{
}

/// The messages of the program's own have the numbers that they were given.
pub proof fn own_messages_have_their_numbers(
    ids: NativeIds,
    msg: u32,
    wparam: u64,
    lparam: i64,
    r: Message,
)
    requires
        call_ensures(decode_message, (&ids, msg, wparam, lparam), r),
        !widget_hears(msg),
    ensures
        r is UsageUpdated <==> msg == ids.app_usage_updated,
        r is Tray <==> msg == ids.app_tray && msg != ids.app_usage_updated,
{
}

/// What comes with a message to the widget: the DPI and the command are low words,
/// the coordinate has a sign, and a timer is the one with that number.
pub proof fn messages_carry_their_parameters(
    ids: NativeIds,
    msg: u32,
    wparam: u64,
    lparam: i64,
    r: Message,
)
    requires
        call_ensures(decode_message, (&ids, msg, wparam, lparam), r),
    ensures
        r matches Message::DpiChange(dpi) ==> dpi == wparam % 0x1_0000,
        r matches Message::Command(id) ==> id == wparam % 0x1_0000,
        r matches Message::SetCursor { hit } ==> hit == lparam % 0x1_0000,
        r matches Message::LeftDown { x } ==> is_low_word_of(x as int, lparam as int),
        r matches Message::LeftUp { x } ==> is_low_word_of(x as int, lparam as int),
        r matches Message::Timer(timer) ==> {
            let poll = wparam == ids.timer_poll;
            let countdown = wparam == ids.timer_countdown;
            let reset = wparam == ids.timer_reset_poll;
            let update = wparam == ids.timer_update_check;
            &&& timer == Some(TimerKind::Poll) <==> poll
            &&& timer == Some(TimerKind::Countdown) <==> countdown && !poll
            &&& timer == Some(TimerKind::ResetPoll) <==> reset && !countdown && !poll
            &&& timer == Some(TimerKind::UpdateCheck) <==> update && !reset && !countdown && !poll
        },
{
}

/// The messages to the panel are told apart by the numbers that the system gives
/// them, and the shimmer by that of its timer.
pub proof fn panel_messages_have_their_numbers(
    ids: NativeIds,
    msg: u32,
    wparam: u64,
    lparam: i64,
    r: PanelMessage,
)
    requires
        call_ensures(decode_panel_message, (&ids, msg, wparam, lparam), r),
    ensures
        r is Activate <==> msg == 0x0006,
        r is KillFocus <==> msg == 0x0008,
        r is Paint <==> msg == 0x000F,
        r is EraseBackground <==> msg == 0x0014,
        r is SetCursor <==> msg == 0x0020,
        r is HitTest <==> msg == 0x0084,
        r is KeyDown <==> msg == 0x0100,
        r is MouseMove <==> msg == 0x0200,
        r is LeftDown <==> msg == 0x0201,
        r is LeftUp <==> msg == 0x0202,
        r is ExitSizeMove <==> msg == 0x0232,
        r is MouseLeave <==> msg == 0x02A3,
        r is Shimmer <==> msg == 0x0113 && wparam == ids.timer_panel_shimmer,
{
}

/// What comes with a message to the panel: coordinates have a sign, and stand in
/// the two low words; a key is the low half of its parameter.
pub proof fn panel_messages_carry_their_parameters(
    ids: NativeIds,
    msg: u32,
    wparam: u64,
    lparam: i64,
    r: PanelMessage,
    point: (i32, i32),
)
    requires
        call_ensures(decode_panel_message, (&ids, msg, wparam, lparam), r),
        call_ensures(hit_test_point, (lparam,), point),
    ensures
        r matches PanelMessage::Activate { active } ==> (active <==> wparam % 0x1_0000 != 0),
        r matches PanelMessage::SetCursor { hit } ==> hit == lparam % 0x1_0000,
        r matches PanelMessage::KeyDown(key) ==> key == wparam % 0x1_0000_0000,
        r matches PanelMessage::MouseMove { x, y } ==> is_low_word_of(x as int, lparam as int)
            && is_low_word_of(y as int, lparam as int / 0x1_0000),
        r matches PanelMessage::LeftDown { x, y } ==> is_low_word_of(x as int, lparam as int)
            && is_low_word_of(y as int, lparam as int / 0x1_0000),
        is_low_word_of(point.0 as int, lparam as int),
        is_low_word_of(point.1 as int, lparam as int / 0x1_0000),
{
    assert((wparam as u32) == wparam % 0x1_0000_0000) by (bit_vector);
}

} // verus!
