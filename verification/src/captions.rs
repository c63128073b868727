//! The captions of the panel, the widget, the popup and the tray icon.

use crate::localization::Strings;
use crate::models::AppUsageData;
use crate::models::Timestamp;
use crate::poll::usage_of;
use crate::sections::PanelModelSection;
use crate::sections::SessionState;
use crate::state::Figures;
use crate::state::UsagePollStatus;
use crate::text::decimal;
use crate::text::digits;
use crate::text::format_with_commas;
use crate::text::grouped;
use crate::text::join2;
use crate::text::join3;
use crate::text::split;
use crate::text::split_once;
use crate::text::to_uppercase;
use crate::text::uppercase;
use vstd::prelude::*;

verus! {

/// How long ago the last poll was.
pub open spec fn updated_text(
    strings: Strings,
    last_poll_at: Option<Timestamp>,
    now: Timestamp,
) -> Seq<char> {
    match last_poll_at {
        None => strings.panel_waiting_for_data@,
        Some(at) => {
            let secs = now.seconds_since(at);
            if secs < 60 {
                strings.now@
            } else if secs < 3600 {
                digits(secs / 60) + strings.minute_suffix@ + " ago"@
            } else {
                digits(secs / 3600) + strings.hour_suffix@ + " ago"@
            }
        },
    }
}

/// Tells how long ago the last poll was: in minutes below an hour, then in hours.
pub fn panel_updated_text(
    strings: &Strings,
    last_poll_at: Option<Timestamp>,
    now: Timestamp,
) -> (r: String)
    requires
        now.in_range(),
        last_poll_at matches Some(at) ==> at.in_range(),
    ensures
        r@ == updated_text(*strings, last_poll_at, now),
{
    let at = match last_poll_at {
        Some(at) => at,
        None => return strings.panel_waiting_for_data.to_owned(),
    };
    let secs: u64 = now.secs_since(&at);
    if secs < 60 {
        strings.now.to_owned()
    } else if secs < 3600 {
        join3(decimal(secs / 60).as_str(), strings.minute_suffix, " ago")
    } else {
        join3(decimal(secs / 3600).as_str(), strings.hour_suffix, " ago")
    }
}

/// The status in the panel's header.
pub open spec fn header_status(
    strings: Strings,
    last_poll_at: Option<Timestamp>,
    poll_ok: bool,
    status: Option<UsagePollStatus>,
    now: Timestamp,
) -> Seq<char> {
    let updated = updated_text(strings, last_poll_at, now);
    if poll_ok {
        updated
    } else {
        match status {
            Some(UsagePollStatus::NoCredentials) => strings.panel_error_missing_credentials@,
            Some(UsagePollStatus::AuthRequired) => strings.panel_error_token_expired@,
            Some(UsagePollStatus::TokenExpired) => strings.panel_error_token_expired@,
            Some(UsagePollStatus::RequestFailed) => strings.panel_retrying@ + " - "@
                + strings.panel_last_known_data@ + " - "@ + updated,
            _ => updated,
        }
    }
}

/// The status in the panel's header: the age of the figures, or what went wrong.
pub fn panel_header_status_text(
    strings: &Strings,
    last_poll_at: Option<Timestamp>,
    poll_ok: bool,
    status: Option<UsagePollStatus>,
    now: Timestamp,
) -> (r: String)
    requires
        now.in_range(),
        last_poll_at matches Some(at) ==> at.in_range(),
    ensures
        r@ == header_status(*strings, last_poll_at, poll_ok, status, now),
{
    let updated = panel_updated_text(strings, last_poll_at, now);
    if poll_ok {
        return updated;
    }
    match status {
        Some(UsagePollStatus::NoCredentials) => strings.panel_error_missing_credentials.to_owned(),
        Some(UsagePollStatus::AuthRequired) => strings.panel_error_token_expired.to_owned(),
        Some(UsagePollStatus::TokenExpired) => strings.panel_error_token_expired.to_owned(),
        Some(UsagePollStatus::RequestFailed) => {
            let mut text = join3(strings.panel_retrying, " - ", strings.panel_last_known_data);
            text.append(" - ");
            text.append(updated.as_str());
            text
        },
        _ => updated,
    }
}

/// The label of the plan, "PRO" where the answer names none.
pub open spec fn plan_label(data: Option<AppUsageData>) -> Seq<char> {
    match usage_of(data) {
        Some(usage) => match usage.user_label {
            Some(label) => label@,
            None => "PRO"@,
        },
        None => "PRO"@,
    }
}

/// The label of the plan as the answer gives it.
pub fn plan_name(data: &Option<AppUsageData>) -> (r: String)
    ensures
        r@ == plan_label(*data),
{
    match data {
        Some(data) => match &data.claude_code {
            Some(usage) => match &usage.user_label {
                Some(label) => label.clone(),
                None => "PRO".to_owned(),
            },
            None => "PRO".to_owned(),
        },
        None => "PRO".to_owned(),
    }
}

/// The text of the badge in the panel's header: the label of the plan in capitals.
pub fn badge_text(label: &str) -> (r: String)
    ensures
        r@ == uppercase(label@),
{
    to_uppercase(label)
}

/// The caption of a session's state.
pub open spec fn chip_label(state: SessionState) -> Seq<char> {
    match state {
        SessionState::Capped => "SESSION AT CAP"@,
        SessionState::SlowingDown => "SLOWING DOWN"@,
        SessionState::GoingSteady => "GOING STEADY"@,
        SessionState::PlentyLeft => "PLENTY LEFT"@,
    }
}

/// The phrase behind the countdown of a session.
pub open spec fn helper_text(state: SessionState, strings: Strings) -> Seq<char> {
    match state {
        SessionState::Capped => strings.panel_timer_until_reset@,
        SessionState::SlowingDown => strings.panel_timer_until_reset@,
        SessionState::GoingSteady => strings.panel_timer_left_session@,
        SessionState::PlentyLeft => strings.panel_timer_left_session@,
    }
}

/// A text, or two dashes where it is empty.
pub open spec fn or_dashes(text: Seq<char>) -> Seq<char> {
    if text.len() == 0 {
        "--"@
    } else {
        text
    }
}

/// A number with its thousands set apart, or two dashes where there is none.
pub open spec fn count_text(n: Option<u64>) -> Seq<char> {
    match n {
        Some(n) => grouped(digits(n as nat)),
        None => "--"@,
    }
}

/// The line below the countdown: the reset, messages and tokens of the session.
pub open spec fn detail_text(section: PanelModelSection) -> Seq<char> {
    "Resets at "@ + or_dashes(section.session.reset_time@) + " \u{00B7} "@ + count_text(
        match section.message_count {
            Some(n) => Some(n as u64),
            None => None,
        },
    ) + " msgs \u{00B7} "@ + count_text(section.token_count) + " tokens"@
}

/// The captions of the upper block of a card.
#[derive(Debug)]
pub struct HeroTexts {
    pub chip: &'static str,
    pub timer: String,
    pub helper: &'static str,
    pub detail: String,
}

fn text_or_dashes(text: &str) -> (r: String)
    ensures
        r@ == or_dashes(text@),
{
    let n: usize = text.unicode_len();
    if n == 0 {
        "--".to_owned()
    } else {
        text.to_owned()
    }
}

fn count_or_dashes(n: Option<u64>) -> (r: String)
    ensures
        r@ == count_text(n),
{
    match n {
        Some(n) => format_with_commas(n),
        None => "--".to_owned(),
    }
}

/// The captions of the upper block of a card. `countdown` is the time to the
/// reset of the session as a text, empty where it is not known.
pub fn hero_texts(section: &PanelModelSection, strings: &Strings, countdown: &str) -> (r: HeroTexts)
    ensures
        r.chip@ == chip_label(section.session_state),
        r.timer@ == or_dashes(countdown@),
        r.helper@ == helper_text(section.session_state, *strings),
        r.detail@ == detail_text(*section),
{
    let chip = match section.session_state {
        SessionState::Capped => "SESSION AT CAP",
        SessionState::SlowingDown => "SLOWING DOWN",
        SessionState::GoingSteady => "GOING STEADY",
        SessionState::PlentyLeft => "PLENTY LEFT",
    };
    let helper = match section.session_state {
        SessionState::Capped => strings.panel_timer_until_reset,
        SessionState::SlowingDown => strings.panel_timer_until_reset,
        SessionState::GoingSteady => strings.panel_timer_left_session,
        SessionState::PlentyLeft => strings.panel_timer_left_session,
    };
    let reset = text_or_dashes(section.session.reset_time.as_str());
    let messages = count_or_dashes(
        match section.message_count {
            Some(n) => Some(n as u64),
            None => None,
        },
    );
    let tokens = count_or_dashes(section.token_count);
    let mut detail = join3("Resets at ", reset.as_str(), " \u{00B7} ");
    detail.append(messages.as_str());
    detail.append(" msgs \u{00B7} ");
    detail.append(tokens.as_str());
    detail.append(" tokens");
    HeroTexts { chip, timer: text_or_dashes(countdown), helper, detail }
}

/// The captions of the lower block of a card.
#[derive(Debug)]
pub struct WeeklyTexts {
    pub label: &'static str,
    pub resets: String,
    pub percent: String,
    pub suffix: String,
}

/// The captions of the lower block of a card. `countdown` is the time to the
/// weekly reset as a text, empty where it is not known; `percent` is the weekly
/// percentage as a text.
pub fn weekly_texts(
    section: &PanelModelSection,
    strings: &Strings,
    countdown: &str,
    percent: Option<String>,
) -> (r: WeeklyTexts)
    ensures
        r.label@ == strings.panel_weekly_label@,
        r.resets@ == if section.weekly.reset_time@.len() == 0 {
            " "@ + strings.panel_resets@
        } else {
            " "@ + strings.panel_resets@ + " "@ + section.weekly.reset_time@
        },
        r.percent@ == match percent {
            Some(percent) => percent@,
            None => "--"@,
        },
        r.suffix@ == " "@ + or_dashes(countdown@) + " left"@,
{
    let mut resets = join2(" ", strings.panel_resets);
    let n: usize = section.weekly.reset_time.as_str().unicode_len();
    if n > 0 {
        resets.append(" ");
        resets.append(section.weekly.reset_time.as_str());
    }
    let percent = match percent {
        Some(percent) => percent,
        None => "--".to_owned(),
    };
    let left = text_or_dashes(countdown);
    WeeklyTexts {
        label: strings.panel_weekly_label,
        resets,
        percent,
        suffix: join3(" ", left.as_str(), " left"),
    }
}

/// The text at the right end of the widget's row.
pub open spec fn row_right(reset: Seq<char>, countdown: Seq<char>) -> Seq<char> {
    if reset.len() > 0 && countdown.len() > 0 {
        "resets at "@ + reset + " \u{00B7} "@ + countdown
    } else if reset.len() > 0 {
        "resets at "@ + reset
    } else {
        countdown
    }
}

/// The two captions of the widget's row.
#[derive(Debug)]
pub struct RowTexts {
    pub percent: String,
    pub right: String,
}

/// The captions of the widget's row: the percentage and the countdown are the
/// parts of `session_text` before and behind the first middle dot between spaces,
/// and `reset` is the local time of the reset.
pub fn row_texts(session_text: &str, reset: &str) -> (r: RowTexts)
    ensures
        match split(session_text@, " \u{00B7} "@) {
            Some((percent, countdown)) => r.percent@ == percent && r.right@ == row_right(
                reset@,
                countdown,
            ),
            None => r.percent@ == session_text@ && r.right@ == row_right(reset@, Seq::empty()),
        },
{
    let (percent, countdown) = match split_once(session_text, " \u{00B7} ") {
        Some((percent, countdown)) => (percent, countdown),
        None => (session_text.to_owned(), String::new()),
    };
    let reset_len: usize = reset.unicode_len();
    let countdown_len: usize = countdown.as_str().unicode_len();
    let right = if reset_len > 0 && countdown_len > 0 {
        let mut text = join3("resets at ", reset, " \u{00B7} ");
        text.append(countdown.as_str());
        text
    } else if reset_len > 0 {
        join2("resets at ", reset)
    } else {
        countdown
    };
    RowTexts { percent, right }
}

/// A figure that was put together from a percentage and a countdown is taken
/// apart into the two again, as long as the percentage holds no middle dot.
pub proof fn lemma_row_takes_the_figure_apart(percent: Seq<char>, countdown: Seq<char>)
    requires
        !percent.contains('\u{00B7}'),
    ensures
        split(percent + " \u{00B7} "@ + countdown, " \u{00B7} "@) == Some((percent, countdown)),
{
    reveal_strlit(" \u{00B7} ");
    let sep = " \u{00B7} "@;
    let text = percent + sep + countdown;
    assert(text.subrange(percent.len() as int, (percent.len() + sep.len()) as int) =~= sep);
    assert forall|i: int| 0 <= i < percent.len() implies !#[trigger] crate::text::occurs_at(
        text,
        sep,
        i,
    ) by {
        if crate::text::occurs_at(text, sep, i) {
            let found = text.subrange(i, i + sep.len());
            assert(found[1] == '\u{00B7}');
            assert(text[i + 1] == '\u{00B7}');
            if i + 1 < percent.len() {
                assert(percent[i + 1] == '\u{00B7}');
            } else {
                assert(text[i + 1] == sep[0]);
            }
        }
    }
    crate::text::lemma_first_occurrence(text, sep, percent.len() as int);
    assert(text.take(percent.len() as int) =~= percent);
    assert(text.skip((percent.len() + sep.len()) as int) =~= countdown);
}

/// The second line of the tray icon's tooltip; none where no reset is known.
pub open spec fn tooltip_suffix(session: Seq<char>, weekly: Seq<char>) -> Seq<char> {
    if session.len() == 0 && weekly.len() == 0 {
        Seq::empty()
    } else {
        "\nReset: 5h "@ + session + " / 7d "@ + weekly
    }
}

/// The second line of the tray icon's tooltip.
pub fn reset_tooltip_suffix(session: &str, weekly: &str) -> (r: String)
    ensures
        r@ == tooltip_suffix(session@, weekly@),
{
    let session_len: usize = session.unicode_len();
    let weekly_len: usize = weekly.unicode_len();
    if session_len == 0 && weekly_len == 0 {
        return String::new();
    }
    let mut text = join3("\nReset: 5h ", session, " / 7d ");
    text.append(weekly);
    text
}

/// The tooltip of the tray icon while there are figures.
pub open spec fn tooltip(
    model: Seq<char>,
    figures: Figures,
    session: Seq<char>,
    weekly: Seq<char>,
) -> Seq<char> {
    model + " 5h: "@ + figures.session_text@ + " | 7d: "@ + figures.weekly_text@ + (if usage_of(
        figures.data,
    ) is Some {
        tooltip_suffix(session, weekly)
    } else {
        Seq::empty()
    })
}

/// The tooltip of the tray icon while there are figures. `session` and `weekly`
/// are the local times of the two resets.
pub fn tray_tooltip(model: &str, figures: &Figures, session: &str, weekly: &str) -> (r: String)
    ensures
        r@ == tooltip(model@, *figures, session@, weekly@),
{
    let mut text = join3(model, " 5h: ", figures.session_text.as_str());
    text.append(" | 7d: ");
    text.append(figures.weekly_text.as_str());
    let known = match &figures.data {
        Some(data) => data.claude_code.is_some(),
        None => false,
    };
    if known {
        let suffix = reset_tooltip_suffix(session, weekly);
        text.append(suffix.as_str());
    } else {
        assert(text@ + Seq::<char>::empty() =~= text@);
    }
    text
}

/// The text of the hover popup; empty where there is nothing to tell.
pub open spec fn popup_text(
    name: Seq<char>,
    poll_ok: bool,
    shown: bool,
    data: Option<AppUsageData>,
    session: Seq<char>,
    weekly: Seq<char>,
) -> Seq<char> {
    if poll_ok && shown && usage_of(data) is Some && (session.len() > 0 || weekly.len() > 0) {
        name + " \u{2014} 5h resets "@ + session + "  \u{00B7}  7d resets "@ + weekly
    } else {
        Seq::empty()
    }
}

/// The text of the hover popup. `name` is the name of the model, `session` and
/// `weekly` are the local times of the two resets.
pub fn build_popup_text(
    name: &str,
    poll_ok: bool,
    shown: bool,
    data: &Option<AppUsageData>,
    session: &str,
    weekly: &str,
) -> (r: String)
    ensures
        r@ == popup_text(name@, poll_ok, shown, *data, session@, weekly@),
{
    let known = match data {
        Some(data) => data.claude_code.is_some(),
        None => false,
    };
    let session_len: usize = session.unicode_len();
    let weekly_len: usize = weekly.unicode_len();
    if poll_ok && shown && known && (session_len > 0 || weekly_len > 0) {
        let mut text = join3(name, " \u{2014} 5h resets ", session);
        text.append("  \u{00B7}  7d resets ");
        text.append(weekly);
        text
    } else {
        String::new()
    }
}

/// After a failed poll the popup tells nothing, and with figures it tells both
/// resets.
pub proof fn lemma_popup_needs_a_good_poll(
    name: Seq<char>,
    shown: bool,
    data: Option<AppUsageData>,
    session: Seq<char>,
    weekly: Seq<char>,
)
    ensures
        popup_text(name, false, shown, data, session, weekly).len() == 0,
        shown && usage_of(data) is Some && session.len() > 0 ==> popup_text(
            name,
            true,
            shown,
            data,
            session,
            weekly,
        ).len() > session.len() + weekly.len(),
{
    reveal_strlit(" \u{2014} 5h resets ");
}

} // verus!
