//! The texts on display: how old the figures are, what the captions, the tooltip
//! and the popup say, and how numbers are written.

use crate::captions::badge_text;
use crate::captions::build_popup_text;
use crate::captions::hero_texts;
use crate::captions::panel_header_status_text;
use crate::captions::panel_updated_text;
use crate::captions::plan_name;
use crate::captions::reset_tooltip_suffix;
use crate::captions::row_texts;
use crate::captions::tray_tooltip;
use crate::captions::weekly_texts;
use crate::captions::HeroTexts;
use crate::captions::RowTexts;
use crate::captions::WeeklyTexts;
use crate::localization::Strings;
use crate::models::AppUsageData;
use crate::models::Timestamp;
use crate::panel::accessible_title;
use crate::panel::PanelState;
use crate::sections::PanelModelSection;
use crate::sections::ResetTimes;
use crate::state::Figures;
use crate::state::Notice;
use crate::state::ReleaseDescriptor;
use crate::state::Shell;
use crate::state::TrayIconKind;
use crate::state::UsagePollStatus;
use crate::text::decimal;
use crate::text::digits;
use crate::text::eq_ignore_ascii_case;
use crate::text::format_with_commas;
use crate::text::grouped;
use crate::text::split_once;
use crate::text::trim_end;
use crate::update::notice_text;
use crate::update::update_failure_text;
use crate::update::update_prompt_text;
use crate::view::show_hover_popup;
use crate::view::tray_icon_data_from_state;
use crate::view::TrayIconData;
use vstd::prelude::*;

verus! {

/// The number that a text of decimal digits reads as.
pub open spec fn reads_as(s: Seq<char>) -> int
    decreases s.len(),
{
    if s.len() == 0 {
        0
    } else {
        10 * reads_as(s.drop_last()) + (s.last() as int - 48)
    }
}

proof fn lemma_digits_read_as_the_number(n: nat)
    ensures
        reads_as(digits(n)) == n,
        digits(n).len() > 0,
        forall|i: int| 0 <= i < digits(n).len() ==> '0' <= #[trigger] digits(n)[i] <= '9',
        n > 0 ==> digits(n)[0] != '0',
    decreases n,
{
    reveal_with_fuel(reads_as, 2);
    if n < 10 {
        assert(digits(n).drop_last() =~= Seq::<char>::empty());
    } else {
        lemma_digits_read_as_the_number(n / 10);
        assert(digits(n).drop_last() =~= digits(n / 10));
        assert(digits(n)[0] == digits(n / 10)[0]);
        assert forall|i: int| 0 <= i < digits(n).len() implies '0' <= #[trigger] digits(n)[i]
            <= '9' by {
            if i < digits(n).len() - 1 {
                assert(digits(n)[i] == digits(n / 10)[i]);
            }
        }
    }
}

/// A number is written in decimal digits that read as it, with no zero in front.
pub proof fn numbers_are_written_in_decimal(n: u64, r: String)
    requires
        call_ensures(decimal, (n,), r),
    ensures
        reads_as(r@) == n,
        r@.len() > 0,
        forall|i: int| 0 <= i < r@.len() ==> '0' <= #[trigger] r@[i] <= '9',
        n > 0 ==> r@[0] != '0',
        n == 0 ==> r@.len() == 1,
{
    lemma_digits_read_as_the_number(n as nat);
}

proof fn lemma_grouped_commas(s: Seq<char>)
    requires
        !s.contains(','),
    ensures
        forall|i: int|
            0 <= i < grouped(s).len() ==> (#[trigger] grouped(s)[i] == ',' <==> (grouped(s).len()
                - i) % 4 == 0),
        s.len() > 0 ==> grouped(s).len() % 4 != 0,
    decreases s.len(),
{
    let g = grouped(s);
    if s.len() <= 3 {
        assert forall|i: int| 0 <= i < g.len() implies (#[trigger] g[i] == ',' <==> (g.len() - i)
            % 4 == 0) by {
            assert(s.contains(s[i]));
        }
    } else {
        let a = s.take(s.len() - 3);
        let b = s.skip(s.len() - 3);
        assert(!a.contains(',')) by {
            if a.contains(',') {
                let i = choose|i: int| 0 <= i < a.len() && a[i] == ',';
                assert(s[i] == ',');
            }
        }
        lemma_grouped_commas(a);
        let h = grouped(a);
        assert(g.len() == h.len() + 4);
        assert forall|i: int| 0 <= i < g.len() implies (#[trigger] g[i] == ',' <==> (g.len() - i)
            % 4 == 0) by {
            if i < h.len() {
                assert(g[i] == h[i]);
                assert((g.len() - i) % 4 == (h.len() - i) % 4);
            } else if i > h.len() {
                assert(g[i] == s[s.len() - (g.len() - i)]);
                assert(s.contains(s[s.len() - (g.len() - i)]));
            }
        }
    }
}

/// A number is written with a comma before each group of three digits, counted from
/// the right, and nowhere else; without the commas it reads as the number.
pub proof fn thousands_are_set_apart(n: u64, r: String)
    requires
        call_ensures(format_with_commas, (n,), r),
    ensures
        forall|i: int|
            0 <= i < r@.len() ==> (#[trigger] r@[i] == ',' <==> (r@.len() - i) % 4 == 0),
        r@.len() > 0 && r@[0] != ',',
        reads_as(crate::text::without_commas(r@)) == n,
{
    lemma_digits_read_as_the_number(n as nat);
    crate::text::lemma_commas_keep_the_number(n as nat);
    let d = digits(n as nat);
    assert(!d.contains(',')) by {
        if d.contains(',') {
            let i = choose|i: int| 0 <= i < d.len() && d[i] == ',';
            assert('0' <= d[i]);
        }
    }
    lemma_grouped_commas(d);
    assert(r@.len() >= d.len()) by {
        lemma_grouping_adds(d);
    }
    assert(r@[0] == ',' <==> (r@.len() - 0) % 4 == 0);
}

proof fn lemma_grouping_adds(s: Seq<char>)
    ensures
        grouped(s).len() >= s.len(),
    decreases s.len(),
{
    if s.len() > 3 {
        lemma_grouping_adds(s.take(s.len() - 3));
    }
}

/// The age of the figures: now within a minute, in whole minutes within an hour,
/// and else in whole hours.
pub proof fn age_is_told_in_minutes_then_hours(
    strings: Strings,
    at: Option<Timestamp>,
    now: Timestamp,
    r: String,
)
    requires
        call_ensures(panel_updated_text, (&strings, at, now), r),
    ensures
        at is None ==> r@ == strings.panel_waiting_for_data@,
        at matches Some(at) ==> {
            let age = now.nanos - at.nanos;
            &&& age < 60_000_000_000 ==> r@ == strings.now@
            &&& 60_000_000_000 <= age < 3_600_000_000_000 ==> exists|m: Seq<char>|
                #![trigger reads_as(m)]
                r@ =~= m + strings.minute_suffix@ + " ago"@ && reads_as(m) * 60_000_000_000 <= age
                    < (reads_as(m) + 1) * 60_000_000_000
            &&& 3_600_000_000_000 <= age ==> exists|h: Seq<char>|
                #![trigger reads_as(h)]
                r@ =~= h + strings.hour_suffix@ + " ago"@ && reads_as(h) * 3_600_000_000_000 <= age
                    < (reads_as(h) + 1) * 3_600_000_000_000
        },
{
    if at is Some {
        let age = now.nanos - at->0.nanos;
        let secs = now.seconds_since(at->0);
        if 60_000_000_000 <= age < 3_600_000_000_000 {
            let m = secs / 60;
            lemma_digits_read_as_the_number(m);
            assert(reads_as(digits(m)) == m);
        } else if 3_600_000_000_000 <= age {
            let h = secs / 3600;
            lemma_digits_read_as_the_number(h);
            assert(reads_as(digits(h)) == h);
        }
    }
}

/// The header tells the age of good figures. After a failure it tells what went
/// wrong with the credentials, or that the figures are old ones and a retry is on
/// its way.
pub proof fn header_tells_age_or_failure(
    strings: Strings,
    at: Option<Timestamp>,
    ok: bool,
    status: Option<UsagePollStatus>,
    now: Timestamp,
    age: String,
    r: String,
)
    requires
        call_ensures(panel_updated_text, (&strings, at, now), age),
        call_ensures(panel_header_status_text, (&strings, at, ok, status, now), r),
    ensures
        ok ==> r@ == age@,
        !ok && status is None ==> r@ == age@,
        !ok && status == Some(UsagePollStatus::Success) ==> r@ == age@,
        !ok && status == Some(UsagePollStatus::NoCredentials) ==> r@
            == strings.panel_error_missing_credentials@,
        !ok && status == Some(UsagePollStatus::AuthRequired) ==> r@
            == strings.panel_error_token_expired@,
        !ok && status == Some(UsagePollStatus::TokenExpired) ==> r@
            == strings.panel_error_token_expired@,
        !ok && status == Some(UsagePollStatus::RequestFailed) ==> r@ =~= strings.panel_retrying@
            + " - "@ + strings.panel_last_known_data@ + " - "@ + age@,
{
}

/// The badge names the plan of the account in capitals, "PRO" where it is not known.
pub proof fn badge_names_the_plan(data: Option<AppUsageData>, plan: String, label: &str, r: String)
    requires
        call_ensures(plan_name, (&data,), plan),
        call_ensures(badge_text, (label,), r),
    ensures
        r@ == crate::text::uppercase(label@),
        data is Some && data->0.claude_code is Some && data->0.claude_code->0.user_label is Some
            ==> plan@ == data->0.claude_code->0.user_label->0@,
        data is None || data->0.claude_code is None || data->0.claude_code->0.user_label is None
            ==> plan@ == "PRO"@,
{
}

/// The captions of a session: each state has its own words, and what is not known
/// is two dashes. A session that is slowing down counts to its reset, any other to
/// its end.
pub proof fn session_captions_say_the_state(
    section: PanelModelSection,
    strings: Strings,
    countdown: &str,
    r: HeroTexts,
)
    requires
        call_ensures(hero_texts, (&section, &strings, countdown), r),
    ensures
        section.session_state is Capped ==> r.chip@ == "SESSION AT CAP"@ && r.helper@
            == strings.panel_timer_until_reset@,
        section.session_state is SlowingDown ==> r.chip@ == "SLOWING DOWN"@ && r.helper@
            == strings.panel_timer_until_reset@,
        section.session_state is GoingSteady ==> r.chip@ == "GOING STEADY"@ && r.helper@
            == strings.panel_timer_left_session@,
        section.session_state is PlentyLeft ==> r.chip@ == "PLENTY LEFT"@ && r.helper@
            == strings.panel_timer_left_session@,
        countdown@.len() > 0 ==> r.timer@ == countdown@,
        countdown@.len() == 0 ==> r.timer@ == "--"@,
{
}

/// The line below the countdown tells the reset, the messages and the tokens of the
/// session, in that order, with thousands set apart and two dashes for what is not
/// known.
pub proof fn session_line_tells_reset_messages_tokens(
    section: PanelModelSection,
    strings: Strings,
    countdown: &str,
    messages: String,
    tokens: String,
    r: HeroTexts,
)
    requires
        call_ensures(hero_texts, (&section, &strings, countdown), r),
        section.message_count matches Some(n) ==> call_ensures(
            format_with_commas,
            (n as u64,),
            messages,
        ),
        section.message_count is None ==> messages@ == "--"@,
        section.token_count matches Some(n) ==> call_ensures(format_with_commas, (n,), tokens),
        section.token_count is None ==> tokens@ == "--"@,
    ensures
        r.detail@ =~= "Resets at "@ + (if section.session.reset_time@.len() > 0 {
            section.session.reset_time@
        } else {
            "--"@
        }) + " \u{00B7} "@ + messages@ + " msgs \u{00B7} "@ + tokens@ + " tokens"@,
{
}

/// The captions of the week: when it resets, the percentage, and the time left.
pub proof fn weekly_captions_tell_the_week(
    section: PanelModelSection,
    strings: Strings,
    countdown: &str,
    percent: Option<String>,
    r: WeeklyTexts,
)
    requires
        call_ensures(weekly_texts, (&section, &strings, countdown, percent), r),
    ensures
        r.label@ == strings.panel_weekly_label@,
        section.weekly.reset_time@.len() > 0 ==> r.resets@ =~= " "@ + strings.panel_resets@ + " "@
            + section.weekly.reset_time@,
        section.weekly.reset_time@.len() == 0 ==> r.resets@ =~= " "@ + strings.panel_resets@,
        percent matches Some(percent) ==> r.percent@ == percent@,
        percent is None ==> r.percent@ == "--"@,
        countdown@.len() > 0 ==> r.suffix@ =~= " "@ + countdown@ + " left"@,
        countdown@.len() == 0 ==> r.suffix@ =~= " -- left"@,
{
    reveal_strlit(" ");
    reveal_strlit("--");
    reveal_strlit(" left");
    reveal_strlit(" -- left");
}

/// The widget's row takes a figure apart at its middle dot: the percentage stands
/// left, and the reset and the countdown, as far as they are known, right.
pub proof fn row_shows_percentage_and_countdown(
    percent: Seq<char>,
    countdown: Seq<char>,
    figure: &str,
    reset: &str,
    r: RowTexts,
)
    requires
        call_ensures(row_texts, (figure, reset), r),
        !percent.contains('\u{00B7}'),
        figure@ == percent + " \u{00B7} "@ + countdown,
    ensures
        r.percent@ == percent,
        reset@.len() > 0 && countdown.len() > 0 ==> r.right@ =~= "resets at "@ + reset@
            + " \u{00B7} "@ + countdown,
        reset@.len() > 0 && countdown.len() == 0 ==> r.right@ =~= "resets at "@ + reset@,
        reset@.len() == 0 ==> r.right@ == countdown,
{
    crate::captions::lemma_row_takes_the_figure_apart(percent, countdown);
}

/// A figure without a middle dot is all percentage.
pub proof fn row_shows_a_bare_figure(figure: &str, reset: &str, r: RowTexts)
    requires
        call_ensures(row_texts, (figure, reset), r),
        !figure@.contains('\u{00B7}'),
    ensures
        r.percent@ == figure@,
        reset@.len() > 0 ==> r.right@ =~= "resets at "@ + reset@,
        reset@.len() == 0 ==> r.right@.len() == 0,
{
    reveal_strlit(" \u{00B7} ");
    lemma_no_split(figure@, " \u{00B7} "@, 0);
}

proof fn lemma_no_split(text: Seq<char>, sep: Seq<char>, from: int)
    requires
        0 <= from,
        sep == " \u{00B7} "@,
        !text.contains('\u{00B7}'),
    ensures
        crate::text::first_at(text, sep, from) is None,
    decreases text.len() - from,
{
    reveal_strlit(" \u{00B7} ");
    if crate::text::occurs_at(text, sep, from) {
        assert(text.subrange(from, from + sep.len())[1] == '\u{00B7}');
        assert(text[from + 1] == '\u{00B7}');
        assert(text.contains('\u{00B7}'));
    }
    if from < text.len() {
        lemma_no_split(text, sep, from + 1);
    }
}

/// The tooltip names the model and both figures, and the resets in a line of their
/// own where one of them is known.
pub proof fn tooltip_tells_both_windows(
    model: &str,
    figures: Figures,
    session: &str,
    weekly: &str,
    suffix: String,
    r: String,
)
    requires
        call_ensures(reset_tooltip_suffix, (session, weekly), suffix),
        call_ensures(tray_tooltip, (model, &figures, session, weekly), r),
    ensures
        session@.len() == 0 && weekly@.len() == 0 ==> suffix@.len() == 0,
        session@.len() > 0 || weekly@.len() > 0 ==> suffix@ =~= "\nReset: 5h "@ + session@
            + " / 7d "@ + weekly@,
        figures.data is Some && figures.data->0.claude_code is Some ==> r@ =~= model@ + " 5h: "@
            + figures.session_text@ + " | 7d: "@ + figures.weekly_text@ + suffix@,
        figures.data is None || figures.data->0.claude_code is None ==> r@ =~= model@ + " 5h: "@
            + figures.session_text@ + " | 7d: "@ + figures.weekly_text@,
{
}

/// The popup tells when both windows reset: after a good poll, of a model that is
/// shown and has figures, and where one of the two resets is known.
pub proof fn popup_tells_the_resets(
    name: &str,
    ok: bool,
    shown: bool,
    data: Option<AppUsageData>,
    session: &str,
    weekly: &str,
    r: String,
)
    requires
        call_ensures(build_popup_text, (name, ok, shown, &data, session, weekly), r),
    ensures
        ({
            let tells = ok && shown && data is Some && data->0.claude_code is Some && (
            session@.len() > 0 || weekly@.len() > 0);
            &&& tells ==> r@ =~= name@ + " \u{2014} 5h resets "@ + session@
                + "  \u{00B7}  7d resets "@ + weekly@
            &&& !tells ==> r@.len() == 0
        }),
{
}

/// The popup shows in its window exactly when it has something to tell, and its
/// text is kept.
pub proof fn popup_shows_when_it_tells(
    shell: &mut Shell,
    name: &str,
    times: ResetTimes,
    r: Option<isize>,
)
    requires
        call_ensures(show_hover_popup, (shell, name, &times), r),
    ensures
        old(shell).app is None ==> final(shell).app is None && r is None,
        old(shell).app matches Some(a) ==> (final(shell).app matches Some(b) && {
            let tells = a.polling.last_poll_ok && a.prefs.show_claude_code && a.figures.data is Some
                && a.figures.data->0.claude_code is Some && (times.session@.len() > 0
                || times.weekly@.len() > 0);
            &&& tells ==> r == a.windows.popup_hwnd && b.popup_text@ =~= name@
                + " \u{2014} 5h resets "@ + times.session@ + "  \u{00B7}  7d resets "@
                + times.weekly@
            &&& !tells ==> r is None && b.popup_text@.len() == 0
            &&& b == (crate::state::AppState { popup_text: b.popup_text, ..a })
        }),
        final(shell).panel_reopen_until == old(shell).panel_reopen_until,
        final(shell).tray_reposition_until == old(shell).tray_reposition_until,
        final(shell).last_reposition == old(shell).last_reposition,
{
    reveal_strlit(" \u{2014} 5h resets ");
}

/// There is one tray icon for the model that is shown, and none else. After a good
/// poll it shows the session's percentage and tells the figures, else the title.
pub proof fn tray_icon_shows_the_session(
    shell: Shell,
    strings: Strings,
    times: ResetTimes,
    r: Vec<TrayIconData>,
)
    requires
        call_ensures(tray_icon_data_from_state, (&shell, &strings, &times), r),
    ensures
        shell.app is None || !shell.app->0.prefs.show_claude_code ==> r@.len() == 0,
        shell.app is Some && shell.app->0.prefs.show_claude_code ==> {
            let f = shell.app->0.figures;
            &&& r@.len() == 1
            &&& r@[0].kind == TrayIconKind::Claude
            &&& !shell.app->0.polling.last_poll_ok ==> r@[0].percent is None && r@[0].tooltip@
                == strings.window_title@
            &&& shell.app->0.polling.last_poll_ok ==> {
                let figures = strings.claude_code_model@ + " 5h: "@ + f.session_text@
                    + " | 7d: "@ + f.weekly_text@;
                let known = f.data is Some && f.data->0.claude_code is Some && (
                times.session@.len() > 0 || times.weekly@.len() > 0);
                &&& r@[0].percent == Some(f.session_percent)
                &&& known ==> r@[0].tooltip@ =~= figures + ("\nReset: 5h "@ + times.session@
                    + " / 7d "@ + times.weekly@)
                &&& !known ==> r@[0].tooltip@ =~= figures
            }
        },
{
}

/// The spoken title of the panel ends in the name of the button that has the focus.
pub proof fn title_speaks_the_focus(panel: PanelState, base: &str, r: String, i: int)
    requires
        call_ensures(accessible_title, (&panel, base), r),
    ensures
        panel.hot_button is None ==> r@ == base@,
        0 <= i < panel.buttons@.len() && panel.hot_button == Some(panel.buttons@[i].id) && (
        forall|j: int| 0 <= j < i ==> (#[trigger] panel.buttons@[j]).id != panel.buttons@[i].id)
            ==> r@ =~= base@ + " - "@ + panel.buttons@[i].accessible_label@,
{
    if 0 <= i < panel.buttons@.len() && panel.hot_button == Some(panel.buttons@[i].id) && (forall|
        j: int,
    |
        0 <= j < i ==> (#[trigger] panel.buttons@[j]).id != panel.buttons@[i].id) {
        lemma_label_found(panel.buttons@, i);
    }
}

proof fn lemma_label_found(buttons: Seq<crate::panel::PanelButton>, i: int)
    requires
        0 <= i < buttons.len(),
        forall|j: int| 0 <= j < i ==> (#[trigger] buttons[j]).id != buttons[i].id,
    ensures
        crate::panel::label_of(buttons, buttons[i].id) == Some(buttons[i].accessible_label@),
    decreases i,
{
    if i > 0 {
        let rest = buttons.skip(1);
        assert(buttons[0].id != buttons[i].id);
        assert forall|j: int| 0 <= j < i - 1 implies (#[trigger] rest[j]).id != rest[i - 1].id by {
            assert(rest[j] == buttons[j + 1]);
        }
        assert(rest[i - 1] == buttons[i]);
        lemma_label_found(rest, i - 1);
    }
}

/// The message boxes of an update: what they are about, and what they tell.
pub proof fn update_boxes_tell_the_outcome(
    notice: Notice,
    strings: Strings,
    error: &str,
    r: (&'static str, &'static str),
    failure: String,
)
    requires
        call_ensures(notice_text, (notice, &strings), r),
        call_ensures(update_failure_text, (&strings, error), failure),
    ensures
        r.0@ == strings.updates@,
        notice is UpdateInProgress ==> r.1@ == strings.update_in_progress@,
        notice is UpToDate ==> r.1@ == strings.up_to_date@,
        failure@ =~= strings.update_failed@ + ".\n\n"@ + error@,
{
}

/// The question whether to update names the version in the place of its mark.
pub proof fn update_question_names_the_version(
    strings: Strings,
    release: ReleaseDescriptor,
    head: Seq<char>,
    tail: Seq<char>,
    r: String,
)
    requires
        call_ensures(update_prompt_text, (&strings, &release), r),
        strings.update_prompt_now@ == head + "{version}"@ + tail,
        !head.contains('{'),
        !tail.contains('{'),
    ensures
        r@ =~= head + release.latest_version@ + tail,
{
    reveal_strlit("{version}");
    lemma_replaced_once(head, tail, release.latest_version@);
}

proof fn lemma_replaced_none(text: Seq<char>, with: Seq<char>)
    requires
        !text.contains('{'),
    ensures
        crate::text::replaced(text, "{version}"@, with) == text,
    decreases text.len(),
{
    reveal_strlit("{version}");
    let mark = "{version}"@;
    if text.len() >= mark.len() {
        assert(text.take(mark.len() as int)[0] == text[0]);
        assert(text.contains(text[0]));
        assert(!text.skip(1).contains('{')) by {
            if text.skip(1).contains('{') {
                let i = choose|i: int| 0 <= i < text.skip(1).len() && text.skip(1)[i] == '{';
                assert(text[i + 1] == '{');
            }
        }
        lemma_replaced_none(text.skip(1), with);
        assert(seq![text[0]] + text.skip(1) =~= text);
    }
}

proof fn lemma_replaced_once(head: Seq<char>, tail: Seq<char>, with: Seq<char>)
    requires
        !head.contains('{'),
        !tail.contains('{'),
    ensures
        crate::text::replaced(head + "{version}"@ + tail, "{version}"@, with) == head + with + tail,
    decreases head.len(),
{
    reveal_strlit("{version}");
    let mark = "{version}"@;
    let text = head + mark + tail;
    if head.len() == 0 {
        assert(text.take(mark.len() as int) =~= mark);
        assert(text.skip(mark.len() as int) =~= tail);
        lemma_replaced_none(tail, with);
        assert(with + tail =~= head + with + tail);
    } else {
        assert(text.take(mark.len() as int)[0] == head[0]);
        assert(head.contains(head[0]));
        let rest = head.skip(1);
        assert(!rest.contains('{')) by {
            if rest.contains('{') {
                let i = choose|i: int| 0 <= i < rest.len() && rest[i] == '{';
                assert(head[i + 1] == '{');
            }
        }
        assert(text.skip(1) =~= rest + mark + tail);
        lemma_replaced_once(rest, tail, with);
        assert(seq![text[0]] + (rest + with + tail) =~= head + with + tail);
    }
}

/// A text is split at the first place where the separator stands: the parts and the
/// separator make up the text again, and the separator stands nowhere before.
pub proof fn texts_are_split_at_the_first_separator(
    text: &str,
    separator: &str,
    r: Option<(String, String)>,
    i: int,
)
    requires
        call_ensures(split_once, (text, separator), r),
    ensures
        r matches Some((head, tail)) ==> {
            &&& text@ =~= head@ + separator@ + tail@
            &&& 0 <= i < head@.len() ==> text@.subrange(i, i + separator@.len()) != separator@
        },
{
    if let Some((head, tail)) = r {
        if 0 <= i < head@.len() {
            assert(!crate::text::occurs_at(text@, separator@, i));
        }
    }
}

/// Trimming takes the run of a character from the end of a text, and nothing else.
pub proof fn trimming_takes_a_run_from_the_end(text: &str, c: char, r: String, i: int)
    requires
        call_ensures(trim_end, (text, c), r),
    ensures
        r@.len() <= text@.len(),
        r@ =~= text@.take(r@.len() as int),
        r@.len() > 0 ==> r@.last() != c,
        r@.len() <= i < text@.len() ==> text@[i] == c,
{
    lemma_trimmed(text@, c, i);
}

proof fn lemma_trimmed(s: Seq<char>, c: char, i: int)
    ensures
        ({
            let r = crate::text::trimmed_end(s, c);
            &&& r.len() <= s.len()
            &&& r =~= s.take(r.len() as int)
            &&& r.len() > 0 ==> r.last() != c
            &&& r.len() <= i < s.len() ==> s[i] == c
        }),
    decreases s.len(),
{
    if s.len() > 0 && s.last() == c {
        lemma_trimmed(s.drop_last(), c, i);
        let r = crate::text::trimmed_end(s, c);
        assert(s.drop_last().take(r.len() as int) =~= s.take(r.len() as int));
    }
}

/// Two texts are the same but for case when each letter of the one is that of the
/// other, in either case; other characters have no case.
pub proof fn case_is_that_of_ascii_letters(a: &str, b: &str, r: bool)
    requires
        call_ensures(eq_ignore_ascii_case, (a, b), r),
    ensures
        r <==> a@.len() == b@.len() && forall|i: int|
            0 <= i < a@.len() ==> {
                let x = #[trigger] a@[i];
                let y = b@[i];
                x == y || ('A' <= x <= 'Z' && y as int == x as int + 32) || ('A' <= y <= 'Z'
                    && x as int == y as int + 32)
            },
{
    assert forall|x: char, y: char|
        #![trigger crate::text::ascii_lower(x), crate::text::ascii_lower(y)]
        (crate::text::ascii_lower(x) == crate::text::ascii_lower(y)) == (x == y || ('A' <= x <= 'Z'
            && y as int == x as int + 32) || ('A' <= y <= 'Z' && x as int == y as int + 32)) by {}
}

} // verus!
