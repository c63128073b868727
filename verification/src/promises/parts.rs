//! The smaller operations that the others are made of.

use crate::commands::choose_model;
use crate::commands::command_of_language;
use crate::commands::interval_of_command;
use crate::commands::language_of_command;
use crate::commands::on_exit;
use crate::commands::toggle_widget_visibility;
use crate::commands::update_language_change;
use crate::geometry::active_model_count;
use crate::geometry::coord_in_range;
use crate::geometry::dpi_in_range;
use crate::geometry::drag_fits;
use crate::geometry::total_widget_width;
use crate::geometry::widget_fits;
use crate::geometry::Rect;
use crate::geometry::TaskbarGeometry;
use crate::layout::FontMetrics;
use crate::layout::HeaderWidths;
use crate::layout::HeroMeasures;
use crate::layout::WeeklyMeasures;
use crate::localization::LanguageId;
use crate::menu::flag_of_choice;
use crate::menu::MenuFlag;
use crate::models::AppUsageData;
use crate::models::Percent;
use crate::models::Timestamp;
use crate::models::UsageData;
use crate::models::UsageSection;
use crate::panel::clear_pointer;
use crate::panel::focusable_buttons;
use crate::panel::same_button;
use crate::panel::set_hot_button_at;
use crate::panel::set_pressed_button_at;
use crate::panel::PanelButton;
use crate::panel::PanelButtonId;
use crate::panel::PanelState;
use crate::panel_window::moment_in_range;
use crate::panel_window::PanelSurroundings;
use crate::poll::auth_watch_mode_after;
use crate::poll::poll_error_status;
use crate::poll::refresh_usage_texts;
use crate::poll::retry_delay_ms;
use crate::poll::set_texts;
use crate::poll::PollError;
use crate::poll::UsageLines;
use crate::promises::choices::check;
use crate::promises::pointer::found_at;
use crate::promises::updates::same_moments;
use crate::sections::panel_usage_status;
use crate::sections::panel_usage_window;
use crate::sections::PanelUsageStatus;
use crate::sections::PanelUsageWindow;
use crate::settings::default_compound_countdown;
use crate::settings::default_poll_interval;
use crate::settings::default_show_claude_code;
use crate::settings::default_widget_visible;
use crate::settings::PanelBackground;
use crate::state::followed_by;
use crate::state::Action;
use crate::state::AppState;
use crate::state::CredentialWatchMode;
use crate::state::Figures;
use crate::state::Preferences;
use crate::state::ReleaseDescriptor;
use crate::state::Shell;
use crate::state::UsagePollStatus;
use crate::text::chars_of;
use crate::text::join2;
use crate::text::join3;
use crate::text::replace;
use crate::text::same_text;
use crate::text::split_once;
use crate::text::text_of;
use crate::text::utf16_lossy;
use crate::widget::Surroundings;
use vstd::prelude::*;

verus! {

/// The commands of the frequencies stand for a minute, five, fifteen and an hour, and
/// no other command for one.
pub proof fn frequencies_have_their_commands(id: u16, r: Option<u32>)
    requires
        call_ensures(interval_of_command, (id,), r),
    ensures
        r == Some(60_000u32) <==> id == 10,
        r == Some(300_000u32) <==> id == 11,
        r == Some(900_000u32) <==> id == 12,
        r == Some(3_600_000u32) <==> id == 13,
        r is None <==> id < 10 || id > 13,
{
}

/// Each language has its command, from 41 to 48, and is found by it again; the command
/// 40 is that of the system's language.
pub proof fn languages_have_their_commands(
    language: LanguageId,
    id: u16,
    back: Option<Option<LanguageId>>,
    other: u16,
    found: Option<Option<LanguageId>>,
)
    requires
        call_ensures(command_of_language, (language,), id),
        call_ensures(language_of_command, (id,), back),
        call_ensures(language_of_command, (other,), found),
    ensures
        id == (match language {
            LanguageId::English => 41,
            LanguageId::Dutch => 42,
            LanguageId::Spanish => 43,
            LanguageId::French => 44,
            LanguageId::German => 45,
            LanguageId::Japanese => 46,
            LanguageId::Korean => 47,
            LanguageId::TraditionalChinese => 48int,
        }),
        back == Some(Some(language)),
        found == Some(None::<LanguageId>) <==> other == 40,
        found is None <==> other < 40 || other > 48,
        found == Some(Some(language)) <==> other == id,
{
}

/// The entry of a choice is checked exactly when the choice is in effect.
pub proof fn entries_in_effect_are_checked(p: Preferences, id: u16, r: MenuFlag)
    requires
        call_ensures(flag_of_choice, (&p, id), r),
    ensures
        id == 10 ==> r == check(p.poll_interval_ms == 60_000),
        id == 11 ==> r == check(p.poll_interval_ms == 300_000),
        id == 12 ==> r == check(p.poll_interval_ms == 900_000),
        id == 13 ==> r == check(p.poll_interval_ms == 3_600_000),
        id == 40 ==> r == check(p.language_override is None),
        id == 41 ==> r == check(p.language_override == Some(LanguageId::English)),
        id == 42 ==> r == check(p.language_override == Some(LanguageId::Dutch)),
        id == 43 ==> r == check(p.language_override == Some(LanguageId::Spanish)),
        id == 44 ==> r == check(p.language_override == Some(LanguageId::French)),
        id == 45 ==> r == check(p.language_override == Some(LanguageId::German)),
        id == 46 ==> r == check(p.language_override == Some(LanguageId::Japanese)),
        id == 47 ==> r == check(p.language_override == Some(LanguageId::Korean)),
        id == 48 ==> r == check(p.language_override == Some(LanguageId::TraditionalChinese)),
        id == 60 ==> r == check(p.show_claude_code),
        id == 70 ==> r == check(p.compound_countdown),
        id == 71 ==> r == check(!p.compound_countdown),
        id == 80 ==> r == check(p.panel_background is Solid),
        id == 81 ==> r == check(p.panel_background is Translucent),
        id < 10 || 13 < id < 40 || 48 < id < 60 || 60 < id < 70 || 71 < id < 80 || id > 81
            ==> r is Plain,
{
    reveal(crate::menu::choice_flag);
}

/// Leaving the program takes the hook away and ends it; the language on display is
/// behind the system's exactly when nothing was chosen and the two differ.
pub proof fn exit_and_language_are_told(
    shell: Shell,
    detected: LanguageId,
    r: Vec<Action>,
    behind: bool,
)
    requires
        call_ensures(on_exit, (&shell,), r),
        call_ensures(update_language_change, (&shell, detected), behind),
    ensures
        shell.app is Some && shell.app->0.windows.win_event_hook is Some ==> r@ =~= seq![
            Action::Unhook(shell.app->0.windows.win_event_hook->0),
            Action::PostQuit,
        ],
        shell.app is None || shell.app->0.windows.win_event_hook is None ==> r@ =~= seq![
            Action::PostQuit,
        ],
        behind <==> shell.app is Some && shell.app->0.prefs.language_override is None
            && shell.app->0.language != detected,
{
}

/// The model that is chosen stays on, with dots in the place of its figures; the
/// widget is shown where it was hidden and hidden where it was shown.
pub proof fn model_stays_on_and_widget_toggles(
    shell: &mut Shell,
    other: &mut Shell,
    r: Vec<Action>,
    q: Vec<Action>,
)
    requires
        call_ensures(choose_model, (shell,), r),
        call_ensures(toggle_widget_visibility, (other,), q),
    ensures
        same_moments(*old(shell), *final(shell)),
        same_moments(*old(other), *final(other)),
        old(shell).app matches Some(s) ==> (final(shell).app matches Some(t) && {
            &&& t.prefs == (Preferences { show_claude_code: true, ..s.prefs })
            &&& t == (AppState { prefs: t.prefs, figures: t.figures, ..s })
            &&& t.figures.session_text@ == "..."@
            &&& t.figures.weekly_text@ == "..."@
            &&& t.figures == (Figures {
                session_text: t.figures.session_text,
                weekly_text: t.figures.weekly_text,
                ..s.figures
            })
        }),
        old(shell).app is None ==> final(shell).app is None,
        r@ =~= seq![
            Action::SaveSettings,
            Action::PositionAtTaskbar,
            Action::RefreshPanelView,
            Action::RenderLayered,
            Action::SyncTrayIcons,
            Action::SpawnPoll,
        ],
        old(other).app is None ==> final(other).app is None && q@.len() == 0,
        old(other).app matches Some(s) ==> {
            &&& final(other).app == Some(
                AppState {
                    prefs: Preferences { widget_visible: !s.prefs.widget_visible, ..s.prefs },
                    ..s
                },
            )
            &&& s.prefs.widget_visible ==> q@ =~= seq![
                Action::SaveSettings,
                Action::HidePanel,
                Action::HideWidget,
            ]
            &&& !s.prefs.widget_visible ==> q@ =~= seq![
                Action::SaveSettings,
                Action::PositionAtTaskbar,
                Action::ShowWidget,
                Action::RenderLayered,
            ]
        },
{
}

/// A coordinate that leaves room for the lengths that are added to it.
pub open spec fn leaves_room(x: i32) -> bool {
    -0x2000_0000 <= x <= 0x2000_0000
}

/// What counts as in range: a DPI of up to 2^24, coordinates of up to 2^29 either way,
/// and moments that are a second before the last.
pub proof fn ranges_are_wide(
    dpi: u32,
    x: i32,
    now: u64,
    rect: Rect,
    taskbar: TaskbarGeometry,
    dpi_ok: bool,
    x_ok: bool,
    now_ok: bool,
    rect_ok: bool,
    taskbar_ok: bool,
)
    requires
        call_ensures(dpi_in_range, (dpi,), dpi_ok),
        call_ensures(coord_in_range, (x,), x_ok),
        call_ensures(moment_in_range, (now,), now_ok),
        call_ensures(Rect::is_in_range, (&rect,), rect_ok),
        call_ensures(TaskbarGeometry::is_in_range, (&taskbar,), taskbar_ok),
    ensures
        dpi_ok <==> dpi <= 0x100_0000,
        x_ok <==> leaves_room(x),
        now_ok <==> now <= 0xFFFF_FFFF_FFFF_FFFF - 1_000_000_000,
        rect_ok <==> leaves_room(rect.left) && leaves_room(rect.top) && leaves_room(rect.right)
            && leaves_room(rect.bottom),
        taskbar_ok <==> leaves_room(taskbar.rect.left) && leaves_room(taskbar.rect.top)
            && leaves_room(taskbar.rect.right) && leaves_room(taskbar.rect.bottom) && (
        taskbar.tray_left matches Some(tray) ==> leaves_room(tray)),
{
}

/// A moment on the wall clock is in range up to 2^92 nanoseconds either way; what comes
/// along with a message is in range where its moment, DPI and edge are.
pub proof fn messages_come_in_range(
    at: Timestamp,
    around: Surroundings,
    panel: PanelSurroundings,
    at_ok: bool,
    around_ok: bool,
    panel_ok: bool,
)
    requires
        call_ensures(Timestamp::is_in_range, (&at,), at_ok),
        call_ensures(Surroundings::is_in_range, (&around,), around_ok),
        call_ensures(PanelSurroundings::is_in_range, (&panel,), panel_ok),
    ensures
        at_ok <==> -4951760157141521099596496896 <= at.nanos <= 4951760157141521099596496896,
        around_ok <==> around.now <= 0xFFFF_FFFF_FFFF_FFFF - 1_000_000_000,
        panel_ok <==> panel.now <= 0xFFFF_FFFF_FFFF_FFFF - 1_000_000_000 && panel.dpi
            <= 0x100_0000 && leaves_room(panel.client_right),
{
}

/// The measures of a font leave room for the lengths that are added to them.
pub open spec fn font_leaves_room(m: FontMetrics) -> bool {
    leaves_room(m.height) && leaves_room(m.ascent) && leaves_room(m.internal_leading)
}

/// Measured texts are in range where each of their measures is.
pub proof fn measures_are_in_range(
    font: FontMetrics,
    header: HeaderWidths,
    hero: HeroMeasures,
    weekly: WeeklyMeasures,
    font_ok: bool,
    header_ok: bool,
    hero_ok: bool,
    weekly_ok: bool,
)
    requires
        call_ensures(FontMetrics::is_in_range, (&font,), font_ok),
        call_ensures(HeaderWidths::is_in_range, (&header,), header_ok),
        call_ensures(HeroMeasures::is_in_range, (&hero,), hero_ok),
        call_ensures(WeeklyMeasures::is_in_range, (&weekly,), weekly_ok),
    ensures
        font_ok <==> font_leaves_room(font),
        header_ok <==> leaves_room(header.product) && leaves_room(header.badge) && leaves_room(
            header.separator,
        ),
        hero_ok <==> font_leaves_room(hero.bold) && font_leaves_room(hero.timer) && leaves_room(
            hero.timer_width,
        ),
        weekly_ok <==> font_leaves_room(weekly.system) && font_leaves_room(weekly.bold)
            && leaves_room(weekly.label_width) && leaves_room(weekly.percent_width) && leaves_room(
            weekly.suffix_width,
        ),
{
}

/// The sides of a rectangle, the edge that the widget keeps to the left of, and the one
/// model that is shown.
pub proof fn sides_are_measured(
    rect: Rect,
    taskbar: TaskbarGeometry,
    width: i32,
    height: i32,
    edge: i32,
    models: i32,
)
    requires
        call_ensures(Rect::width, (&rect,), width),
        call_ensures(Rect::height, (&rect,), height),
        call_ensures(TaskbarGeometry::edge, (&taskbar,), edge),
        call_ensures(active_model_count, (), models),
    ensures
        rect.left + width == rect.right,
        rect.top + height == rect.bottom,
        taskbar.tray_left matches Some(tray) ==> edge == tray,
        taskbar.tray_left is None ==> edge == taskbar.rect.right,
        models == 1,
{
}

/// A place of the widget and an offset fit exactly when 32 bits hold them.
pub proof fn places_fit_in_32_bits(
    taskbar: TaskbarGeometry,
    embedded: bool,
    offset: i32,
    dpi: u32,
    width: i32,
    edge: i32,
    start_x: i32,
    mouse_x: i32,
    place: bool,
    drag: bool,
)
    requires
        call_ensures(widget_fits, (&taskbar, embedded, offset, dpi), place),
        call_ensures(total_widget_width, (dpi,), width),
        call_ensures(TaskbarGeometry::edge, (&taskbar,), edge),
        call_ensures(drag_fits, (offset, start_x, mouse_x), drag),
    ensures
        ({
            let x = edge - width - offset - (if embedded {
                taskbar.rect.left as int
            } else {
                0
            });
            place <==> -0x8000_0000 <= x <= 0x7FFF_FFFF
        }),
        drag <==> -0x8000_0000 <= offset + start_x - mouse_x <= 0x7FFF_FFFF,
{
}

/// The whole seconds between two moments, none where the clock was set back; and what
/// is there before any answer came.
pub proof fn moments_and_blanks(
    later: Timestamp,
    earlier: Timestamp,
    r: u64,
    zero: Percent,
    section: UsageSection,
    usage: UsageData,
    all: AppUsageData,
)
    requires
        call_ensures(Timestamp::secs_since, (&later, &earlier), r),
        call_ensures(Percent::zero, (), zero),
        call_ensures(UsageSection::default, (), section),
        call_ensures(UsageData::default, (), usage),
        call_ensures(AppUsageData::default, (), all),
    ensures
        later.nanos >= earlier.nanos ==> r * 1_000_000_000 <= later.nanos - earlier.nanos < (r + 1)
            * 1_000_000_000,
        later.nanos < earlier.nanos ==> r == 0,
        zero.bits == 0,
        section.percentage.bits == 0 && section.resets_at is None && section.message_count is None
            && section.token_count is None,
        usage.session.percentage.bits == 0 && usage.session.resets_at is None
            && usage.session.message_count is None && usage.session.token_count is None,
        usage.weekly.percentage.bits == 0 && usage.weekly.resets_at is None
            && usage.weekly.message_count is None && usage.weekly.token_count is None,
        usage.user_label is None && usage.email is None,
        all.claude_code is None,
{
}

/// A window of usage tells what it is given, and how near it is to its limit.
pub proof fn usage_window_tells_its_figures(
    percentage: Option<Percent>,
    resets_at: Option<Timestamp>,
    time: String,
    status: PanelUsageStatus,
    r: PanelUsageWindow,
)
    requires
        call_ensures(panel_usage_window, (percentage, resets_at, time), r),
        call_ensures(panel_usage_status, (percentage,), status),
    ensures
        r.percentage == percentage,
        r.resets_at == resets_at,
        r.reset_time@ == time@,
        r.status == status,
{
}

/// Each failure leaves its own status behind; the credentials are watched after every
/// failure of theirs, all of them where there were none, and not after one of the
/// network.
pub proof fn failures_have_their_status(
    error: PollError,
    r: UsagePollStatus,
    watch: Option<CredentialWatchMode>,
)
    requires
        call_ensures(poll_error_status, (error,), r),
        call_ensures(auth_watch_mode_after, (error,), watch),
    ensures
        r is AuthRequired <==> error is AuthRequired,
        r is NoCredentials <==> error is NoCredentials,
        r is TokenExpired <==> error is TokenExpired,
        r is RequestFailed <==> error is RequestFailed,
        !(r is Success),
        watch is None <==> error is RequestFailed,
        watch == Some(CredentialWatchMode::AllSources) <==> error is NoCredentials,
{
}

/// The wait before the first retry is half a minute, that before the next one twice as
/// long, and none is longer than the interval.
pub proof fn waits_double_up_to_the_interval(
    retry: u32,
    interval: u32,
    first: u32,
    r: u32,
    next: u32,
)
    requires
        call_ensures(retry_delay_ms, (1u32, interval), first),
        call_ensures(retry_delay_ms, (retry, interval), r),
        call_ensures(retry_delay_ms, ((retry + 1) as u32, interval), next),
        0 < retry < u32::MAX,
    ensures
        first == if interval < 30_000 {
            interval
        } else {
            30_000u32
        },
        r <= interval,
        2 * r <= interval ==> next == 2 * r,
        2 * r > interval ==> next == interval,
{
    vstd::arithmetic::power2::lemma_pow2_unfold(retry as nat);
    vstd::arithmetic::power2::lemma2_to64();
    vstd::arithmetic::power2::lemma_pow2_pos((retry - 1) as nat);
}

/// Texts on display follow the data: the lines of the usage at hand with its reset,
/// exclamation marks where the model is shown and brought none, and what was there
/// after a failed poll.
pub proof fn texts_follow_the_data(
    figures: &mut Figures,
    poll_ok: bool,
    shown: bool,
    lines: UsageLines,
    r: (),
)
    requires
        call_ensures(refresh_usage_texts, (figures, poll_ok, shown, lines), r),
    ensures
        ({
            let a = *old(figures);
            let b = *final(figures);
            let usage = a.data is Some && a.data->0.claude_code is Some;
            &&& b == (Figures {
                session_text: b.session_text,
                session_resets_at: b.session_resets_at,
                weekly_text: b.weekly_text,
                ..a
            })
            &&& !poll_ok || a.data is None || (!usage && !shown) ==> b == a
            &&& poll_ok && usage ==> b.session_text@ == lines.session@ && b.weekly_text@
                == lines.weekly@ && b.session_resets_at
                == a.data->0.claude_code->0.session.resets_at
            &&& poll_ok && a.data is Some && !usage && shown ==> b.session_text@ == "!"@
                && b.weekly_text@ == "!"@ && b.session_resets_at is None
        }),
{
}

/// Both lines can be given one text, which changes nothing else.
pub proof fn both_lines_get_the_text(figures: &mut Figures, text: &str, r: ())
    requires
        call_ensures(set_texts, (figures, text), r),
    ensures
        final(figures).session_text@ == text@,
        final(figures).weekly_text@ == text@,
        final(figures).session_percent == old(figures).session_percent,
        final(figures).weekly_percent == old(figures).weekly_percent,
        final(figures).session_resets_at == old(figures).session_resets_at,
        final(figures).data == old(figures).data,
{
}

/// The pointer marks the button under it, as the hot or as the pressed one, and tells
/// whether that is news; once cleared, none is marked.
pub proof fn pointer_marks_one_button(
    hot: &mut PanelState,
    pressed: &mut PanelState,
    cleared: &mut PanelState,
    x: i32,
    y: i32,
    moved: bool,
    down: bool,
    was: bool,
)
    requires
        call_ensures(set_hot_button_at, (hot, x, y), moved),
        call_ensures(set_pressed_button_at, (pressed, x, y), down),
        call_ensures(clear_pointer, (cleared,), was),
    ensures
        found_at(old(hot).buttons@, x as int, y as int, final(hot).hot_button),
        *final(hot) == (PanelState { hot_button: final(hot).hot_button, ..*old(hot) }),
        moved <==> final(hot).hot_button != old(hot).hot_button,
        found_at(old(pressed).buttons@, x as int, y as int, final(pressed).pressed_button),
        *final(pressed) == (PanelState {
            pressed_button: final(pressed).pressed_button,
            ..*old(pressed)
        }),
        down <==> final(pressed).pressed_button is Some,
        final(cleared).hot_button is None && final(cleared).pressed_button is None,
        *final(cleared) == (PanelState { hot_button: None, pressed_button: None, ..*old(cleared) }),
        was <==> old(cleared).hot_button is Some || old(cleared).pressed_button is Some,
{
    crate::promises::pointer::lemma_found(old(hot).buttons@, x as int, y as int);
    crate::promises::pointer::lemma_found(old(pressed).buttons@, x as int, y as int);
}

/// Two buttons are the same when they are of one kind, or both missing; the keyboard
/// reaches the enabled buttons and no others.
pub proof fn keyboard_reaches_enabled_buttons(
    a: Option<PanelButtonId>,
    b: Option<PanelButtonId>,
    same: bool,
    buttons: Vec<PanelButton>,
    order: Vec<PanelButtonId>,
    id: PanelButtonId,
)
    requires
        call_ensures(same_button, (a, b), same),
        call_ensures(focusable_buttons, (&buttons,), order),
    ensures
        same <==> a == b,
        order@.len() <= buttons@.len(),
        order@.contains(id) <==> exists|i: int|
            0 <= i < buttons@.len() && (#[trigger] buttons@[i]).enabled && buttons@[i].id == id,
{
    lemma_order_members(buttons@, id);
}

proof fn lemma_order_members(buttons: Seq<PanelButton>, id: PanelButtonId)
    ensures
        crate::panel::focus_order(buttons).len() <= buttons.len(),
        crate::panel::focus_order(buttons).contains(id) <==> exists|i: int|
            0 <= i < buttons.len() && (#[trigger] buttons[i]).enabled && buttons[i].id == id,
    decreases buttons.len(),
{
    let order = crate::panel::focus_order(buttons);
    if buttons.len() > 0 {
        let n = buttons.len() - 1;
        let rest = buttons.drop_last();
        let before = crate::panel::focus_order(rest);
        lemma_order_members(rest, id);
        if order.contains(id) {
            let k = choose|k: int| 0 <= k < order.len() && order[k] == id;
            if k < before.len() {
                assert(before[k] == id);
                assert(before.contains(id));
                let i = choose|i: int|
                    0 <= i < rest.len() && (#[trigger] rest[i]).enabled && rest[i].id == id;
                assert(buttons[i].enabled);
            } else {
                assert(buttons[n].enabled);
            }
        }
        if exists|i: int|
            0 <= i < buttons.len() && (#[trigger] buttons[i]).enabled && buttons[i].id == id {
            let i = choose|i: int|
                0 <= i < buttons.len() && (#[trigger] buttons[i]).enabled && buttons[i].id == id;
            if i < n {
                assert(rest[i].enabled && rest[i].id == id);
                assert(before.contains(id));
                let k = choose|k: int| 0 <= k < before.len() && before[k] == id;
                assert(order[k] == id);
            } else {
                assert(order.last() == id);
                assert(order[order.len() - 1] == id);
            }
        }
    }
}

/// Before the main window stands there is no state, and nothing is held back.
pub proof fn shell_begins_empty(r: Shell)
    requires
        call_ensures(Shell::new, (), r),
    ensures
        r.app is None,
        r.panel_reopen_until is None && r.tray_reposition_until is None
            && r.last_reposition is None,
{
}

/// What holds where the settings say nothing.
pub proof fn defaults_hold_where_settings_are_silent(
    interval: u32,
    compound: bool,
    widget: bool,
    model: bool,
    background: PanelBackground,
    panel: PanelState,
)
    requires
        call_ensures(default_poll_interval, (), interval),
        call_ensures(default_compound_countdown, (), compound),
        call_ensures(default_widget_visible, (), widget),
        call_ensures(default_show_claude_code, (), model),
        call_ensures(PanelBackground::default, (), background),
        call_ensures(PanelState::default, (), panel),
    ensures
        interval == 900_000,
        compound && widget && model,
        background is Solid,
        panel.hwnd is None && !panel.visible && panel.hot_button is None
            && panel.pressed_button is None && panel.buttons@.len() == 0,
{
}

/// Lists and texts are put one behind the other, characters and texts stand for each
/// other, and a release is copied whole.
pub proof fn lists_and_texts_are_joined(
    first: Vec<Action>,
    second: Vec<Action>,
    list: Vec<Action>,
    a: &str,
    b: &str,
    c: &str,
    two: String,
    three: String,
    chars: Vec<char>,
    back: String,
    same: bool,
    release: ReleaseDescriptor,
    copy: ReleaseDescriptor,
    i: int,
)
    requires
        call_ensures(followed_by, (first, second), list),
        call_ensures(join2, (a, b), two),
        call_ensures(join3, (a, b, c), three),
        call_ensures(chars_of, (a,), chars),
        call_ensures(text_of, (&chars,), back),
        call_ensures(same_text, (a, b), same),
        call_ensures(ReleaseDescriptor::duplicate, (&release,), copy),
    ensures
        list@.len() == first@.len() + second@.len(),
        0 <= i < first@.len() ==> list@[i] == first@[i],
        0 <= i < second@.len() ==> list@[first@.len() + i] == second@[i],
        two@ =~= a@ + b@,
        three@ =~= a@ + b@ + c@,
        chars@ =~= a@,
        back@ =~= a@,
        same <==> a@ == b@,
        copy.latest_version@ == release.latest_version@ && copy.id == release.id,
{
}

/// Code units spell a text from the left: a unit outside the surrogates is its own
/// character, a pair is the character that is written as that pair, and a surrogate
/// without its partner is replaced.
pub proof fn units_spell_their_text(units: Seq<u16>)
    requires
        units.len() > 0,
    ensures
        ({
            let text = utf16_lossy(units);
            let first = units[0];
            let plain = first < 0xD800 || first >= 0xE000;
            let pair = 0xD800 <= first < 0xDC00 && units.len() > 1 && 0xDC00 <= units[1] < 0xE000;
            &&& text.len() > 0
            &&& plain ==> text[0] as int == first && text.skip(1) =~= utf16_lossy(units.skip(1))
            &&& pair ==> {
                let n = text[0] as int - 0x1_0000;
                &&& first == 0xD800 + n / 0x400
                &&& units[1] == 0xDC00 + n % 0x400
                &&& text.skip(1) =~= utf16_lossy(units.skip(2))
            }
            &&& !plain && !pair ==> text[0] as int == 0xFFFD && text.skip(1) =~= utf16_lossy(
                units.skip(1),
            )
        }),
{
}

/// A text stands in another one at a position.
pub open spec fn stands_in(text: Seq<char>, part: Seq<char>, at: int) -> bool {
    &&& 0 <= at
    &&& at + part.len() <= text.len()
    &&& text.subrange(at, at + part.len()) == part
}

/// Only a text without the separator cannot be split.
pub proof fn text_without_separator_is_not_split(
    text: &str,
    separator: &str,
    r: Option<(String, String)>,
    at: int,
)
    requires
        call_ensures(split_once, (text, separator), r),
    ensures
        r is None ==> !stands_in(text@, separator@, at),
{
    if r is None && stands_in(text@, separator@, at) {
        lemma_found_from(text@, separator@, 0, at);
    }
}

proof fn lemma_found_from(text: Seq<char>, part: Seq<char>, from: int, at: int)
    requires
        0 <= from <= at,
        stands_in(text, part, at),
    ensures
        crate::text::first_at(text, part, from) is Some,
    decreases at - from,
{
    assert(stands_in(text, part, at) == crate::text::occurs_at(text, part, at));
    if from < at && !crate::text::occurs_at(text, part, from) {
        lemma_found_from(text, part, from + 1, at);
    }
}

/// Replacing goes from the left: what comes before the first occurrence is kept, the
/// replacement takes its place, and the rest is treated alike. A text without an
/// occurrence is kept whole.
pub proof fn replacing_goes_from_the_left(
    hay: &str,
    rest: &str,
    needle: &str,
    with: &str,
    at: int,
    r: String,
    q: String,
)
    requires
        call_ensures(replace, (hay, needle, with), r),
        call_ensures(replace, (rest, needle, with), q),
        needle@.len() > 0,
        forall|i: int| 0 <= i < at ==> !#[trigger] stands_in(hay@, needle@, i),
    ensures
        at >= hay@.len() ==> r@ =~= hay@,
        stands_in(hay@, needle@, at) && rest@ == hay@.skip(at + needle@.len()) ==> r@
            =~= hay@.take(at) + with@ + q@,
{
    lemma_replaced_from_the_left(hay@, needle@, with@, at);
}

proof fn lemma_replaced_from_the_left(
    hay: Seq<char>,
    needle: Seq<char>,
    with: Seq<char>,
    at: int,
)
    requires
        needle.len() > 0,
        forall|i: int| 0 <= i < at ==> !#[trigger] stands_in(hay, needle, i),
    ensures
        at >= hay.len() ==> crate::text::replaced(hay, needle, with) =~= hay,
        stands_in(hay, needle, at) ==> crate::text::replaced(hay, needle, with) =~= hay.take(at)
            + with + crate::text::replaced(hay.skip(at + needle.len()), needle, with),
    decreases hay.len(),
{
    let n = needle.len() as int;
    if hay.len() >= n {
        assert(hay.take(n) =~= hay.subrange(0, n));
        if at > 0 {
            assert(!stands_in(hay, needle, 0));
            let rest = hay.skip(1);
            assert forall|i: int| 0 <= i < at - 1 implies !#[trigger] stands_in(
                rest,
                needle,
                i,
            ) by {
                assert(!stands_in(hay, needle, i + 1));
                if i + n <= rest.len() {
                    assert(rest.subrange(i, i + n) =~= hay.subrange(i + 1, i + 1 + n));
                }
            }
            lemma_replaced_from_the_left(rest, needle, with, at - 1);
            assert(hay =~= seq![hay[0]] + rest);
            if stands_in(hay, needle, at) {
                assert(rest.subrange(at - 1, at - 1 + n) =~= hay.subrange(at, at + n));
                assert(rest.skip(at - 1 + n) =~= hay.skip(at + n));
                assert(hay.take(at) =~= seq![hay[0]] + rest.take(at - 1));
            }
        } else if at == 0 {
            assert(hay.take(0) =~= Seq::<char>::empty());
        }
    }
}

} // verus!
