//! What outlives a run: the settings file, the value that starts the program with
//! the system, and the launch that goes by them.

use crate::json::json_document;
use crate::json::json_kind;
use crate::json::json_members;
use crate::json::JsonKind;
use crate::launch::first_state;
use crate::launch::start;
use crate::launch::taskbar_searched;
use crate::launch::windows_created;
use crate::launch::TaskbarWindows;
use crate::localization::LanguageId;
use crate::panel::PanelState;
use crate::promises::updates::same_moments;
use crate::settings::load_settings;
use crate::settings::recover_settings;
use crate::settings::sanitize_settings;
use crate::settings::PanelBackground;
use crate::settings::SettingsFile;
use crate::settings::SettingsView;
use crate::startup::is_startup_enabled;
use crate::startup::startup_value;
use crate::startup::wide_units;
use crate::state::interface_language;
use crate::state::settings_from_state;
use crate::state::update_in_progress;
use crate::state::Action;
use crate::state::AppState;
use crate::state::InstallChannel;
use crate::state::Preferences;
use crate::state::Shell;
use crate::state::TimerKind;
use crate::state::UpdateStatus;
use crate::state::Windows;
use crate::text::eq_ignore_ascii_case;
use crate::text::trim_end;
use crate::text::utf16_lossy;
use vstd::prelude::*;

verus! {

/// The settings of a first run: every fifteen minutes a poll, the widget and the
/// model shown, countdowns of two units, a solid panel that is pinned nowhere, and
/// the system's language.
pub open spec fn are_of_a_first_run(s: SettingsView) -> bool {
    &&& s.tray_offset == 0
    &&& s.poll_interval_ms == 900_000
    &&& s.compound_countdown
    &&& s.language is None
    &&& s.last_update_check_unix is None
    &&& s.widget_visible
    &&& s.show_claude_code
    &&& s.panel_background is Solid
    &&& !s.panel_pinned
    &&& s.panel_pinned_x is None
    &&& s.panel_pinned_y is None
}

/// An interval that the menu does not offer gives way to fifteen minutes; everything
/// else is kept.
pub open spec fn interval_is_mended(a: SettingsView, b: SettingsView) -> bool {
    let offered = a.poll_interval_ms == 60_000 || a.poll_interval_ms == 300_000
        || a.poll_interval_ms == 900_000 || a.poll_interval_ms == 3_600_000;
    &&& offered ==> b == a
    &&& !offered ==> b == (SettingsView { poll_interval_ms: 900_000, ..a })
}

/// Settings that nobody made are those of a first run.
pub proof fn first_run_has_its_settings(r: SettingsFile)
    requires
        call_ensures(SettingsFile::default, (), r),
    ensures
        are_of_a_first_run(r@),
{
}

/// Polling goes on at an interval of the menu, whatever the settings say.
pub proof fn settings_are_mended(s: &mut SettingsFile, r: ())
    requires
        call_ensures(sanitize_settings, (s,), r),
    ensures
        interval_is_mended(old(s)@, final(s)@),
{
}

/// What a document holds under a name, nothing where it has no such member.
pub open spec fn held_under(doc: serde_json::Value, name: Seq<char>) -> JsonKind {
    if json_members(doc).contains_key(name) {
        json_kind(json_members(doc)[name])
    } else {
        JsonKind::Null
    }
}

/// A number is read where it is whole and fits, and else is as in a first run.
pub open spec fn number_is_read(held: JsonKind, low: int, high: int, r: int, default: int) -> bool {
    match held {
        JsonKind::Integer(n) => r == if low <= n <= high {
            n
        } else {
            default
        },
        _ => r == default,
    }
}

/// A number that a first run does not have is there where it is whole and fits.
pub open spec fn number_is_found(held: JsonKind, low: int, high: int, r: Option<int>) -> bool {
    match held {
        JsonKind::Integer(n) => r == if low <= n <= high {
            Some(n)
        } else {
            None
        },
        _ => r is None,
    }
}

/// A flag is read where it is one, and else counts as missing.
pub open spec fn flag_is_read(held: JsonKind, r: bool, default: bool) -> bool {
    match held {
        JsonKind::Bool(b) => r == b,
        _ => r == default,
    }
}

/// Settings are what a document holds, member by member; what is missing or cannot
/// be read is as in a first run.
pub open spec fn are_held_in(s: SettingsView, doc: serde_json::Value) -> bool {
    &&& number_is_read(
        held_under(doc, "tray_offset"@),
        -0x8000_0000,
        0x7FFF_FFFF,
        s.tray_offset as int,
        0,
    )
    &&& number_is_read(
        held_under(doc, "poll_interval_ms"@),
        0,
        0xFFFF_FFFF,
        s.poll_interval_ms as int,
        900_000,
    )
    &&& flag_is_read(held_under(doc, "compound_countdown"@), s.compound_countdown, true)
    &&& flag_is_read(held_under(doc, "widget_visible"@), s.widget_visible, true)
    &&& flag_is_read(held_under(doc, "show_claude_code"@), s.show_claude_code, true)
    &&& flag_is_read(held_under(doc, "panel_pinned"@), s.panel_pinned, false)
    &&& number_is_found(
        held_under(doc, "last_update_check_unix"@),
        0,
        0xFFFF_FFFF_FFFF_FFFF,
        match s.last_update_check_unix {
            Some(at) => Some(at as int),
            None => None,
        },
    )
    &&& number_is_found(
        held_under(doc, "panel_pinned_x"@),
        -0x8000_0000,
        0x7FFF_FFFF,
        match s.panel_pinned_x {
            Some(x) => Some(x as int),
            None => None,
        },
    )
    &&& number_is_found(
        held_under(doc, "panel_pinned_y"@),
        -0x8000_0000,
        0x7FFF_FFFF,
        match s.panel_pinned_y {
            Some(y) => Some(y as int),
            None => None,
        },
    )
    &&& match held_under(doc, "language"@) {
        JsonKind::Text(code) => s.language == Some(code),
        _ => s.language is None,
    }
    &&& s.panel_background is Translucent <==> held_under(doc, "panel_background"@)
        == JsonKind::Text("translucent"@)
}

/// Settings are recovered member by member, so that one bad value takes no other
/// with it.
pub proof fn settings_are_recovered(doc: serde_json::Value, r: SettingsFile)
    requires
        call_ensures(recover_settings, (&doc,), r),
    ensures
        are_held_in(r@, doc),
{
    reveal_strlit("solid");
    reveal_strlit("translucent");
    assert("solid"@.len() != "translucent"@.len());
}

/// A settings file is read as a whole where that is possible, else member by member,
/// and stands for a first run where it is missing or no document. The interval is
/// one of the menu's in every case.
pub proof fn settings_file_is_read(
    content: Option<&str>,
    typed: Option<SettingsFile>,
    r: SettingsFile,
    whole: SettingsView,
    parts: SettingsFile,
)
    requires
        call_ensures(load_settings, (content, typed), r),
        typed is Some ==> whole == typed->0@,
        content is Some && json_document(content->0@) is Some ==> call_ensures(
            recover_settings,
            (&json_document(content->0@)->0,),
            parts,
        ),
    ensures
        content is None ==> are_of_a_first_run(r@),
        content is Some && typed is Some ==> interval_is_mended(whole, r@),
        content is Some && typed is None && json_document(content->0@) is Some
            ==> interval_is_mended(parts@, r@),
        content is Some && typed is None && json_document(content->0@) is None
            ==> are_of_a_first_run(r@),
        r.poll_interval_ms == 60_000 || r.poll_interval_ms == 300_000 || r.poll_interval_ms
            == 900_000 || r.poll_interval_ms == 3_600_000,
{
}

/// The backgrounds have their names in the file, are found by them again, and no
/// other name is one.
pub proof fn backgrounds_have_their_names(
    background: PanelBackground,
    name: &str,
    back: Option<PanelBackground>,
    other: &str,
    found: Option<PanelBackground>,
)
    requires
        call_ensures(PanelBackground::name, (background,), name),
        call_ensures(PanelBackground::from_name, (name,), back),
        call_ensures(PanelBackground::from_name, (other,), found),
    ensures
        background is Solid ==> name@ == "solid"@,
        background is Translucent ==> name@ == "translucent"@,
        back == Some(background),
        found == Some(PanelBackground::Solid) <==> other@ == "solid"@,
        found == Some(PanelBackground::Translucent) <==> other@ == "translucent"@,
{
    reveal_strlit("solid");
    reveal_strlit("translucent");
    assert("solid"@.len() != "translucent"@.len());
}

/// The settings file keeps every preference, the language by its code, and the
/// preferences come back from it.
pub proof fn preferences_outlive_the_run(
    prefs: Preferences,
    code: &str,
    file: SettingsFile,
    language: Option<LanguageId>,
    back: Preferences,
)
    requires
        call_ensures(settings_from_state, (&prefs, code), file),
        call_ensures(Preferences::from_settings, (&file, language), back),
    ensures
        back == (Preferences { language_override: language, ..prefs }),
        file.tray_offset == prefs.tray_offset,
        file.poll_interval_ms == prefs.poll_interval_ms,
        file.compound_countdown == prefs.compound_countdown,
        prefs.language_override is Some ==> file@.language == Some(code@),
        prefs.language_override is None ==> file@.language is None,
        file.last_update_check_unix == prefs.last_update_check_unix,
        file.widget_visible == prefs.widget_visible,
        file.show_claude_code == prefs.show_claude_code,
        file.panel_background == prefs.panel_background,
        file.panel_pinned == prefs.panel_pinned,
        file.panel_pinned_x == prefs.panel_pinned_x,
        file.panel_pinned_y == prefs.panel_pinned_y,
{
}

/// The value that starts the program is its path, two bytes to the unit with the low
/// one first, and a zero behind it; units are read from bytes in the same way. There
/// is no value for an unknown path.
pub proof fn startup_value_holds_the_path(
    path: Vec<u16>,
    value: Option<Vec<u8>>,
    bytes: Vec<u8>,
    units: Vec<u16>,
)
    requires
        call_ensures(startup_value, (&path,), value),
        call_ensures(wide_units, (&bytes,), units),
    ensures
        value is None <==> path@.len() == 0,
        value matches Some(v) ==> {
            &&& v@.len() == 2 * path@.len() + 2
            &&& forall|i: int|
                0 <= i < path@.len() ==> v@[2 * i] + 256 * v@[2 * i + 1] == #[trigger] path@[i]
            &&& v@[v@.len() - 2] == 0
            &&& v@.last() == 0
        },
        units@.len() == bytes@.len() / 2,
        forall|i: int|
            0 <= i < units@.len() ==> #[trigger] units@[i] == bytes@[2 * i] + 256 * bytes@[2 * i
                + 1],
{
    if let Some(v) = value {
        let whole = path@.push(0);
        let n = path@.len() as int;
        assert forall|i: int| 0 <= i < path@.len() implies v@[2 * i] + 256 * v@[2 * i + 1]
            == #[trigger] path@[i] by {
            assert((2 * i) / 2 == i && (2 * i) % 2 == 0);
            assert((2 * i + 1) / 2 == i && (2 * i + 1) % 2 == 1);
            assert(whole[i] == path@[i]);
            assert(v@[2 * i] == path@[i] % 0x100);
            assert(v@[2 * i + 1] == path@[i] / 0x100);
        }
        assert((2 * n) / 2 == n && (2 * n) % 2 == 0);
        assert((2 * n + 1) / 2 == n && (2 * n + 1) % 2 == 1);
        assert(whole[n] == 0);
    }
}

/// A program starts with the system when the value names it: the same text but for
/// case, with the zeros at its end left out. No value, an empty one and an unknown
/// path name nothing, and the value that was written for a path is recognised.
pub proof fn startup_is_recognised(
    value: Option<Vec<u8>>,
    path: Vec<u16>,
    written: Option<Vec<u8>>,
    units: Vec<u16>,
    text: &str,
    named: String,
    trimmed: &str,
    current: &str,
    same: bool,
    r: bool,
)
    requires
        call_ensures(is_startup_enabled, (&value, &path), r),
        call_ensures(startup_value, (&path,), written),
        value is Some ==> call_ensures(wide_units, (&value->0,), units),
        text@ == utf16_lossy(units@),
        call_ensures(trim_end, (text, '\0'), named),
        trimmed@ == named@,
        current@ == utf16_lossy(path@),
        call_ensures(eq_ignore_ascii_case, (trimmed, current), same),
    ensures
        value is None ==> !r,
        value is Some && value->0@.len() == 0 ==> !r,
        path@.len() == 0 ==> !r,
        value is Some && value->0@.len() > 0 && path@.len() > 0 ==> r == same,
        value is Some && written is Some && value->0@ == written->0@ && path@.last() != 0 ==> r,
{
}

/// The first state goes by the settings, and knows no windows but its own, no
/// figures and no poll yet.
pub proof fn first_state_goes_by_the_settings(
    hwnd: isize,
    is_dark: bool,
    settings: SettingsFile,
    chosen: Option<LanguageId>,
    language: LanguageId,
    channel: InstallChannel,
    prefs: Preferences,
    r: AppState,
)
    requires
        call_ensures(first_state, (hwnd, is_dark, &settings, chosen, language, channel), r),
        call_ensures(Preferences::from_settings, (&settings, chosen), prefs),
    ensures
        r.prefs == prefs,
        r.is_dark == is_dark,
        r.language == language,
        r.install_channel == channel,
        r.windows.hwnd == hwnd,
        r.windows.taskbar_hwnd is None && r.windows.tray_notify_hwnd is None
            && r.windows.win_event_hook is None && r.windows.popup_hwnd is None,
        !r.embedded,
        r.figures.session_text@ == "--"@ && r.figures.weekly_text@ == "--"@,
        r.figures.session_percent.bits == 0 && r.figures.weekly_percent.bits == 0,
        r.figures.session_resets_at is None && r.figures.data is None,
        r.polling.retry_count == 0 && !r.polling.force_notify_auth_error
            && !r.polling.auth_error_paused_polling && !r.polling.last_poll_ok,
        r.polling.last_poll_at is None && r.polling.last_poll_status is None,
        r.polling.auth_watch_mode is ActiveSource && r.polling.auth_watch_snapshot@.len() == 0,
        r.update_status is Idle,
        !r.drag.dragging && r.drag.start_mouse_x == 0 && r.drag.start_offset == 0,
        r.panel.hwnd is None && !r.panel.visible && r.panel.hot_button is None
            && r.panel.pressed_button is None && r.panel.buttons@.len() == 0,
        !r.panel_menu_open && !r.mouse_over_widget && !r.shimmer_phase,
        r.popup_text@.len() == 0,
{
}

/// A widget whose taskbar was found is part of it, and follows its notification area
/// where there is one; without a taskbar it stands above all other windows.
pub proof fn widget_joins_the_taskbar(
    shell: &mut Shell,
    found: Option<TaskbarWindows>,
    r: Vec<Action>,
)
    requires
        call_ensures(taskbar_searched, (shell, found), r),
    ensures
        found is None ==> *final(shell) == *old(shell) && r@ =~= seq![Action::MakeTopmost],
        found is Some ==> r@.len() == 0,
        same_moments(*old(shell), *final(shell)),
        old(shell).app is None ==> final(shell).app is None,
        found is Some && old(shell).app is Some ==> {
            let s = old(shell).app->0;
            let t = final(shell).app->0;
            &&& final(shell).app is Some
            &&& t == (AppState { windows: t.windows, embedded: true, ..s })
            &&& t.windows.hwnd == s.windows.hwnd
            &&& t.windows.popup_hwnd == s.windows.popup_hwnd
            &&& t.windows.taskbar_hwnd == Some(found->0.taskbar)
            &&& t.windows.tray_notify_hwnd == found->0.tray_notify
            &&& found->0.tray_notify is Some ==> t.windows.win_event_hook == found->0.hook
            &&& found->0.tray_notify is None ==> t.windows.win_event_hook
                == s.windows.win_event_hook
        },
{
}

/// The windows of the popup and of the panel are known once they stand, and nothing
/// else changes.
pub proof fn made_windows_are_known(
    shell: &mut Shell,
    popup: Option<isize>,
    panel: Option<isize>,
    r: (),
)
    requires
        call_ensures(windows_created, (shell, popup, panel), r),
    ensures
        same_moments(*old(shell), *final(shell)),
        old(shell).app is None ==> final(shell).app is None,
        old(shell).app matches Some(s) ==> final(shell).app == Some(
            AppState {
                windows: Windows { popup_hwnd: popup, ..s.windows },
                panel: PanelState { hwnd: panel, ..s.panel },
                ..s
            },
        ),
{
}

/// The first work: the tray icon and the widget, unless the user hid it; the panel, if
/// it was pinned; a poll at once and then at the interval; and a search for newer
/// releases where a day has gone by since the last.
pub proof fn program_starts(s: AppState, now: u64, r: Vec<Action>)
    requires
        call_ensures(start, (&s, now), r),
    ensures
        ({
            let shown: int = if s.prefs.widget_visible {
                1
            } else {
                0
            };
            let n: int = 2 + shown + (if s.prefs.panel_pinned {
                1int
            } else {
                0
            });
            let last = s.prefs.last_update_check_unix;
            let due = last is None || now >= last->0 + 86_400;
            &&& r@[0] == Action::SyncTrayIcons
            &&& r@[1] == Action::PositionAtTaskbar
            &&& s.prefs.widget_visible ==> r@[2] == Action::ShowWidget
            &&& s.prefs.panel_pinned ==> r@[2 + shown] == Action::ShowPanel
            &&& r@[n] == Action::RenderLayered
            &&& r@[n + 1] == (Action::SetTimer {
                timer: TimerKind::Poll,
                ms: s.prefs.poll_interval_ms,
            })
            &&& r@[n + 2] == Action::SpawnPoll
            &&& r@[n + 3] == Action::ScheduleAutoUpdateCheck
            &&& due ==> r@.len() == n + 6 && r@[n + 4] == (Action::BeginUpdateCheck {
                interactive: false,
            })
            &&& !due ==> r@.len() == n + 5
            &&& r@.last() == Action::CheckTheme
        }),
{
}

/// Without a state the interface speaks English; a search and an installation are
/// what can be under way.
pub proof fn state_tells_language_and_progress(
    shell: Shell,
    status: UpdateStatus,
    language: LanguageId,
    busy: bool,
)
    requires
        call_ensures(interface_language, (&shell,), language),
        call_ensures(update_in_progress, (&status,), busy),
    ensures
        shell.app is None ==> language is English,
        shell.app matches Some(s) ==> language == s.language,
        status is Checking || status is Applying ==> busy,
        status is Idle || status is UpToDate || status is Available ==> !busy,
{
}

} // verus!
