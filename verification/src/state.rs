//! The state that the widget, its panel and its background work share, and the
//! work that a decision asks the surrounding program to do.

use crate::localization::LanguageId;
use crate::models::AppUsageData;
use crate::models::Percent;
use crate::models::Timestamp;
use crate::panel::PanelState;
use crate::settings::valid_poll_interval;
use crate::settings::PanelBackground;
use crate::settings::SettingsFile;
use crate::settings::SettingsView;
use vstd::prelude::*;

verus! {

/// How the program was installed, which decides how it is updated.
#[derive(Clone, Copy, Debug, PartialEq, Eq, Structural)]
pub enum InstallChannel {
    Portable,
    Winget,
}

/// A release that can be installed. `id` is the key under which the download
/// details are kept.
#[derive(Debug, PartialEq, Eq)]
pub struct ReleaseDescriptor {
    pub latest_version: String,
    pub id: u64,
}

impl ReleaseDescriptor {
    /// A second descriptor of the same release.
    pub fn duplicate(&self) -> (r: ReleaseDescriptor)
        ensures
            r == *self,
    {
        ReleaseDescriptor { latest_version: self.latest_version.clone(), id: self.id }
    }
}

/// Where the search for a newer release stands.
#[derive(Debug, PartialEq, Eq)]
pub enum UpdateStatus {
    Idle,
    Checking,
    Applying,
    UpToDate,
    Available(ReleaseDescriptor),
}

impl UpdateStatus {
    /// A search or an installation is under way.
    pub open spec fn in_progress(self) -> bool {
        self is Checking || self is Applying
    }
}

/// Whether a search or an installation is under way.
pub fn update_in_progress(status: &UpdateStatus) -> (r: bool)
    ensures
        r == status.in_progress(),
{
    match status {
        UpdateStatus::Checking => true,
        UpdateStatus::Applying => true,
        _ => false,
    }
}

/// Which credential sources are watched for a change.
#[derive(Clone, Copy, Debug, PartialEq, Eq, Structural)]
pub enum CredentialWatchMode {
    ActiveSource,
    AllSources,
}

/// How the last poll ended.
#[derive(Clone, Copy, Debug, PartialEq, Eq, Structural)]
pub enum UsagePollStatus {
    Success,
    AuthRequired,
    NoCredentials,
    TokenExpired,
    RequestFailed,
}

/// The windows and hooks of the program, known by the number of their handle.
#[derive(Clone, Copy, Debug)]
pub struct Windows {
    pub hwnd: isize,
    pub taskbar_hwnd: Option<isize>,
    pub tray_notify_hwnd: Option<isize>,
    pub win_event_hook: Option<isize>,
    pub popup_hwnd: Option<isize>,
}

/// What the user chose, and what else outlives a run.
#[derive(Clone, Copy, Debug)]
pub struct Preferences {
    pub tray_offset: i32,
    pub poll_interval_ms: u32,
    pub compound_countdown: bool,
    pub language_override: Option<LanguageId>,
    pub last_update_check_unix: Option<u64>,
    pub widget_visible: bool,
    pub show_claude_code: bool,
    pub panel_background: PanelBackground,
    pub panel_pinned: bool,
    pub panel_pinned_x: Option<i32>,
    pub panel_pinned_y: Option<i32>,
}

impl Preferences {
    /// What every change keeps: polling goes on at an interval that the menu offers.
    pub open spec fn well_formed(self) -> bool {
        valid_poll_interval(self.poll_interval_ms)
    }

    /// The settings file that keeps the preferences. `code` is the code of the
    /// language that overrides the system's.
    pub open spec fn saved(self, code: Seq<char>) -> SettingsView {
        SettingsView {
            tray_offset: self.tray_offset,
            poll_interval_ms: self.poll_interval_ms,
            compound_countdown: self.compound_countdown,
            language: if self.language_override is Some {
                Some(code)
            } else {
                None
            },
            last_update_check_unix: self.last_update_check_unix,
            widget_visible: self.widget_visible,
            show_claude_code: self.show_claude_code,
            panel_background: self.panel_background,
            panel_pinned: self.panel_pinned,
            panel_pinned_x: self.panel_pinned_x,
            panel_pinned_y: self.panel_pinned_y,
        }
    }

    /// The preferences that a settings file stands for, with the language that
    /// its code names.
    pub open spec fn restored(settings: SettingsView, language: Option<LanguageId>) -> Preferences {
        Preferences {
            tray_offset: settings.tray_offset,
            poll_interval_ms: settings.poll_interval_ms,
            compound_countdown: settings.compound_countdown,
            language_override: language,
            last_update_check_unix: settings.last_update_check_unix,
            widget_visible: settings.widget_visible,
            show_claude_code: settings.show_claude_code,
            panel_background: settings.panel_background,
            panel_pinned: settings.panel_pinned,
            panel_pinned_x: settings.panel_pinned_x,
            panel_pinned_y: settings.panel_pinned_y,
        }
    }

    /// The preferences that a settings file stands for. `language` is the language
    /// that its code names, absent where it names none.
    pub fn from_settings(settings: &SettingsFile, language: Option<LanguageId>) -> (r: Preferences)
        ensures
            r == Preferences::restored(settings@, language),
    {
        Preferences {
            tray_offset: settings.tray_offset,
            poll_interval_ms: settings.poll_interval_ms,
            compound_countdown: settings.compound_countdown,
            language_override: language,
            last_update_check_unix: settings.last_update_check_unix,
            widget_visible: settings.widget_visible,
            show_claude_code: settings.show_claude_code,
            panel_background: settings.panel_background,
            panel_pinned: settings.panel_pinned,
            panel_pinned_x: settings.panel_pinned_x,
            panel_pinned_y: settings.panel_pinned_y,
        }
    }
}

/// The settings to write to the file. `code` is the code of the language that
/// overrides the system's; it is not used where none does.
pub fn settings_from_state(prefs: &Preferences, code: &str) -> (r: SettingsFile)
    ensures
        r@ == prefs.saved(code@),
{
    let language: Option<String> = match prefs.language_override {
        Some(_) => Some(code.to_owned()),
        None => None,
    };
    SettingsFile {
        tray_offset: prefs.tray_offset,
        poll_interval_ms: prefs.poll_interval_ms,
        compound_countdown: prefs.compound_countdown,
        language,
        last_update_check_unix: prefs.last_update_check_unix,
        widget_visible: prefs.widget_visible,
        show_claude_code: prefs.show_claude_code,
        panel_background: prefs.panel_background,
        panel_pinned: prefs.panel_pinned,
        panel_pinned_x: prefs.panel_pinned_x,
        panel_pinned_y: prefs.panel_pinned_y,
    }
}

/// Saving the preferences and reading them back gives the preferences again.
pub proof fn lemma_saved_preferences_come_back(prefs: Preferences, code: Seq<char>)
    ensures
        Preferences::restored(prefs.saved(code), prefs.language_override) == prefs,
        prefs.well_formed() ==> prefs.saved(code).sanitized() == prefs.saved(code),
{
}

/// The figures on display and the answer that they come from.
#[derive(Debug)]
pub struct Figures {
    pub session_percent: Percent,
    pub session_text: String,
    pub session_resets_at: Option<Timestamp>,
    pub weekly_percent: Percent,
    pub weekly_text: String,
    pub data: Option<AppUsageData>,
}

/// How polling stands.
#[derive(Debug)]
pub struct Polling {
    pub retry_count: u32,
    pub force_notify_auth_error: bool,
    pub auth_error_paused_polling: bool,
    pub auth_watch_mode: CredentialWatchMode,
    pub auth_watch_snapshot: Vec<String>,
    pub last_poll_ok: bool,
    pub last_poll_at: Option<Timestamp>,
    pub last_poll_status: Option<UsagePollStatus>,
}

/// A drag of the widget along the taskbar.
#[derive(Clone, Copy, Debug)]
pub struct Drag {
    pub dragging: bool,
    pub start_mouse_x: i32,
    pub start_offset: i32,
}

/// The state of the running program.
#[derive(Debug)]
pub struct AppState {
    pub windows: Windows,
    pub is_dark: bool,
    pub embedded: bool,
    pub language: LanguageId,
    pub install_channel: InstallChannel,
    pub prefs: Preferences,
    pub figures: Figures,
    pub polling: Polling,
    pub update_status: UpdateStatus,
    pub drag: Drag,
    pub panel: PanelState,
    pub panel_menu_open: bool,
    pub popup_text: String,
    pub mouse_over_widget: bool,
    pub shimmer_phase: bool,
}

impl AppState {
    /// The preferences are well formed.
    pub open spec fn well_formed(self) -> bool {
        self.prefs.well_formed()
    }
}

/// The state, absent until the main window stands, and the moments up to which
/// some reactions are held back (nanoseconds on a clock that never goes back).
#[derive(Debug)]
pub struct Shell {
    pub app: Option<AppState>,
    pub panel_reopen_until: Option<u64>,
    pub tray_reposition_until: Option<u64>,
    pub last_reposition: Option<u64>,
}

impl Shell {
    /// The shell before the main window stands.
    pub fn new() -> (r: Shell)
        ensures
            r.app is None,
            r.panel_reopen_until is None,
            r.tray_reposition_until is None,
            r.last_reposition is None,
    {
        Shell {
            app: None,
            panel_reopen_until: None,
            tray_reposition_until: None,
            last_reposition: None,
        }
    }

    /// The state, if there is one, is well formed.
    pub open spec fn well_formed(self) -> bool {
        self.app matches Some(s) ==> s.well_formed()
    }
}

/// The language of the interface, English where there is no state yet.
pub open spec fn language_of(shell: Shell) -> LanguageId {
    match shell.app {
        Some(s) => s.language,
        None => LanguageId::English,
    }
}

/// The language of the interface.
pub fn interface_language(shell: &Shell) -> (r: LanguageId)
    ensures
        r == language_of(*shell),
{
    match &shell.app {
        Some(s) => s.language,
        None => LanguageId::English,
    }
}

/// The model whose icon stands in the notification area.
#[derive(Clone, Copy, Debug, PartialEq, Eq, Structural)]
pub enum TrayIconKind {
    Claude,
}

/// The timers of the widget's window.
#[derive(Clone, Copy, Debug, PartialEq, Eq, Structural)]
pub enum TimerKind {
    Poll,
    Countdown,
    ResetPoll,
    UpdateCheck,
}

/// The mouse pointers that the windows show.
#[derive(Clone, Copy, Debug, PartialEq, Eq, Structural)]
pub enum CursorShape {
    ResizeHorizontally,
    Move,
}

/// What a message box tells.
#[derive(Clone, Copy, Debug, PartialEq, Eq, Structural)]
pub enum Notice {
    UpdateInProgress,
    UpToDate,
}

/// One piece of work for the surrounding program. It is done in the order of the
/// list that it stands in, with the state unlocked.
#[derive(Debug, PartialEq)]
pub enum Action {
    ValidatePaint,
    PaintFallback,
    PaintPanel,
    StoreDpi(u32),
    RefreshDpi,
    CheckTheme,
    CheckLanguage,
    ApplyLanguage(Option<LanguageId>),
    PositionAtTaskbar,
    RenderLayered,
    RefreshPanelView,
    RefreshTexts,
    UpdateDisplay,
    ScheduleCountdown,
    SyncTrayIcons,
    SuppressTrayReposition,
    ReadTrayAction,
    RemoveTrayIcons,
    NotifyAuthError { kind: TrayIconKind, language: LanguageId },
    SpawnPoll,
    SampleCredentials { mode: CredentialWatchMode, previous: Vec<String> },
    PostUsageUpdated,
    SetTimer { timer: TimerKind, ms: u32 },
    KillTimer(TimerKind),
    BeginUpdateCheck { interactive: bool },
    BeginUpdateApply(ReleaseDescriptor),
    BeginWingetUpdate,
    SpawnUpdateCheck { interactive: bool, channel: InstallChannel, language: LanguageId },
    SpawnUpdateApply { release: ReleaseDescriptor, language: LanguageId },
    PromptUpdate { release: ReleaseDescriptor, channel: InstallChannel, language: LanguageId },
    PostUpdateCheckComplete,
    ScheduleAutoUpdateCheck,
    ShowNotice { notice: Notice, language: LanguageId },
    ShowUpdateError { language: LanguageId, error: String },
    ShowCursor(CursorShape),
    CaptureMouse,
    ReleaseMouse,
    TrackMouseLeave,
    SampleDrag,
    MoveWidget { x: i32, y: i32, width: i32, height: i32 },
    ShowWidget,
    HideWidget,
    MakeTopmost,
    ShowHoverPopup,
    HidePopup(isize),
    SaveSettings,
    ShowContextMenu,
    MenuDismissed,
    ToggleStartup,
    SetWindowTitle,
    ShowPanel,
    HidePanel,
    PositionPanel,
    ApplyPanelBackground(PanelBackground),
    ShowPanelWindow,
    HidePanelWindow,
    FocusPanel,
    InvalidatePanel { erase: bool },
    SetPanelTitle,
    SetAccessibleTitle,
    CapturePanel,
    TrackPanelLeave,
    SetShimmerTimer { ms: u32 },
    KillShimmerTimer,
    DestroyPanel(isize),
    Unhook(isize),
    ShutdownGraphics,
    PostClose,
    PostQuit,
}

/// What a window procedure answers: a value, or what the system answers by default.
#[derive(Clone, Copy, Debug, PartialEq, Eq, Structural)]
pub enum Reply {
    Value(i64),
    Default,
}

/// The outcome of a window message.
#[derive(Debug, PartialEq)]
pub struct Response {
    pub actions: Vec<Action>,
    pub reply: Reply,
}

/// The outcome of a message that is answered with a value.
pub(crate) fn answered(actions: Vec<Action>, value: i64) -> (r: Response)
    ensures
        r.actions == actions,
        r.reply == Reply::Value(value),
{
    Response { actions, reply: Reply::Value(value) }
}

/// Two lists of work, one behind the other.
pub fn followed_by(first: Vec<Action>, second: Vec<Action>) -> (r: Vec<Action>)
    ensures
        r@ == first@ + second@,
{
    let mut out = first;
    let mut rest = second;
    out.append(&mut rest);
    out
}

} // verus!
