//! What holds of the program whatever happens to it: every event that the library
//! handles, and what each of them keeps.

use crate::commands::command_executed;
use crate::commands::language_applied;
use crate::commands::theme_followed;
use crate::geometry::TaskbarGeometry;
use crate::launch::taskbar_known;
use crate::launch::windows_known;
use crate::launch::TaskbarWindows;
use crate::localization::LanguageId;
use crate::localization::Strings;
use crate::messages::Message;
use crate::messages::PanelMessage;
use crate::models::AppUsageData;
use crate::models::Timestamp;
use crate::panel_window::menu_closed;
use crate::panel_window::panel_hidden;
use crate::panel_window::panel_message_handled;
use crate::panel_window::panel_shown;
use crate::panel_window::pin_consistent;
use crate::panel_window::PanelSurroundings;
use crate::poll::answer_taken;
use crate::poll::credentials_compared;
use crate::poll::display_updated;
use crate::poll::failure_taken;
use crate::poll::PollError;
use crate::poll::UsageLines;
use crate::sections::ResetTimes;
use crate::state::Action;
use crate::state::AppState;
use crate::state::CredentialWatchMode;
use crate::state::ReleaseDescriptor;
use crate::state::Reply;
use crate::state::Shell;
use crate::update::apply_begun;
use crate::update::apply_finished;
use crate::update::check_begun;
use crate::update::check_finished;
use crate::update::UpdateOutcome;
use crate::view::panel_painted;
use crate::view::popup_worded;
use crate::widget::dragged_to;
use crate::widget::message_handled;
use crate::widget::reposition_held;
use crate::widget::tray_clicked;
use crate::widget::tray_followed;
use crate::widget::Surroundings;
use crate::widget::TrayAction;
use vstd::prelude::*;

verus! {

/// Everything that can happen to a running program, with what comes along with it.
pub enum Event {
    WidgetMessage {
        message: Message,
        around: Surroundings,
        toggle: u16,
        actions: Seq<Action>,
        reply: Reply,
    },
    PanelMessage {
        panel_message: PanelMessage,
        panel_around: PanelSurroundings,
        actions: Seq<Action>,
        reply: Reply,
    },
    PollSucceeded { data: AppUsageData, at: Timestamp, lines: UsageLines },
    PollFailed { error: PollError, at: Timestamp, snapshot: Vec<String> },
    DisplayUpdated { lines: UsageLines },
    CredentialsSampled {
        mode: CredentialWatchMode,
        previous: Vec<String>,
        current: Vec<String>,
    },
    UpdateCheckRequested { interactive: bool, actions: Seq<Action> },
    UpdateCheckFinished { outcome: UpdateOutcome, checked_at: u64 },
    UpdateRequested { release: ReleaseDescriptor, actions: Seq<Action> },
    UpdateFinished { failure: Option<String>, release: ReleaseDescriptor },
    LanguageApplied { chosen: Option<LanguageId>, resolved: LanguageId },
    ThemeChecked { dark: bool },
    Dragged {
        cursor_x: int,
        taskbar: Option<TaskbarGeometry>,
        dpi: u32,
        actions: Seq<Action>,
    },
    TrayClicked { action: TrayAction, now: u64 },
    TrayIconsChanged { now: u64 },
    WindowMoved { hwnd: isize, now: u64 },
    PanelShown,
    PanelHidden { now: u64 },
    PanelPainted { strings: Strings, width: int, height: int, dpi: u32 },
    MenuDismissed,
    PopupWorded { name: Seq<char>, times: ResetTimes },
    TaskbarSearched { found: Option<TaskbarWindows> },
    WindowsCreated { popup: Option<isize>, panel: Option<isize> },
}

/// What an event does to the shell: what the function that handles it promises.
pub open spec fn happened(a: Shell, b: Shell, event: Event) -> bool {
    match event {
        Event::WidgetMessage { message, around, toggle, actions, reply } => message_handled(
            a,
            b,
            message,
            around,
            toggle,
            actions,
            reply,
        ),
        Event::PanelMessage { panel_message, panel_around, actions, reply } => panel_message_handled(
            a,
            b,
            panel_message,
            panel_around,
            actions,
            reply,
        ),
        Event::PollSucceeded { data, at, lines } => answer_taken(a, b, data, at, lines),
        Event::PollFailed { error, at, snapshot } => failure_taken(a, b, error, at, snapshot),
        Event::DisplayUpdated { lines } => display_updated(a, b, lines),
        Event::CredentialsSampled { mode, previous, current } => b == credentials_compared(
            a,
            mode,
            previous,
            current,
        ),
        Event::UpdateCheckRequested { interactive, actions } => check_begun(
            a,
            b,
            interactive,
            actions,
        ),
        Event::UpdateCheckFinished { outcome, checked_at } => b == check_finished(
            a,
            outcome,
            checked_at,
        ),
        Event::UpdateRequested { release, actions } => apply_begun(a, b, release, actions),
        Event::UpdateFinished { failure, release } => b == apply_finished(a, failure, release),
        Event::LanguageApplied { chosen, resolved } => b == language_applied(a, chosen, resolved),
        Event::ThemeChecked { dark } => b == theme_followed(a, dark),
        Event::Dragged { cursor_x, taskbar, dpi, actions } => dragged_to(
            a,
            b,
            cursor_x,
            taskbar,
            dpi,
            actions,
        ),
        Event::TrayClicked { action, now } => b == tray_clicked(a, action, now),
        Event::TrayIconsChanged { now } => b == reposition_held(a, now),
        Event::WindowMoved { hwnd, now } => b == tray_followed(a, hwnd, now),
        Event::PanelShown => b == panel_shown(a),
        Event::PanelHidden { now } => b == panel_hidden(a, now),
        Event::PanelPainted { strings, width, height, dpi } => panel_painted(
            a,
            b,
            strings,
            width,
            height,
            dpi,
        ),
        Event::MenuDismissed => b == menu_closed(a),
        Event::PopupWorded { name, times } => popup_worded(a, b, name, times),
        Event::TaskbarSearched { found } => b == taskbar_known(a, found),
        Event::WindowsCreated { popup, panel } => b == windows_known(a, popup, panel),
    }
}

/// Whatever happens, polling stays at an interval that the menu offers.
#[verifier::rlimit(50)]
pub proof fn lemma_interval_stays_valid(a: Shell, b: Shell, event: Event)
    requires
        happened(a, b, event),
        a.well_formed(),
    ensures
        b.well_formed(),
{
}

/// Whatever happens, an unpinned panel has no place that it is pinned to, once it
/// has none.
#[verifier::rlimit(50)]
pub proof fn lemma_unpinned_panel_stays_without_a_place(a: Shell, b: Shell, event: Event)
    requires
        happened(a, b, event),
        pin_consistent(a),
    ensures
        pin_consistent(b),
{
}

/// Whatever happens, there is a state once there is one.
#[verifier::rlimit(50)]
pub proof fn lemma_state_stays(a: Shell, b: Shell, event: Event)
    requires
        happened(a, b, event),
    ensures
        a.app is Some <==> b.app is Some,
{
}

/// The main window and the way of installation are the same in two states.
pub open spec fn same_program(a: AppState, b: AppState) -> bool {
    a.windows.hwnd == b.windows.hwnd && a.install_channel == b.install_channel
}

proof fn lemma_command_keeps_the_program(
    a: Shell,
    b: Shell,
    id: u16,
    toggle: u16,
    actions: Seq<Action>,
)
    requires
        command_executed(a, b, id, toggle, actions),
        a.app is Some,
    ensures
        same_program(a.app->0, b.app->0),
{
}

/// Whatever happens, the main window and the way of installation stay the same.
#[verifier::rlimit(50)]
pub proof fn lemma_program_stays_the_same(a: Shell, b: Shell, event: Event)
    requires
        happened(a, b, event),
        a.app is Some,
    ensures
        same_program(a.app->0, b.app->0),
{
    match event {
        Event::WidgetMessage { message, toggle, actions, .. } => match message {
            Message::Command(id) => lemma_command_keeps_the_program(a, b, id, toggle, actions),
            _ => {},
        },
        _ => {},
    }
}

/// Whatever happens, a model that is shown stays shown.
#[verifier::rlimit(50)]
pub proof fn lemma_shown_model_stays_shown(a: Shell, b: Shell, event: Event)
    requires
        happened(a, b, event),
        a.app matches Some(s) && s.prefs.show_claude_code,
    ensures
        b.app matches Some(t) && t.prefs.show_claude_code,
{
}

/// Whatever happens, figures once brought are there until other ones come: no
/// event leaves the program without data.
#[verifier::rlimit(50)]
pub proof fn lemma_data_stays(a: Shell, b: Shell, event: Event)
    requires
        happened(a, b, event),
        a.app matches Some(s) && s.figures.data is Some,
    ensures
        b.app matches Some(t) && t.figures.data is Some,
{
}

/// Only the user moves the widget along the taskbar: nothing but a drag and the
/// menu entry for it changes its offset.
#[verifier::rlimit(50)]
pub proof fn lemma_only_the_user_moves_the_widget(a: Shell, b: Shell, event: Event)
    requires
        happened(a, b, event),
        a.app matches Some(s),
        !(event is Dragged),
        !(event matches Event::WidgetMessage { message: Message::Command(id), .. } && id
            == crate::commands::IDM_RESET_POSITION),
    ensures
        b.app->0.prefs.tray_offset == a.app->0.prefs.tray_offset,
{
}

} // verus!
