//! The context menu: its entries, and which of them are checked.

use crate::commands::command_executed;
use crate::commands::command_of_language;
use crate::commands::interval_chosen;
use crate::commands::interval_of_command;
use crate::commands::language_applied;
use crate::commands::language_chosen;
use crate::commands::language_id;
use crate::commands::language_of_command;
use crate::commands::prefs_of;
use crate::commands::IDM_EXIT;
use crate::commands::IDM_FORMAT_LONG;
use crate::commands::IDM_FORMAT_SHORT;
use crate::commands::IDM_FREQ_15MIN;
use crate::commands::IDM_FREQ_1HOUR;
use crate::commands::IDM_FREQ_1MIN;
use crate::commands::IDM_FREQ_5MIN;
use crate::commands::IDM_LANG_SYSTEM;
use crate::commands::IDM_MODEL_CLAUDE_CODE;
use crate::commands::IDM_PANEL_BG_SOLID;
use crate::commands::IDM_PANEL_BG_TRANSLUCENT;
use crate::commands::IDM_REFRESH;
use crate::commands::IDM_RESET_POSITION;
use crate::commands::IDM_START_WITH_WINDOWS;
use crate::commands::IDM_VERSION_ACTION;
use crate::localization::LanguageId;
use crate::localization::Strings;
use crate::settings::PanelBackground;
use crate::settings::POLL_15_MIN;
use crate::settings::POLL_1_MIN;
use crate::settings::POLL_5_MIN;
use crate::state::update_in_progress;
use crate::state::Action;
use crate::state::InstallChannel;
use crate::state::Preferences;
use crate::state::Shell;
use crate::state::UpdateStatus;
use crate::update::version_action_label;
use crate::update::version_offer;
use vstd::prelude::*;

verus! {

/// How an entry of the menu looks.
#[derive(Clone, Copy, Debug, PartialEq, Eq, Structural)]
pub enum MenuFlag {
    Plain,
    Checked,
    Grayed,
}

/// One step of building the menu. A submenu is opened, filled, and hung into the
/// menu around it under its label.
#[derive(Debug, PartialEq, Eq)]
pub enum MenuStep {
    Entry { id: u16, label: String, flag: MenuFlag },
    Separator,
    Open,
    Close { label: String },
}

/// A step with its text.
#[verifier::ext_equal]
pub enum StepView {
    Entry { id: u16, label: Seq<char>, flag: MenuFlag },
    Separator,
    Open,
    Close { label: Seq<char> },
}

impl View for MenuStep {
    type V = StepView;

    open spec fn view(&self) -> StepView {
        match *self {
            MenuStep::Entry { id, label, flag } => StepView::Entry { id, label: label@, flag },
            MenuStep::Separator => StepView::Separator,
            MenuStep::Open => StepView::Open,
            MenuStep::Close { label } => StepView::Close { label: label@ },
        }
    }
}

/// The steps with their texts.
pub open spec fn steps(menu: Seq<MenuStep>) -> Seq<StepView> {
    menu.map_values(|step: MenuStep| step@)
}

pub open spec fn entry(id: u16, label: Seq<char>, flag: MenuFlag) -> StepView {
    StepView::Entry { id, label, flag }
}

pub open spec fn close(label: Seq<char>) -> StepView {
    StepView::Close { label }
}

pub open spec fn checked_if(on: bool) -> MenuFlag {
    if on {
        MenuFlag::Checked
    } else {
        MenuFlag::Plain
    }
}

fn check_if(on: bool) -> (r: MenuFlag)
    ensures
        r == checked_if(on),
{
    if on {
        MenuFlag::Checked
    } else {
        MenuFlag::Plain
    }
}

/// Whether the entry of a choice is checked: it is the choice in effect.
#[verifier::opaque]
pub open spec fn choice_flag(p: Preferences, id: u16) -> MenuFlag {
    if interval_chosen(id) is Some {
        checked_if(p.poll_interval_ms == interval_chosen(id)->0)
    } else if id == IDM_FORMAT_LONG {
        checked_if(p.compound_countdown)
    } else if id == IDM_FORMAT_SHORT {
        checked_if(!p.compound_countdown)
    } else if id == IDM_PANEL_BG_SOLID {
        checked_if(p.panel_background == PanelBackground::Solid)
    } else if id == IDM_PANEL_BG_TRANSLUCENT {
        checked_if(p.panel_background == PanelBackground::Translucent)
    } else if id == IDM_MODEL_CLAUDE_CODE {
        checked_if(p.show_claude_code)
    } else if language_chosen(id) is Some {
        checked_if(p.language_override == language_chosen(id)->0)
    } else {
        MenuFlag::Plain
    }
}

fn same_language(a: Option<LanguageId>, b: Option<LanguageId>) -> (r: bool)
    ensures
        r == (a == b),
{
    match (a, b) {
        (Some(x), Some(y)) => x == y,
        (None, None) => true,
        _ => false,
    }
}

/// Whether the entry of a choice is checked.
pub fn flag_of_choice(p: &Preferences, id: u16) -> (r: MenuFlag)
    ensures
        r == choice_flag(*p, id),
{
    proof {
        reveal(choice_flag);
    }
    if let Some(ms) = interval_of_command(id) {
        check_if(p.poll_interval_ms == ms)
    } else if id == IDM_FORMAT_LONG {
        check_if(p.compound_countdown)
    } else if id == IDM_FORMAT_SHORT {
        check_if(!p.compound_countdown)
    } else if id == IDM_PANEL_BG_SOLID {
        check_if(p.panel_background == PanelBackground::Solid)
    } else if id == IDM_PANEL_BG_TRANSLUCENT {
        check_if(p.panel_background == PanelBackground::Translucent)
    } else if id == IDM_MODEL_CLAUDE_CODE {
        check_if(p.show_claude_code)
    } else if let Some(language) = language_of_command(id) {
        check_if(same_language(p.language_override, language))
    } else {
        MenuFlag::Plain
    }
}

fn push_entry(menu: &mut Vec<MenuStep>, id: u16, label: &str, flag: MenuFlag)
    ensures
        steps(final(menu)@) == steps(old(menu)@).push(entry(id, label@, flag)),
{
    let ghost before = menu@;
    menu.push(MenuStep::Entry { id, label: label.to_owned(), flag });
    assert(steps(menu@) =~= steps(before).push(entry(id, label@, flag)));
}

fn push_close(menu: &mut Vec<MenuStep>, label: &str)
    ensures
        steps(final(menu)@) == steps(old(menu)@).push(close(label@)),
{
    let ghost before = menu@;
    menu.push(MenuStep::Close { label: label.to_owned() });
    assert(steps(menu@) =~= steps(before).push(close(label@)));
}

fn push_open(menu: &mut Vec<MenuStep>)
    ensures
        steps(final(menu)@) == steps(old(menu)@).push(StepView::Open),
{
    let ghost before = menu@;
    menu.push(MenuStep::Open);
    assert(steps(menu@) =~= steps(before).push(StepView::Open));
}

fn push_separator(menu: &mut Vec<MenuStep>)
    ensures
        steps(final(menu)@) == steps(old(menu)@).push(StepView::Separator),
{
    let ghost before = menu@;
    menu.push(MenuStep::Separator);
    assert(steps(menu@) =~= steps(before).push(StepView::Separator));
}

/// An entry for a choice.
pub open spec fn choice(p: Preferences, id: u16, label: Seq<char>) -> StepView {
    entry(id, label, choice_flag(p, id))
}

fn push_choice(menu: &mut Vec<MenuStep>, p: &Preferences, id: u16, label: &str)
    ensures
        steps(final(menu)@) == steps(old(menu)@).push(choice(*p, id, label@)),
{
    push_entry(menu, id, label, flag_of_choice(p, id));
}

/// The upper part of the menu: a refresh, and what is shown and how.
pub open spec fn display_part(p: Preferences, strings: Strings) -> Seq<StepView> {
    seq![
        entry(IDM_REFRESH, strings.refresh@, MenuFlag::Plain),
        StepView::Open,
        choice(p, IDM_FORMAT_LONG, strings.format_long@),
        choice(p, IDM_FORMAT_SHORT, strings.format_short@),
        close(strings.format@),
        StepView::Open,
        choice(p, IDM_PANEL_BG_SOLID, "Solid"@),
        choice(p, IDM_PANEL_BG_TRANSLUCENT, "Translucent"@),
        close("Panel Background"@),
        StepView::Open,
        choice(p, IDM_FREQ_1MIN, strings.one_minute@),
        choice(p, IDM_FREQ_5MIN, strings.five_minutes@),
        choice(p, IDM_FREQ_15MIN, strings.fifteen_minutes@),
        choice(p, IDM_FREQ_1HOUR, strings.one_hour@),
        close(strings.update_frequency@),
        StepView::Open,
        choice(p, IDM_MODEL_CLAUDE_CODE, strings.claude_code_model@),
        close(strings.models@),
    ]
}

fn empty_menu() -> (r: Vec<MenuStep>)
    ensures
        steps(r@) == Seq::<StepView>::empty(),
{
    let menu: Vec<MenuStep> = Vec::new();
    assert(steps(menu@) =~= Seq::empty());
    menu
}

fn append_menu(menu: &mut Vec<MenuStep>, part: Vec<MenuStep>)
    ensures
        steps(final(menu)@) == steps(old(menu)@) + steps(part@),
{
    let ghost before = menu@;
    let ghost added = part@;
    let mut part = part;
    menu.append(&mut part);
    assert(steps(menu@) =~= steps(before) + steps(added));
}

fn display_menu(p: &Preferences, strings: &Strings) -> (r: Vec<MenuStep>)
    ensures
        steps(r@) == display_part(*p, *strings),
{
    let mut parts = empty_menu();
    let menu = &mut parts;
    push_entry(menu, IDM_REFRESH, strings.refresh, MenuFlag::Plain);
    push_open(menu);
    push_choice(menu, p, IDM_FORMAT_LONG, strings.format_long);
    push_choice(menu, p, IDM_FORMAT_SHORT, strings.format_short);
    push_close(menu, strings.format);
    push_open(menu);
    push_choice(menu, p, IDM_PANEL_BG_SOLID, "Solid");
    push_choice(menu, p, IDM_PANEL_BG_TRANSLUCENT, "Translucent");
    push_close(menu, "Panel Background");
    push_open(menu);
    push_choice(menu, p, IDM_FREQ_1MIN, strings.one_minute);
    push_choice(menu, p, IDM_FREQ_5MIN, strings.five_minutes);
    push_choice(menu, p, IDM_FREQ_15MIN, strings.fifteen_minutes);
    push_choice(menu, p, IDM_FREQ_1HOUR, strings.one_hour);
    push_close(menu, strings.update_frequency);
    push_open(menu);
    push_choice(menu, p, IDM_MODEL_CLAUDE_CODE, strings.claude_code_model);
    push_close(menu, strings.models);
    parts
}

/// A language, and its name in that language.
#[derive(Clone, Copy, Debug)]
pub struct LanguageName {
    pub language: LanguageId,
    pub name: &'static str,
}

/// The entries of the languages, in the order of the list.
pub open spec fn language_part(p: Preferences, languages: Seq<LanguageName>) -> Seq<StepView> {
    languages.map_values(
        |l: LanguageName| choice(p, language_id(l.language), l.name@),
    )
}

fn language_menu(p: &Preferences, languages: &Vec<LanguageName>) -> (r: Vec<MenuStep>)
    ensures
        steps(r@) == language_part(*p, languages@),
{
    let mut menu = empty_menu();
    let mut i: usize = 0;
    assert(steps(menu@) =~= language_part(*p, languages@.take(0)));
    while i < languages.len()
        invariant
            i <= languages.len(),
            steps(menu@) == language_part(*p, languages@.take(i as int)),
        decreases languages.len() - i,
    {
        push_choice(&mut menu, p, command_of_language(languages[i].language), languages[i].name);
        assert(languages@.take(i + 1) =~= languages@.take(i as int).push(languages@[i as int]));
        assert(steps(menu@) =~= language_part(*p, languages@.take(i + 1)));
        i += 1;
    }
    assert(languages@.take(languages@.len() as int) =~= languages@);
    menu
}

/// What the menu is built from: the state, and what only the system or the
/// phrases of the language tell. `startup` says whether the program starts with
/// the system, `toggle` is the command that shows or hides the widget.
#[derive(Debug)]
pub struct MenuSources<'a> {
    pub strings: Strings,
    pub via_winget: &'a str,
    pub version: &'a str,
    pub languages: &'a Vec<LanguageName>,
    pub startup: bool,
    pub toggle: u16,
}

/// The middle part of the menu, up to the languages.
pub open spec fn settings_part(p: Preferences, from: MenuSources) -> Seq<StepView> {
    seq![
        StepView::Open,
        entry(
            IDM_START_WITH_WINDOWS,
            from.strings.start_with_windows@,
            checked_if(from.startup),
        ),
        entry(IDM_RESET_POSITION, from.strings.reset_position@, MenuFlag::Plain),
        StepView::Open,
        choice(p, IDM_LANG_SYSTEM, from.strings.system_default@),
    ]
}

fn settings_menu(p: &Preferences, from: &MenuSources) -> (r: Vec<MenuStep>)
    ensures
        steps(r@) == settings_part(*p, *from),
{
    let mut menu = empty_menu();
    push_open(&mut menu);
    push_entry(
        &mut menu,
        IDM_START_WITH_WINDOWS,
        from.strings.start_with_windows,
        check_if(from.startup),
    );
    push_entry(&mut menu, IDM_RESET_POSITION, from.strings.reset_position, MenuFlag::Plain);
    push_open(&mut menu);
    push_choice(&mut menu, p, IDM_LANG_SYSTEM, from.strings.system_default);
    menu
}

/// The label of the version entry.
pub open spec fn version_label(
    channel: InstallChannel,
    status: UpdateStatus,
    from: MenuSources,
) -> Seq<char> {
    "v"@ + from.version@ + " - "@ + version_offer(from.strings, from.via_winget@, channel, status)
}

/// The lower part of the menu, from the end of the languages on. The version
/// entry is grayed while a search or an installation is under way.
pub open spec fn lower_part(
    p: Preferences,
    channel: InstallChannel,
    status: UpdateStatus,
    from: MenuSources,
) -> Seq<StepView> {
    seq![
        close(from.strings.language@),
        StepView::Separator,
        entry(
            IDM_VERSION_ACTION,
            version_label(channel, status, from),
            if status.in_progress() {
                MenuFlag::Grayed
            } else {
                MenuFlag::Plain
            },
        ),
        close(from.strings.settings@),
        entry(from.toggle, from.strings.show_widget@, checked_if(p.widget_visible)),
        StepView::Separator,
        entry(IDM_EXIT, from.strings.exit@, MenuFlag::Plain),
    ]
}

fn lower_menu(
    p: &Preferences,
    channel: InstallChannel,
    status: &UpdateStatus,
    from: &MenuSources,
) -> (r: Vec<MenuStep>)
    ensures
        steps(r@) == lower_part(*p, channel, *status, *from),
{
    let mut menu = empty_menu();
    push_close(&mut menu, from.strings.language);
    push_separator(&mut menu);
    let label = version_action_label(
        &from.strings,
        from.via_winget,
        channel,
        status,
        from.version,
    );
    let flag = if update_in_progress(status) {
        MenuFlag::Grayed
    } else {
        MenuFlag::Plain
    };
    push_entry(&mut menu, IDM_VERSION_ACTION, label.as_str(), flag);
    push_close(&mut menu, from.strings.settings);
    push_entry(&mut menu, from.toggle, from.strings.show_widget, check_if(p.widget_visible));
    push_separator(&mut menu);
    push_entry(&mut menu, IDM_EXIT, from.strings.exit, MenuFlag::Plain);
    menu
}

/// The whole menu.
pub open spec fn menu_of(
    p: Preferences,
    channel: InstallChannel,
    status: UpdateStatus,
    from: MenuSources,
) -> Seq<StepView> {
    display_part(p, from.strings) + settings_part(p, from) + language_part(p, from.languages@)
        + lower_part(p, channel, status, from)
}

fn build_menu(
    p: &Preferences,
    channel: InstallChannel,
    status: &UpdateStatus,
    from: &MenuSources,
) -> (r: Vec<MenuStep>)
    ensures
        steps(r@) == menu_of(*p, channel, *status, *from),
{
    let mut menu = display_menu(p, &from.strings);
    append_menu(&mut menu, settings_menu(p, from));
    append_menu(&mut menu, language_menu(p, from.languages));
    append_menu(&mut menu, lower_menu(p, channel, status, from));
    menu
}

/// The preferences that the menu goes by before there is a state.
pub open spec fn stateless_prefs() -> Preferences {
    Preferences {
        tray_offset: 0,
        poll_interval_ms: POLL_15_MIN,
        compound_countdown: true,
        language_override: None,
        last_update_check_unix: None,
        widget_visible: true,
        show_claude_code: true,
        panel_background: PanelBackground::Solid,
        panel_pinned: false,
        panel_pinned_x: None,
        panel_pinned_y: None,
    }
}

/// Builds the context menu.
pub fn show_context_menu(shell: &Shell, from: &MenuSources) -> (r: Vec<MenuStep>)
    ensures
        steps(r@) == match shell.app {
            Some(s) => menu_of(s.prefs, s.install_channel, s.update_status, *from),
            None => menu_of(
                stateless_prefs(),
                InstallChannel::Portable,
                UpdateStatus::Idle,
                *from,
            ),
        },
{
    match &shell.app {
        Some(s) => build_menu(&s.prefs, s.install_channel, &s.update_status, from),
        None => {
            let p = Preferences {
                tray_offset: 0,
                poll_interval_ms: POLL_15_MIN,
                compound_countdown: true,
                language_override: None,
                last_update_check_unix: None,
                widget_visible: true,
                show_claude_code: true,
                panel_background: PanelBackground::Solid,
                panel_pinned: false,
                panel_pinned_x: None,
                panel_pinned_y: None,
            };
            build_menu(&p, InstallChannel::Portable, &UpdateStatus::Idle, from)
        },
    }
}

/// The command that chooses a poll interval that the menu offers.
pub open spec fn frequency_id(ms: u32) -> u16 {
    if ms == POLL_1_MIN {
        IDM_FREQ_1MIN
    } else if ms == POLL_5_MIN {
        IDM_FREQ_5MIN
    } else if ms == POLL_15_MIN {
        IDM_FREQ_15MIN
    } else {
        IDM_FREQ_1HOUR
    }
}

/// The command that chooses the system's language or one that overrides it.
pub open spec fn override_id(language: Option<LanguageId>) -> u16 {
    match language {
        Some(language) => language_id(language),
        None => IDM_LANG_SYSTEM,
    }
}

/// Of the entries among which one choice is made, exactly one is checked: one
/// format, one background, one frequency, and the system's language or one other.
pub proof fn lemma_one_choice_is_checked(p: Preferences, id: u16)
    requires
        p.well_formed(),
    ensures
        (choice_flag(p, IDM_FORMAT_LONG) is Checked) != (choice_flag(p, IDM_FORMAT_SHORT)
            is Checked),
        (choice_flag(p, IDM_PANEL_BG_SOLID) is Checked) != (choice_flag(
            p,
            IDM_PANEL_BG_TRANSLUCENT,
        ) is Checked),
        interval_chosen(id) is Some ==> (choice_flag(p, id) is Checked <==> id == frequency_id(
            p.poll_interval_ms,
        )),
        interval_chosen(frequency_id(p.poll_interval_ms)) is Some,
        language_chosen(id) is Some ==> (choice_flag(p, id) is Checked <==> id == override_id(
            p.language_override,
        )),
        language_chosen(override_id(p.language_override)) is Some,
{
    reveal(choice_flag);
}

/// A choice that was made is the one that is checked from then on.
pub proof fn lemma_made_choice_is_checked(
    a: Shell,
    b: Shell,
    id: u16,
    toggle: u16,
    resolved: LanguageId,
    actions: Seq<Action>,
)
    requires
        a.app is Some,
        command_executed(a, b, id, toggle, actions),
    ensures
        interval_chosen(id) is Some || id == IDM_FORMAT_LONG || id == IDM_FORMAT_SHORT || id
            == IDM_PANEL_BG_SOLID || id == IDM_PANEL_BG_TRANSLUCENT || id == IDM_MODEL_CLAUDE_CODE
            ==> choice_flag(prefs_of(b), id) is Checked,
        language_chosen(id) is Some ==> choice_flag(
            prefs_of(language_applied(b, language_chosen(id)->0, resolved)),
            id,
        ) is Checked,
{
    reveal(choice_flag);
}

} // verus!
