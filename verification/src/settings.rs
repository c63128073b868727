//! The settings that outlive a run, and how they are read back.

use crate::json::json_document;
use crate::json::json_kind;
use crate::json::json_members;
use crate::json::member;
use crate::json::parse_document;
use crate::json::JsonKind;
use crate::text::same_text;
use vstd::prelude::*;

verus! {

pub const POLL_1_MIN: u32 = 60_000;

pub const POLL_5_MIN: u32 = 300_000;

pub const POLL_15_MIN: u32 = 900_000;

pub const POLL_1_HOUR: u32 = 3_600_000;

/// How the panel covers what lies behind it.
#[derive(Clone, Copy, Debug, PartialEq, Eq, Structural)]
pub enum PanelBackground {
    Solid,
    Translucent,
}

impl Default for PanelBackground {
    fn default() -> (r: PanelBackground)
        ensures
            r == PanelBackground::Solid,
    {
        PanelBackground::Solid
    }
}

impl PanelBackground {
    /// The name that stands for the background in the settings file.
    pub open spec fn spec_name(self) -> Seq<char> {
        match self {
            PanelBackground::Solid => "solid"@,
            PanelBackground::Translucent => "translucent"@,
        }
    }

    /// The name that stands for the background in the settings file.
    pub fn name(self) -> (r: &'static str)
        ensures
            r@ == self.spec_name(),
    {
        match self {
            PanelBackground::Solid => "solid",
            PanelBackground::Translucent => "translucent",
        }
    }

    /// The background that a name stands for.
    pub fn from_name(name: &str) -> (r: Option<PanelBackground>)
        ensures
            r == background_named(name@),
    {
        proof {
            lemma_background_names();
        }
        if same_text(name, "solid") {
            Some(PanelBackground::Solid)
        } else if same_text(name, "translucent") {
            Some(PanelBackground::Translucent)
        } else {
            None
        }
    }
}

/// The background that a name stands for, if it names one.
pub open spec fn background_named(name: Seq<char>) -> Option<PanelBackground> {
    if name == PanelBackground::Solid.spec_name() {
        Some(PanelBackground::Solid)
    } else if name == PanelBackground::Translucent.spec_name() {
        Some(PanelBackground::Translucent)
    } else {
        None
    }
}

/// Each background is found again by its name.
pub proof fn lemma_background_names()
    ensures
        forall|b: PanelBackground| background_named(#[trigger] b.spec_name()) == Some(b),
{
    reveal_strlit("solid");
    reveal_strlit("translucent");
    assert("solid"@.len() != "translucent"@.len());
}

/// The settings file.
#[derive(Debug)]
pub struct SettingsFile {
    pub tray_offset: i32,
    pub poll_interval_ms: u32,
    pub compound_countdown: bool,
    pub language: Option<String>,
    pub last_update_check_unix: Option<u64>,
    pub widget_visible: bool,
    pub show_claude_code: bool,
    pub panel_background: PanelBackground,
    pub panel_pinned: bool,
    pub panel_pinned_x: Option<i32>,
    pub panel_pinned_y: Option<i32>,
}

/// The poll intervals that the menu offers, and no others.
pub open spec fn valid_poll_interval(ms: u32) -> bool {
    ms == POLL_1_MIN || ms == POLL_5_MIN || ms == POLL_15_MIN || ms == POLL_1_HOUR
}

/// The contents of a settings file.
#[verifier::ext_equal]
pub struct SettingsView {
    pub tray_offset: i32,
    pub poll_interval_ms: u32,
    pub compound_countdown: bool,
    pub language: Option<Seq<char>>,
    pub last_update_check_unix: Option<u64>,
    pub widget_visible: bool,
    pub show_claude_code: bool,
    pub panel_background: PanelBackground,
    pub panel_pinned: bool,
    pub panel_pinned_x: Option<i32>,
    pub panel_pinned_y: Option<i32>,
}

impl View for SettingsFile {
    type V = SettingsView;

    open spec fn view(&self) -> SettingsView {
        SettingsView {
            tray_offset: self.tray_offset,
            poll_interval_ms: self.poll_interval_ms,
            compound_countdown: self.compound_countdown,
            language: match self.language {
                Some(code) => Some(code@),
                None => None,
            },
            last_update_check_unix: self.last_update_check_unix,
            widget_visible: self.widget_visible,
            show_claude_code: self.show_claude_code,
            panel_background: self.panel_background,
            panel_pinned: self.panel_pinned,
            panel_pinned_x: self.panel_pinned_x,
            panel_pinned_y: self.panel_pinned_y,
        }
    }
}

impl SettingsView {
    /// The settings of a first run.
    pub open spec fn initial() -> SettingsView {
        SettingsView {
            tray_offset: 0,
            poll_interval_ms: POLL_15_MIN,
            compound_countdown: true,
            language: None,
            last_update_check_unix: None,
            widget_visible: true,
            show_claude_code: true,
            panel_background: PanelBackground::Solid,
            panel_pinned: false,
            panel_pinned_x: None,
            panel_pinned_y: None,
        }
    }

    /// The settings with the default in the place of a poll interval that the
    /// menu does not offer.
    pub open spec fn sanitized(self) -> SettingsView {
        SettingsView {
            poll_interval_ms: if valid_poll_interval(self.poll_interval_ms) {
                self.poll_interval_ms
            } else {
                POLL_15_MIN
            },
            ..self
        }
    }
}

/// The poll interval where the settings name none.
pub fn default_poll_interval() -> (r: u32)
    ensures
        r == POLL_15_MIN,
{
    POLL_15_MIN
}

/// Whether countdowns show two units where the settings do not say.
pub fn default_compound_countdown() -> (r: bool)
    ensures
        r,
{
    true
}

/// Whether the widget is shown where the settings do not say.
pub fn default_widget_visible() -> (r: bool)
    ensures
        r,
{
    true
}

/// Whether the model is shown where the settings do not say.
pub fn default_show_claude_code() -> (r: bool)
    ensures
        r,
{
    true
}

impl Default for SettingsFile {
    fn default() -> (r: SettingsFile)
        ensures
            r@ == SettingsView::initial(),
    {
        SettingsFile {
            tray_offset: 0,
            poll_interval_ms: default_poll_interval(),
            compound_countdown: default_compound_countdown(),
            language: None,
            last_update_check_unix: None,
            widget_visible: default_widget_visible(),
            show_claude_code: default_show_claude_code(),
            panel_background: PanelBackground::Solid,
            panel_pinned: false,
            panel_pinned_x: None,
            panel_pinned_y: None,
        }
    }
}

/// Puts the default in the place of a poll interval that the menu does not offer.
pub fn sanitize_settings(s: &mut SettingsFile)
    ensures
        final(s)@ == old(s)@.sanitized(),
{
    let ms: u32 = s.poll_interval_ms;
    if !(ms == POLL_1_MIN || ms == POLL_5_MIN || ms == POLL_15_MIN || ms == POLL_1_HOUR) {
        s.poll_interval_ms = default_poll_interval();
    }
}

/// The member of that name, as far as the document has one.
pub open spec fn field(doc: serde_json::Value, name: Seq<char>) -> JsonKind {
    if json_members(doc).contains_key(name) {
        json_kind(json_members(doc)[name])
    } else {
        JsonKind::Null
    }
}

pub open spec fn kind_bool(kind: JsonKind) -> Option<bool> {
    match kind {
        JsonKind::Bool(b) => Some(b),
        _ => None,
    }
}

pub open spec fn kind_text(kind: JsonKind) -> Option<Seq<char>> {
    match kind {
        JsonKind::Text(text) => Some(text),
        _ => None,
    }
}

pub open spec fn kind_u64(kind: JsonKind) -> Option<u64> {
    match kind {
        JsonKind::Integer(n) if 0 <= n <= u64::MAX => Some(n as u64),
        _ => None,
    }
}

pub open spec fn kind_u32(kind: JsonKind) -> Option<u32> {
    match kind {
        JsonKind::Integer(n) if 0 <= n <= u32::MAX => Some(n as u32),
        _ => None,
    }
}

pub open spec fn kind_i32(kind: JsonKind) -> Option<i32> {
    match kind {
        JsonKind::Integer(n) if i32::MIN <= n <= i32::MAX => Some(n as i32),
        _ => None,
    }
}

pub open spec fn or_default<T>(value: Option<T>, default: T) -> T {
    match value {
        Some(value) => value,
        None => default,
    }
}

/// The settings that a document holds, field by field: a member of the wrong
/// type, or a number that its field cannot hold, counts as missing and leaves the
/// others alone.
pub open spec fn recovered_settings(doc: serde_json::Value) -> SettingsView {
    let d = SettingsView::initial();
    SettingsView {
        tray_offset: or_default(kind_i32(field(doc, "tray_offset"@)), d.tray_offset),
        poll_interval_ms: or_default(
            kind_u32(field(doc, "poll_interval_ms"@)),
            d.poll_interval_ms,
        ),
        compound_countdown: or_default(
            kind_bool(field(doc, "compound_countdown"@)),
            d.compound_countdown,
        ),
        language: kind_text(field(doc, "language"@)),
        last_update_check_unix: kind_u64(field(doc, "last_update_check_unix"@)),
        widget_visible: or_default(kind_bool(field(doc, "widget_visible"@)), d.widget_visible),
        show_claude_code: or_default(kind_bool(field(doc, "show_claude_code"@)), d.show_claude_code),
        panel_background: match kind_text(field(doc, "panel_background"@)) {
            Some(name) => or_default(background_named(name), d.panel_background),
            None => d.panel_background,
        },
        panel_pinned: or_default(kind_bool(field(doc, "panel_pinned"@)), false),
        panel_pinned_x: kind_i32(field(doc, "panel_pinned_x"@)),
        panel_pinned_y: kind_i32(field(doc, "panel_pinned_y"@)),
    }
}

fn read_i32(doc: &serde_json::Value, name: &str) -> (r: Option<i32>)
    ensures
        r == kind_i32(field(*doc, name@)),
{
    match member(doc, name).as_i64() {
        Some(v) if i32::MIN as i64 <= v && v <= i32::MAX as i64 => Some(v as i32),
        _ => None,
    }
}

fn read_u32(doc: &serde_json::Value, name: &str) -> (r: Option<u32>)
    ensures
        r == kind_u32(field(*doc, name@)),
{
    match member(doc, name).as_u64() {
        Some(v) if v <= u32::MAX as u64 => Some(v as u32),
        _ => None,
    }
}

fn read_u64(doc: &serde_json::Value, name: &str) -> (r: Option<u64>)
    ensures
        r == kind_u64(field(*doc, name@)),
{
    member(doc, name).as_u64()
}

fn read_bool(doc: &serde_json::Value, name: &str) -> (r: Option<bool>)
    ensures
        r == kind_bool(field(*doc, name@)),
{
    member(doc, name).as_bool()
}

/// Reads the settings out of a document, field by field, so that one bad value
/// does not take the others with it.
pub fn recover_settings(doc: &serde_json::Value) -> (r: SettingsFile)
    ensures
        r@ == recovered_settings(*doc),
{
    let d = SettingsFile::default();
    let language: Option<String> = match member(doc, "language").as_str() {
        Some(code) => Some(code.to_owned()),
        None => None,
    };
    let panel_background = match member(doc, "panel_background").as_str() {
        Some(name) => PanelBackground::from_name(name).unwrap_or(d.panel_background),
        None => d.panel_background,
    };
    SettingsFile {
        tray_offset: read_i32(doc, "tray_offset").unwrap_or(d.tray_offset),
        poll_interval_ms: read_u32(doc, "poll_interval_ms").unwrap_or(d.poll_interval_ms),
        compound_countdown: read_bool(doc, "compound_countdown").unwrap_or(d.compound_countdown),
        language,
        last_update_check_unix: read_u64(doc, "last_update_check_unix"),
        widget_visible: read_bool(doc, "widget_visible").unwrap_or(d.widget_visible),
        show_claude_code: read_bool(doc, "show_claude_code").unwrap_or(d.show_claude_code),
        panel_background,
        panel_pinned: read_bool(doc, "panel_pinned").unwrap_or(false),
        panel_pinned_x: read_i32(doc, "panel_pinned_x"),
        panel_pinned_y: read_i32(doc, "panel_pinned_y"),
    }
}

/// What is loaded from a settings file: nothing was read, every field was well
/// typed, or the fields have to be recovered one by one.
pub open spec fn loaded_settings(
    content: Option<Seq<char>>,
    typed: Option<SettingsView>,
) -> SettingsView {
    match content {
        None => SettingsView::initial(),
        Some(text) => match typed {
            Some(settings) => settings.sanitized(),
            None => match json_document(text) {
                Some(doc) => recovered_settings(doc).sanitized(),
                None => SettingsView::initial(),
            },
        },
    }
}

/// The settings that a file's content stands for. `typed` is what reading the
/// whole content as settings gave, absent where some field is ill typed.
pub fn load_settings(content: Option<&str>, typed: Option<SettingsFile>) -> (r: SettingsFile)
    ensures
        r@ == loaded_settings(
            match content {
                Some(text) => Some(text@),
                None => None,
            },
            match typed {
                Some(settings) => Some(settings@),
                None => None,
            },
        ),
{
    let text = match content {
        Some(text) => text,
        None => return SettingsFile::default(),
    };
    if let Some(settings) = typed {
        let mut settings = settings;
        sanitize_settings(&mut settings);
        return settings;
    }
    match parse_document(text) {
        Ok(doc) => {
            let mut settings = recover_settings(&doc);
            sanitize_settings(&mut settings);
            settings
        },
        Err(_) => SettingsFile::default(),
    }
}

/// Whatever the settings file holds, polling goes on at an interval of the menu.
pub proof fn lemma_loaded_interval_is_valid(
    content: Option<Seq<char>>,
    typed: Option<SettingsView>,
)
    ensures
        valid_poll_interval(loaded_settings(content, typed).poll_interval_ms),
{
}

/// Sanitizing twice is sanitizing once, and settings that the menu can make are
/// left as they are.
pub proof fn lemma_sanitize_is_idempotent(s: SettingsView)
    ensures
        s.sanitized().sanitized() == s.sanitized(),
        valid_poll_interval(s.poll_interval_ms) ==> s.sanitized() == s,
{
}

/// One bad value does not reset the others: two documents that differ in one
/// member only give settings that differ in that member's field only.
pub proof fn lemma_recovery_is_field_by_field(
    a: serde_json::Value,
    b: serde_json::Value,
    name: Seq<char>,
)
    requires
        forall|other: Seq<char>| other != name ==> #[trigger] field(a, other) == field(b, other),
    ensures
        ({
            let x = recovered_settings(a);
            let y = recovered_settings(b);
            &&& name != "tray_offset"@ ==> x.tray_offset == y.tray_offset
            &&& name != "poll_interval_ms"@ ==> x.poll_interval_ms == y.poll_interval_ms
            &&& name != "compound_countdown"@ ==> x.compound_countdown == y.compound_countdown
            &&& name != "language"@ ==> x.language == y.language
            &&& name != "last_update_check_unix"@ ==> x.last_update_check_unix
                == y.last_update_check_unix
            &&& name != "widget_visible"@ ==> x.widget_visible == y.widget_visible
            &&& name != "show_claude_code"@ ==> x.show_claude_code == y.show_claude_code
            &&& name != "panel_background"@ ==> x.panel_background == y.panel_background
            &&& name != "panel_pinned"@ ==> x.panel_pinned == y.panel_pinned
            &&& name != "panel_pinned_x"@ ==> x.panel_pinned_x == y.panel_pinned_x
            &&& name != "panel_pinned_y"@ ==> x.panel_pinned_y == y.panel_pinned_y
        }),
{
}

/// A document without members stands for the settings of a first run.
pub proof fn lemma_empty_document_gives_defaults(doc: serde_json::Value)
    requires
        json_members(doc) == Map::<Seq<char>, serde_json::Value>::empty(),
    ensures
        recovered_settings(doc) == SettingsView::initial(),
{
}

} // verus!
