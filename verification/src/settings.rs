use vstd::prelude::*;
use vstd::string::*;

use crate::appearance::{Color, color_of_hex, hex_of_color, color_to_hex, lemma_hex_round_trip};
use crate::localization::LanguageId;
use crate::polling::POLL_15_MIN;
use crate::scheme::{
    ColorSchemeMode, SettingsColorSchemeMode, mode_from_settings, mode_to_settings, palette_of,
    color_palette_for_mode,
};
use crate::state::{Preferences, WidgetState};

verus! {

pub const DEFAULT_BORDER_PX: i32 = 1;
pub const DEFAULT_PANEL_MARGIN_PX: i32 = 1;
pub const DEFAULT_PANEL_PADDING_PX: i32 = 0;

/// The contents of the settings file.
#[derive(Debug)]
pub struct SettingsFile {
    pub tray_offset: i32,
    pub poll_interval_ms: u32,
    pub language: Option<String>,
    pub border_width_px: i32,
    pub panel_margin_px: i32,
    pub panel_padding_px: i32,
    pub widget_visible: bool,
    pub widget_width_px: i32,
    pub widget_height_px: i32,
    pub background_color_hex: Option<String>,
    pub font_color_hex: Option<String>,
    pub indicator_color_hex: Option<String>,
    pub color_scheme_mode: Option<SettingsColorSchemeMode>,
}

/// The code a language is stored under.
pub open spec fn language_code_of(language: LanguageId) -> Seq<char> {
    match language {
        LanguageId::English => "en"@,
        LanguageId::PortugueseBrazil => "pt-BR"@,
    }
}

/// An optional text holds exactly the given characters.
pub open spec fn holds_text(t: Option<String>, s: Seq<char>) -> bool {
    t matches Some(v) && v@ == s
}

/// The colour a settings entry names, or `fallback` when there is none.
pub open spec fn color_or(hex: Option<String>, fallback: Color) -> Color {
    match hex {
        Some(h) => color_of_hex(h@),
        None => fallback,
    }
}

/// Whether the settings name any colour of their own.
pub open spec fn has_custom_colors(s: SettingsFile) -> bool {
    s.background_color_hex is Some || s.font_color_hex is Some || s.indicator_color_hex is Some
}

/// The colour scheme at start-up: the one the settings name; without one,
/// custom when the settings name colours, else automatic.
pub open spec fn initial_mode(s: SettingsFile) -> ColorSchemeMode {
    match s.color_scheme_mode {
        Some(m) => mode_from_settings(m),
        None => if has_custom_colors(s) {
            ColorSchemeMode::Custom
        } else {
            ColorSchemeMode::Auto
        },
    }
}

/// The preferences at start-up: taken from the settings, colours from the
/// settings where given, else from the scheme; the language is Brazilian Portuguese.
pub open spec fn initial_prefs(s: SettingsFile, is_dark: bool) -> Preferences {
    let palette = palette_of(initial_mode(s), is_dark);
    Preferences {
        tray_offset: s.tray_offset,
        poll_interval_ms: s.poll_interval_ms,
        language_override: Some(LanguageId::PortugueseBrazil),
        widget_visible: s.widget_visible,
        widget_width_px: s.widget_width_px,
        widget_height_px: s.widget_height_px,
        background_color: color_or(s.background_color_hex, palette.0),
        font_color: color_or(s.font_color_hex, palette.1),
        indicator_color: color_or(s.indicator_color_hex, palette.2),
        color_scheme_mode: initial_mode(s),
        border_width_px: s.border_width_px,
        panel_margin_px: s.panel_margin_px,
        panel_padding_px: s.panel_padding_px,
    }
}

/// The settings that record the given preferences.
pub open spec fn records(f: SettingsFile, p: Preferences) -> bool {
    &&& f.tray_offset == p.tray_offset
    &&& f.poll_interval_ms == p.poll_interval_ms
    &&& match p.language_override {
        Some(l) => holds_text(f.language, language_code_of(l)),
        None => f.language is None,
    }
    &&& f.widget_visible == p.widget_visible
    &&& f.widget_width_px == p.widget_width_px
    &&& f.widget_height_px == p.widget_height_px
    &&& holds_text(f.background_color_hex, hex_of_color(p.background_color))
    &&& holds_text(f.font_color_hex, hex_of_color(p.font_color))
    &&& holds_text(f.indicator_color_hex, hex_of_color(p.indicator_color))
    &&& f.color_scheme_mode == mode_to_settings(p.color_scheme_mode)
    &&& f.border_width_px == p.border_width_px
    &&& f.panel_margin_px == p.panel_margin_px
    &&& f.panel_padding_px == p.panel_padding_px
}

/// Poll interval when the settings name none: fifteen minutes.
pub fn default_poll_interval() -> (r: u32)
    ensures
        r == POLL_15_MIN,
{
    POLL_15_MIN
}

/// Whether the widget is shown when the settings do not say.
pub fn default_widget_visible() -> (r: bool)
    ensures
        r,
{
    true
}

pub fn default_border_width() -> (r: i32)
    ensures
        r == DEFAULT_BORDER_PX,
{
    DEFAULT_BORDER_PX
}

pub fn default_panel_margin() -> (r: i32)
    ensures
        r == DEFAULT_PANEL_MARGIN_PX,
{
    DEFAULT_PANEL_MARGIN_PX
}

pub fn default_panel_padding() -> (r: i32)
    ensures
        r == DEFAULT_PANEL_PADDING_PX,
{
    DEFAULT_PANEL_PADDING_PX
}

impl Default for SettingsFile {
    fn default() -> (r: Self)
        ensures
            r.tray_offset == 0,
            r.poll_interval_ms == POLL_15_MIN,
            r.language is None,
            r.widget_visible,
            r.widget_width_px == 0,
            r.widget_height_px == 0,
            r.background_color_hex is None,
            r.font_color_hex is None,
            r.indicator_color_hex is None,
            r.color_scheme_mode == Some(SettingsColorSchemeMode::Auto),
            r.border_width_px == DEFAULT_BORDER_PX,
            r.panel_margin_px == DEFAULT_PANEL_MARGIN_PX,
            r.panel_padding_px == DEFAULT_PANEL_PADDING_PX,
    {
        SettingsFile {
            tray_offset: 0,
            poll_interval_ms: default_poll_interval(),
            language: None,
            widget_visible: true,
            widget_width_px: 0,
            widget_height_px: 0,
            background_color_hex: None,
            font_color_hex: None,
            indicator_color_hex: None,
            color_scheme_mode: Some(SettingsColorSchemeMode::Auto),
            border_width_px: default_border_width(),
            panel_margin_px: default_panel_margin(),
            panel_padding_px: default_panel_padding(),
        }
    }
}

/// The code a language is stored under in the settings file.
pub fn language_code(language: LanguageId) -> (r: &'static str)
    ensures
        r@ == language_code_of(language),
{
    match language {
        LanguageId::English => "en",
        LanguageId::PortugueseBrazil => "pt-BR",
    }
}

/// The settings file contents that record the widget's preferences.
pub fn settings_from_state(state: &WidgetState) -> (r: SettingsFile)
    ensures
        records(r, state.prefs),
{
    let p = &state.prefs;
    let language = match p.language_override {
        Some(l) => Some(String::from_str(language_code(l))),
        None => None,
    };
    SettingsFile {
        tray_offset: p.tray_offset,
        poll_interval_ms: p.poll_interval_ms,
        language,
        widget_visible: p.widget_visible,
        widget_width_px: p.widget_width_px,
        widget_height_px: p.widget_height_px,
        background_color_hex: Some(color_to_hex(p.background_color)),
        font_color_hex: Some(color_to_hex(p.font_color)),
        indicator_color_hex: Some(color_to_hex(p.indicator_color)),
        color_scheme_mode: p.color_scheme_mode.to_settings(),
        border_width_px: p.border_width_px,
        panel_margin_px: p.panel_margin_px,
        panel_padding_px: p.panel_padding_px,
    }
}

fn color_from_setting(hex: &Option<String>, fallback: Color) -> (c: Color)
    ensures
        c == color_or(*hex, fallback),
{
    match hex {
        Some(h) => Color::from_hex(h.as_str()),
        None => fallback,
    }
}

/// The widget's state at start-up, from the settings file, the system theme
/// and the system's UI language.
pub fn initial_state(
    settings: &SettingsFile,
    is_dark: bool,
    system_language: Option<LanguageId>,
) -> (s: WidgetState)
    ensures
        s.prefs == initial_prefs(*settings, is_dark),
        s.language == LanguageId::PortugueseBrazil,
        s.system_language == system_language,
        s.is_dark == is_dark,
        !s.embedded,
        s.session_text@ == "--"@,
        s.weekly_text@ == "--"@,
        s.retry_count == 0,
        !s.last_poll_ok,
        !s.dragging,
        s.drag_start_mouse_x == 0,
        s.drag_start_offset == 0,
        s.wf(),
{
    let has_custom = settings.background_color_hex.is_some() || settings.font_color_hex.is_some()
        || settings.indicator_color_hex.is_some();
    let mode = match settings.color_scheme_mode {
        Some(m) => ColorSchemeMode::from(m),
        None => if has_custom {
            ColorSchemeMode::Custom
        } else {
            ColorSchemeMode::Auto
        },
    };
    let (scheme_bg, scheme_font, scheme_indicator) = color_palette_for_mode(mode, is_dark);
    let prefs = Preferences {
        tray_offset: settings.tray_offset,
        poll_interval_ms: settings.poll_interval_ms,
        language_override: Some(LanguageId::PortugueseBrazil),
        widget_visible: settings.widget_visible,
        widget_width_px: settings.widget_width_px,
        widget_height_px: settings.widget_height_px,
        background_color: color_from_setting(&settings.background_color_hex, scheme_bg),
        font_color: color_from_setting(&settings.font_color_hex, scheme_font),
        indicator_color: color_from_setting(&settings.indicator_color_hex, scheme_indicator),
        color_scheme_mode: mode,
        border_width_px: settings.border_width_px,
        panel_margin_px: settings.panel_margin_px,
        panel_padding_px: settings.panel_padding_px,
    };
    WidgetState {
        prefs,
        language: LanguageId::PortugueseBrazil,
        system_language,
        is_dark,
        embedded: false,
        session_text: String::from_str("--"),
        weekly_text: String::from_str("--"),
        retry_count: 0,
        last_poll_ok: false,
        dragging: false,
        drag_start_mouse_x: 0,
        drag_start_offset: 0,
    }
}

/// Preferences written to the settings file and read back at the next start
/// are the same, but for the language, which start-up always sets to
/// Brazilian Portuguese.
pub proof fn lemma_settings_round_trip(f: SettingsFile, p: Preferences, is_dark: bool)
    requires
        records(f, p),
    ensures
        initial_prefs(f, is_dark) == (Preferences {
            language_override: Some(LanguageId::PortugueseBrazil),
            ..p
        }),
{
    lemma_hex_round_trip(p.background_color);
    lemma_hex_round_trip(p.font_color);
    lemma_hex_round_trip(p.indicator_color);
}

} // verus!
