use vstd::prelude::*;

use crate::appearance::Color;
use crate::localization::{LanguageId, Strings, native_name_of};
use crate::polling::{POLL_1_MIN, POLL_5_MIN, POLL_15_MIN, POLL_1_HOUR};
use crate::scheme::ColorSchemeMode;
use crate::state::{
    Preferences, WidgetState, with_scheme_colors, with_language, refreshing_text,
    apply_color_scheme_to_state, apply_language_to_state, toggle_widget_visibility,
    mark_refreshing,
};

verus! {

pub const IDM_REFRESH: u16 = 1;
pub const IDM_EXIT: u16 = 2;
pub const IDM_FREQ_1MIN: u16 = 10;
pub const IDM_FREQ_5MIN: u16 = 11;
pub const IDM_FREQ_15MIN: u16 = 12;
pub const IDM_FREQ_1HOUR: u16 = 13;
pub const IDM_START_WITH_WINDOWS: u16 = 20;
pub const IDM_RESET_POSITION: u16 = 30;
pub const IDM_LANG_SYSTEM: u16 = 40;
pub const IDM_LANG_ENGLISH: u16 = 41;
pub const IDM_LANG_PORTUGUESE_BRAZIL: u16 = 47;
pub const IDM_SIZE_AUTO: u16 = 200;
pub const IDM_SIZE_COMPACT: u16 = 201;
pub const IDM_SIZE_DEFAULT: u16 = 202;
pub const IDM_SIZE_LARGE: u16 = 203;
pub const IDM_SIZE_XL: u16 = 204;
pub const IDM_BG_CHARCOAL: u16 = 210;
pub const IDM_BG_SLATE: u16 = 211;
pub const IDM_BG_BLACK: u16 = 212;
pub const IDM_FONT_IVORY: u16 = 220;
pub const IDM_FONT_SOFT: u16 = 221;
pub const IDM_FONT_WHITE: u16 = 222;
pub const IDM_IND_CORAL: u16 = 230;
pub const IDM_IND_MINT: u16 = 231;
pub const IDM_IND_BLUE: u16 = 232;
pub const IDM_BORDER_NONE: u16 = 240;
pub const IDM_BORDER_THIN: u16 = 241;
pub const IDM_BORDER_MEDIUM: u16 = 242;
pub const IDM_BORDER_THICK: u16 = 243;
pub const IDM_PADDING_0: u16 = 250;
pub const IDM_PADDING_4: u16 = 251;
pub const IDM_PADDING_8: u16 = 252;
pub const IDM_MARGIN_0: u16 = 260;
pub const IDM_MARGIN_2: u16 = 261;
pub const IDM_MARGIN_4: u16 = 262;
pub const IDM_SCHEME_AUTO: u16 = 270;
pub const IDM_SCHEME_LIGHT: u16 = 271;
pub const IDM_SCHEME_DARK: u16 = 272;

pub const MAX_BORDER_PRESET_PX: i32 = 6;
pub const MAX_SPACING_PRESET_PX: i32 = 16;

/// What a context-menu item asks for.
#[derive(Clone, Copy, Debug, PartialEq, Eq, Structural)]
pub enum MenuCommand {
    Refresh,
    Exit,
    ResetPosition,
    ToggleStartup,
    SetPollInterval(u32),
    SetLanguage(Option<LanguageId>),
    SetWidgetSize(i32, i32),
    SetBackground(Color),
    SetFont(Color),
    SetIndicator(Color),
    SetColorScheme(ColorSchemeMode),
    SetBorder(i32),
    SetPadding(i32),
    SetMargin(i32),
    ToggleWidget,
    Ignore,
}

pub open spec fn rgb(r: u8, g: u8, b: u8) -> Color {
    Color { r, g, b }
}

/// The command of a menu item id; `toggle_id` is the id of the item that shows
/// or hides the widget, looked at only when no other item has the id.
pub open spec fn command_for(id: u16, toggle_id: u16) -> MenuCommand {
    if id == IDM_REFRESH {
        MenuCommand::Refresh
    } else if id == IDM_EXIT {
        MenuCommand::Exit
    } else if id == IDM_RESET_POSITION {
        MenuCommand::ResetPosition
    } else if id == IDM_START_WITH_WINDOWS {
        MenuCommand::ToggleStartup
    } else if id == IDM_FREQ_1MIN {
        MenuCommand::SetPollInterval(POLL_1_MIN)
    } else if id == IDM_FREQ_5MIN {
        MenuCommand::SetPollInterval(POLL_5_MIN)
    } else if id == IDM_FREQ_15MIN {
        MenuCommand::SetPollInterval(POLL_15_MIN)
    } else if id == IDM_FREQ_1HOUR {
        MenuCommand::SetPollInterval(POLL_1_HOUR)
    } else if id == IDM_LANG_SYSTEM {
        MenuCommand::SetLanguage(None)
    } else if id == IDM_LANG_ENGLISH {
        MenuCommand::SetLanguage(Some(LanguageId::English))
    } else if id == IDM_LANG_PORTUGUESE_BRAZIL {
        MenuCommand::SetLanguage(Some(LanguageId::PortugueseBrazil))
    } else if id == IDM_SIZE_AUTO {
        MenuCommand::SetWidgetSize(0, 0)
    } else if id == IDM_SIZE_COMPACT {
        MenuCommand::SetWidgetSize(320, 38)
    } else if id == IDM_SIZE_DEFAULT {
        MenuCommand::SetWidgetSize(360, 44)
    } else if id == IDM_SIZE_LARGE {
        MenuCommand::SetWidgetSize(400, 50)
    } else if id == IDM_SIZE_XL {
        MenuCommand::SetWidgetSize(440, 56)
    } else if id == IDM_BG_CHARCOAL {
        MenuCommand::SetBackground(rgb(0x16, 0x16, 0x16))
    } else if id == IDM_BG_SLATE {
        MenuCommand::SetBackground(rgb(0x1E, 0x24, 0x2B))
    } else if id == IDM_BG_BLACK {
        MenuCommand::SetBackground(rgb(0x0F, 0x0F, 0x0F))
    } else if id == IDM_FONT_IVORY {
        MenuCommand::SetFont(rgb(0xEA, 0xEA, 0xEA))
    } else if id == IDM_FONT_SOFT {
        MenuCommand::SetFont(rgb(0xC9, 0xD1, 0xD9))
    } else if id == IDM_FONT_WHITE {
        MenuCommand::SetFont(rgb(0xFF, 0xFF, 0xFF))
    } else if id == IDM_IND_CORAL {
        MenuCommand::SetIndicator(rgb(0xD9, 0x77, 0x57))
    } else if id == IDM_IND_MINT {
        MenuCommand::SetIndicator(rgb(0x5A, 0xC7, 0x9B))
    } else if id == IDM_IND_BLUE {
        MenuCommand::SetIndicator(rgb(0x5B, 0x8D, 0xEF))
    } else if id == IDM_SCHEME_AUTO {
        MenuCommand::SetColorScheme(ColorSchemeMode::Auto)
    } else if id == IDM_SCHEME_LIGHT {
        MenuCommand::SetColorScheme(ColorSchemeMode::Light)
    } else if id == IDM_SCHEME_DARK {
        MenuCommand::SetColorScheme(ColorSchemeMode::Dark)
    } else if id == IDM_BORDER_NONE {
        MenuCommand::SetBorder(0)
    } else if id == IDM_BORDER_THIN {
        MenuCommand::SetBorder(1)
    } else if id == IDM_BORDER_MEDIUM {
        MenuCommand::SetBorder(2)
    } else if id == IDM_BORDER_THICK {
        MenuCommand::SetBorder(3)
    } else if id == IDM_PADDING_0 {
        MenuCommand::SetPadding(0)
    } else if id == IDM_PADDING_4 {
        MenuCommand::SetPadding(4)
    } else if id == IDM_PADDING_8 {
        MenuCommand::SetPadding(8)
    } else if id == IDM_MARGIN_0 {
        MenuCommand::SetMargin(0)
    } else if id == IDM_MARGIN_2 {
        MenuCommand::SetMargin(2)
    } else if id == IDM_MARGIN_4 {
        MenuCommand::SetMargin(4)
    } else if id == toggle_id {
        MenuCommand::ToggleWidget
    } else {
        MenuCommand::Ignore
    }
}

pub open spec fn clamp_i32(v: i32, lo: i32, hi: i32) -> i32 {
    if v < lo {
        lo
    } else if v > hi {
        hi
    } else {
        v
    }
}

/// The preferences after a frame preset: each given value held in its range.
pub open spec fn with_frame(
    p: Preferences,
    border: Option<i32>,
    margin: Option<i32>,
    padding: Option<i32>,
) -> Preferences {
    Preferences {
        border_width_px: match border {
            Some(v) => clamp_i32(v, 0, MAX_BORDER_PRESET_PX),
            None => p.border_width_px,
        },
        panel_margin_px: match margin {
            Some(v) => clamp_i32(v, 0, MAX_SPACING_PRESET_PX),
            None => p.panel_margin_px,
        },
        panel_padding_px: match padding {
            Some(v) => clamp_i32(v, 0, MAX_SPACING_PRESET_PX),
            None => p.panel_padding_px,
        },
        ..p
    }
}

/// The preferences after a colour preset: the colours become custom and each
/// given colour replaces the old one.
pub open spec fn with_colors(
    p: Preferences,
    background: Option<Color>,
    font: Option<Color>,
    indicator: Option<Color>,
) -> Preferences {
    Preferences {
        color_scheme_mode: ColorSchemeMode::Custom,
        background_color: match background {
            Some(c) => c,
            None => p.background_color,
        },
        font_color: match font {
            Some(c) => c,
            None => p.font_color,
        },
        indicator_color: match indicator {
            Some(c) => c,
            None => p.indicator_color,
        },
        ..p
    }
}

/// The state after a menu command, for every command but refresh, which puts
/// up the refreshing marker; commands that act outside the widget's state
/// (exit, start-up entry) leave it as it is. A language change here keeps the
/// usage texts; `apply_menu_command` also takes them in the new language.
pub open spec fn after_command(s: WidgetState, cmd: MenuCommand) -> WidgetState {
    match cmd {
        MenuCommand::ResetPosition => WidgetState {
            prefs: Preferences { tray_offset: 0, ..s.prefs },
            ..s
        },
        MenuCommand::SetPollInterval(v) => WidgetState {
            prefs: Preferences { poll_interval_ms: v, ..s.prefs },
            ..s
        },
        MenuCommand::SetLanguage(l) => with_language(s, l, None),
        MenuCommand::SetWidgetSize(w, h) => WidgetState {
            prefs: Preferences { widget_width_px: w, widget_height_px: h, ..s.prefs },
            ..s
        },
        MenuCommand::SetBackground(c) => WidgetState {
            prefs: with_colors(s.prefs, Some(c), None, None),
            ..s
        },
        MenuCommand::SetFont(c) => WidgetState { prefs: with_colors(s.prefs, None, Some(c), None), ..s },
        MenuCommand::SetIndicator(c) => WidgetState {
            prefs: with_colors(s.prefs, None, None, Some(c)),
            ..s
        },
        MenuCommand::SetColorScheme(m) => WidgetState {
            prefs: with_scheme_colors(Preferences { color_scheme_mode: m, ..s.prefs }, s.is_dark),
            ..s
        },
        MenuCommand::SetBorder(v) => WidgetState { prefs: with_frame(s.prefs, Some(v), None, None), ..s },
        MenuCommand::SetPadding(v) => WidgetState {
            prefs: with_frame(s.prefs, None, None, Some(v)),
            ..s
        },
        MenuCommand::SetMargin(v) => WidgetState { prefs: with_frame(s.prefs, None, Some(v), None), ..s },
        MenuCommand::ToggleWidget => WidgetState {
            prefs: Preferences { widget_visible: !s.prefs.widget_visible, ..s.prefs },
            ..s
        },
        _ => s,
    }
}

/// Whether the menu shows the item with `id` checked.
pub open spec fn item_checked(id: u16, toggle_id: u16, p: Preferences, startup_enabled: bool) -> bool {
    if id == IDM_FREQ_1MIN {
        p.poll_interval_ms == POLL_1_MIN
    } else if id == IDM_FREQ_5MIN {
        p.poll_interval_ms == POLL_5_MIN
    } else if id == IDM_FREQ_15MIN {
        p.poll_interval_ms == POLL_15_MIN
    } else if id == IDM_FREQ_1HOUR {
        p.poll_interval_ms == POLL_1_HOUR
    } else if id == IDM_START_WITH_WINDOWS {
        startup_enabled
    } else if id == IDM_LANG_SYSTEM {
        p.language_override is None
    } else if id == IDM_LANG_ENGLISH {
        p.language_override == Some(LanguageId::English)
    } else if id == IDM_LANG_PORTUGUESE_BRAZIL {
        p.language_override == Some(LanguageId::PortugueseBrazil)
    } else if id == IDM_SIZE_AUTO {
        p.widget_width_px == 0 && p.widget_height_px == 0
    } else if id == IDM_SIZE_COMPACT {
        p.widget_width_px == 320 && p.widget_height_px == 38
    } else if id == IDM_SIZE_DEFAULT {
        p.widget_width_px == 360 && p.widget_height_px == 44
    } else if id == IDM_SIZE_LARGE {
        p.widget_width_px == 400 && p.widget_height_px == 50
    } else if id == IDM_SIZE_XL {
        p.widget_width_px == 440 && p.widget_height_px == 56
    } else if id == IDM_BG_CHARCOAL {
        p.background_color == rgb(0x16, 0x16, 0x16)
    } else if id == IDM_BG_SLATE {
        p.background_color == rgb(0x1E, 0x24, 0x2B)
    } else if id == IDM_BG_BLACK {
        p.background_color == rgb(0x0F, 0x0F, 0x0F)
    } else if id == IDM_FONT_IVORY {
        p.font_color == rgb(0xEA, 0xEA, 0xEA)
    } else if id == IDM_FONT_SOFT {
        p.font_color == rgb(0xC9, 0xD1, 0xD9)
    } else if id == IDM_FONT_WHITE {
        p.font_color == rgb(0xFF, 0xFF, 0xFF)
    } else if id == IDM_IND_CORAL {
        p.indicator_color == rgb(0xD9, 0x77, 0x57)
    } else if id == IDM_IND_MINT {
        p.indicator_color == rgb(0x5A, 0xC7, 0x9B)
    } else if id == IDM_IND_BLUE {
        p.indicator_color == rgb(0x5B, 0x8D, 0xEF)
    } else if id == IDM_BORDER_NONE {
        p.border_width_px == 0
    } else if id == IDM_BORDER_THIN {
        p.border_width_px == 1
    } else if id == IDM_BORDER_MEDIUM {
        p.border_width_px == 2
    } else if id == IDM_BORDER_THICK {
        p.border_width_px == 3
    } else if id == IDM_PADDING_0 {
        p.panel_padding_px == 0
    } else if id == IDM_PADDING_4 {
        p.panel_padding_px == 4
    } else if id == IDM_PADDING_8 {
        p.panel_padding_px == 8
    } else if id == IDM_MARGIN_0 {
        p.panel_margin_px == 0
    } else if id == IDM_MARGIN_2 {
        p.panel_margin_px == 2
    } else if id == IDM_MARGIN_4 {
        p.panel_margin_px == 4
    } else if id == IDM_SCHEME_AUTO {
        p.color_scheme_mode == ColorSchemeMode::Auto
    } else if id == IDM_SCHEME_LIGHT {
        p.color_scheme_mode == ColorSchemeMode::Light
    } else if id == IDM_SCHEME_DARK {
        p.color_scheme_mode == ColorSchemeMode::Dark
    } else if id == toggle_id {
        p.widget_visible
    } else {
        false
    }
}

/// Ids of the items that pick one setting among several.
pub open spec fn is_choice_id(id: u16) -> bool {
    ||| IDM_FREQ_1MIN <= id <= IDM_FREQ_1HOUR
    ||| id == IDM_LANG_SYSTEM || id == IDM_LANG_ENGLISH || id == IDM_LANG_PORTUGUESE_BRAZIL
    ||| IDM_SIZE_AUTO <= id <= IDM_SIZE_XL
    ||| IDM_BG_CHARCOAL <= id <= IDM_BG_BLACK
    ||| IDM_FONT_IVORY <= id <= IDM_FONT_WHITE
    ||| IDM_IND_CORAL <= id <= IDM_IND_BLUE
    ||| IDM_BORDER_NONE <= id <= IDM_BORDER_THICK
    ||| IDM_PADDING_0 <= id <= IDM_PADDING_8
    ||| IDM_MARGIN_0 <= id <= IDM_MARGIN_4
    ||| IDM_SCHEME_AUTO <= id <= IDM_SCHEME_DARK
}

/// The command of a context-menu item id.
pub fn menu_command(id: u16, toggle_id: u16) -> (c: MenuCommand)
    ensures
        c == command_for(id, toggle_id),
{
    match id {
        IDM_REFRESH => MenuCommand::Refresh,
        IDM_EXIT => MenuCommand::Exit,
        IDM_RESET_POSITION => MenuCommand::ResetPosition,
        IDM_START_WITH_WINDOWS => MenuCommand::ToggleStartup,
        IDM_FREQ_1MIN => MenuCommand::SetPollInterval(POLL_1_MIN),
        IDM_FREQ_5MIN => MenuCommand::SetPollInterval(POLL_5_MIN),
        IDM_FREQ_15MIN => MenuCommand::SetPollInterval(POLL_15_MIN),
        IDM_FREQ_1HOUR => MenuCommand::SetPollInterval(POLL_1_HOUR),
        IDM_LANG_SYSTEM => MenuCommand::SetLanguage(None),
        IDM_LANG_ENGLISH => MenuCommand::SetLanguage(Some(LanguageId::English)),
        IDM_LANG_PORTUGUESE_BRAZIL => MenuCommand::SetLanguage(Some(LanguageId::PortugueseBrazil)),
        IDM_SIZE_AUTO => MenuCommand::SetWidgetSize(0, 0),
        IDM_SIZE_COMPACT => MenuCommand::SetWidgetSize(320, 38),
        IDM_SIZE_DEFAULT => MenuCommand::SetWidgetSize(360, 44),
        IDM_SIZE_LARGE => MenuCommand::SetWidgetSize(400, 50),
        IDM_SIZE_XL => MenuCommand::SetWidgetSize(440, 56),
        IDM_BG_CHARCOAL => MenuCommand::SetBackground(Color::new(0x16, 0x16, 0x16)),
        IDM_BG_SLATE => MenuCommand::SetBackground(Color::new(0x1E, 0x24, 0x2B)),
        IDM_BG_BLACK => MenuCommand::SetBackground(Color::new(0x0F, 0x0F, 0x0F)),
        IDM_FONT_IVORY => MenuCommand::SetFont(Color::new(0xEA, 0xEA, 0xEA)),
        IDM_FONT_SOFT => MenuCommand::SetFont(Color::new(0xC9, 0xD1, 0xD9)),
        IDM_FONT_WHITE => MenuCommand::SetFont(Color::new(0xFF, 0xFF, 0xFF)),
        IDM_IND_CORAL => MenuCommand::SetIndicator(Color::new(0xD9, 0x77, 0x57)),
        IDM_IND_MINT => MenuCommand::SetIndicator(Color::new(0x5A, 0xC7, 0x9B)),
        IDM_IND_BLUE => MenuCommand::SetIndicator(Color::new(0x5B, 0x8D, 0xEF)),
        IDM_SCHEME_AUTO => MenuCommand::SetColorScheme(ColorSchemeMode::Auto),
        IDM_SCHEME_LIGHT => MenuCommand::SetColorScheme(ColorSchemeMode::Light),
        IDM_SCHEME_DARK => MenuCommand::SetColorScheme(ColorSchemeMode::Dark),
        IDM_BORDER_NONE => MenuCommand::SetBorder(0),
        IDM_BORDER_THIN => MenuCommand::SetBorder(1),
        IDM_BORDER_MEDIUM => MenuCommand::SetBorder(2),
        IDM_BORDER_THICK => MenuCommand::SetBorder(3),
        IDM_PADDING_0 => MenuCommand::SetPadding(0),
        IDM_PADDING_4 => MenuCommand::SetPadding(4),
        IDM_PADDING_8 => MenuCommand::SetPadding(8),
        IDM_MARGIN_0 => MenuCommand::SetMargin(0),
        IDM_MARGIN_2 => MenuCommand::SetMargin(2),
        IDM_MARGIN_4 => MenuCommand::SetMargin(4),
        _ => if id == toggle_id {
            MenuCommand::ToggleWidget
        } else {
            MenuCommand::Ignore
        },
    }
}

fn clamp_px(v: i32, lo: i32, hi: i32) -> (r: i32)
    requires
        lo <= hi,
    ensures
        r == clamp_i32(v, lo, hi),
{
    if v < lo {
        lo
    } else if v > hi {
        hi
    } else {
        v
    }
}

/// Sets the widget's custom size; 0 by 0 means automatic.
pub fn apply_widget_size_preset(state: &mut WidgetState, width_px: i32, height_px: i32)
    ensures
        *final(state) == after_command(*old(state), MenuCommand::SetWidgetSize(width_px, height_px)),
{
    state.prefs.widget_width_px = width_px;
    state.prefs.widget_height_px = height_px;
}

/// Replaces the given colours and makes the colour scheme custom.
pub fn apply_widget_color_preset(
    state: &mut WidgetState,
    background: Option<Color>,
    font: Option<Color>,
    indicator: Option<Color>,
)
    ensures
        *final(state) == (WidgetState {
            prefs: with_colors(old(state).prefs, background, font, indicator),
            ..*old(state)
        }),
{
    state.prefs.color_scheme_mode = ColorSchemeMode::Custom;
    if let Some(color) = background {
        state.prefs.background_color = color;
    }
    if let Some(color) = font {
        state.prefs.font_color = color;
    }
    if let Some(color) = indicator {
        state.prefs.indicator_color = color;
    }
}

/// Chooses a colour scheme and recolours the widget from it.
pub fn apply_widget_color_scheme(state: &mut WidgetState, mode: ColorSchemeMode)
    ensures
        *final(state) == after_command(*old(state), MenuCommand::SetColorScheme(mode)),
{
    state.prefs.color_scheme_mode = mode;
    apply_color_scheme_to_state(state);
}

/// Sets the given frame sizes: the border held in 0..=6, margin and padding in 0..=16.
pub fn apply_widget_frame_preset(
    state: &mut WidgetState,
    border_px: Option<i32>,
    margin_px: Option<i32>,
    padding_px: Option<i32>,
)
    ensures
        *final(state) == (WidgetState {
            prefs: with_frame(old(state).prefs, border_px, margin_px, padding_px),
            ..*old(state)
        }),
{
    if let Some(value) = border_px {
        state.prefs.border_width_px = clamp_px(value, 0, MAX_BORDER_PRESET_PX);
    }
    if let Some(value) = margin_px {
        state.prefs.panel_margin_px = clamp_px(value, 0, MAX_SPACING_PRESET_PX);
    }
    if let Some(value) = padding_px {
        state.prefs.panel_padding_px = clamp_px(value, 0, MAX_SPACING_PRESET_PX);
    }
}

/// What the window has to do after a menu command.
#[derive(Clone, Copy, Debug, PartialEq, Eq, Structural)]
pub struct CommandEffects {
    /// Write the settings file.
    pub save_settings: bool,
    /// Move the widget to its place on the taskbar.
    pub reposition: bool,
    /// Draw the widget again.
    pub render: bool,
    /// Start a poll now.
    pub start_poll: bool,
    /// Restart the poll timer with this interval.
    pub poll_timer_ms: Option<u32>,
    /// Add or remove the start-up entry, the opposite of what it is now.
    pub toggle_startup: bool,
    /// Show (`true`) or hide (`false`) the widget window.
    pub show_widget: Option<bool>,
    /// Set the window title in the new language.
    pub update_title: bool,
    /// Remove the tray hook and leave the message loop.
    pub quit: bool,
}

pub open spec fn no_effects() -> CommandEffects {
    CommandEffects {
        save_settings: false,
        reposition: false,
        render: false,
        start_poll: false,
        poll_timer_ms: None,
        toggle_startup: false,
        show_widget: None,
        update_title: false,
        quit: false,
    }
}

/// What each command asks of the window; `visible_after` is whether the widget
/// is shown once the command has been applied.
pub open spec fn effects_of(cmd: MenuCommand, visible_after: bool) -> CommandEffects {
    let n = no_effects();
    match cmd {
        MenuCommand::Refresh => CommandEffects { render: true, start_poll: true, ..n },
        MenuCommand::Exit => CommandEffects { quit: true, ..n },
        MenuCommand::ResetPosition => CommandEffects { save_settings: true, reposition: true, ..n },
        MenuCommand::ToggleStartup => CommandEffects { toggle_startup: true, ..n },
        MenuCommand::SetPollInterval(v) => CommandEffects {
            save_settings: true,
            poll_timer_ms: Some(v),
            ..n
        },
        MenuCommand::SetLanguage(_) => CommandEffects {
            save_settings: true,
            render: true,
            update_title: true,
            ..n
        },
        MenuCommand::SetWidgetSize(_, _) | MenuCommand::SetBorder(_) | MenuCommand::SetPadding(_)
        | MenuCommand::SetMargin(_) => CommandEffects {
            save_settings: true,
            reposition: true,
            render: true,
            ..n
        },
        MenuCommand::SetBackground(_) | MenuCommand::SetFont(_) | MenuCommand::SetIndicator(_)
        | MenuCommand::SetColorScheme(_) => CommandEffects { save_settings: true, render: true, ..n },
        MenuCommand::ToggleWidget => CommandEffects {
            save_settings: true,
            reposition: visible_after,
            render: visible_after,
            show_widget: Some(visible_after),
            ..n
        },
        MenuCommand::Ignore => n,
    }
}

fn effects(cmd: MenuCommand, visible_after: bool) -> (e: CommandEffects)
    ensures
        e == effects_of(cmd, visible_after),
{
    let n = CommandEffects {
        save_settings: false,
        reposition: false,
        render: false,
        start_poll: false,
        poll_timer_ms: None,
        toggle_startup: false,
        show_widget: None,
        update_title: false,
        quit: false,
    };
    match cmd {
        MenuCommand::Refresh => CommandEffects { render: true, start_poll: true, ..n },
        MenuCommand::Exit => CommandEffects { quit: true, ..n },
        MenuCommand::ResetPosition => CommandEffects { save_settings: true, reposition: true, ..n },
        MenuCommand::ToggleStartup => CommandEffects { toggle_startup: true, ..n },
        MenuCommand::SetPollInterval(v) => CommandEffects {
            save_settings: true,
            poll_timer_ms: Some(v),
            ..n
        },
        MenuCommand::SetLanguage(_) => CommandEffects {
            save_settings: true,
            render: true,
            update_title: true,
            ..n
        },
        MenuCommand::SetWidgetSize(_, _) | MenuCommand::SetBorder(_) | MenuCommand::SetPadding(_)
        | MenuCommand::SetMargin(_) => CommandEffects {
            save_settings: true,
            reposition: true,
            render: true,
            ..n
        },
        MenuCommand::SetBackground(_) | MenuCommand::SetFont(_) | MenuCommand::SetIndicator(_)
        | MenuCommand::SetColorScheme(_) => CommandEffects { save_settings: true, render: true, ..n },
        MenuCommand::ToggleWidget => CommandEffects {
            save_settings: true,
            reposition: visible_after,
            render: visible_after,
            show_widget: Some(visible_after),
            ..n
        },
        MenuCommand::Ignore => n,
    }
}

/// Applies a menu command to the widget's state and says what the window has
/// to do next. `texts` are the usage texts formatted in the newly chosen
/// language; only a language change looks at them.
pub fn apply_menu_command(
    state: &mut WidgetState,
    cmd: MenuCommand,
    texts: Option<(String, String)>,
) -> (e: CommandEffects)
    ensures
        cmd == MenuCommand::Refresh ==> {
            &&& final(state).session_text@ == refreshing_text()
            &&& final(state).weekly_text@ == refreshing_text()
            &&& *final(state) == (WidgetState {
                session_text: final(state).session_text,
                weekly_text: final(state).weekly_text,
                ..*old(state)
            })
        },
        cmd matches MenuCommand::SetLanguage(l) ==> *final(state) == with_language(
            *old(state),
            l,
            texts,
        ),
        cmd != MenuCommand::Refresh && !(cmd is SetLanguage) ==> *final(state) == after_command(
            *old(state),
            cmd,
        ),
        final(state).prefs == after_command(*old(state), cmd).prefs,
        e == effects_of(cmd, final(state).prefs.widget_visible),
{
    match cmd {
        MenuCommand::Refresh => {
            mark_refreshing(state);
        },
        MenuCommand::ResetPosition => {
            state.prefs.tray_offset = 0;
        },
        MenuCommand::SetPollInterval(v) => {
            state.prefs.poll_interval_ms = v;
        },
        MenuCommand::SetLanguage(l) => {
            apply_language_to_state(state, l, texts);
        },
        MenuCommand::SetWidgetSize(w, h) => {
            apply_widget_size_preset(state, w, h);
        },
        MenuCommand::SetBackground(c) => {
            apply_widget_color_preset(state, Some(c), None, None);
        },
        MenuCommand::SetFont(c) => {
            apply_widget_color_preset(state, None, Some(c), None);
        },
        MenuCommand::SetIndicator(c) => {
            apply_widget_color_preset(state, None, None, Some(c));
        },
        MenuCommand::SetColorScheme(m) => {
            apply_widget_color_scheme(state, m);
        },
        MenuCommand::SetBorder(v) => {
            apply_widget_frame_preset(state, Some(v), None, None);
        },
        MenuCommand::SetPadding(v) => {
            apply_widget_frame_preset(state, None, None, Some(v));
        },
        MenuCommand::SetMargin(v) => {
            apply_widget_frame_preset(state, None, Some(v), None);
        },
        MenuCommand::ToggleWidget => {
            toggle_widget_visibility(state);
        },
        _ => {},
    }
    effects(cmd, state.prefs.widget_visible)
}

/// Whether the context menu shows the item with `id` checked.
pub fn menu_item_checked(id: u16, toggle_id: u16, prefs: &Preferences, startup_enabled: bool) -> (r:
    bool)
    ensures
        r == item_checked(id, toggle_id, *prefs, startup_enabled),
{
    match id {
        IDM_FREQ_1MIN => prefs.poll_interval_ms == POLL_1_MIN,
        IDM_FREQ_5MIN => prefs.poll_interval_ms == POLL_5_MIN,
        IDM_FREQ_15MIN => prefs.poll_interval_ms == POLL_15_MIN,
        IDM_FREQ_1HOUR => prefs.poll_interval_ms == POLL_1_HOUR,
        IDM_START_WITH_WINDOWS => startup_enabled,
        IDM_LANG_SYSTEM => prefs.language_override.is_none(),
        IDM_LANG_ENGLISH => prefs.language_override == Some(LanguageId::English),
        IDM_LANG_PORTUGUESE_BRAZIL => prefs.language_override == Some(LanguageId::PortugueseBrazil),
        IDM_SIZE_AUTO => prefs.widget_width_px == 0 && prefs.widget_height_px == 0,
        IDM_SIZE_COMPACT => prefs.widget_width_px == 320 && prefs.widget_height_px == 38,
        IDM_SIZE_DEFAULT => prefs.widget_width_px == 360 && prefs.widget_height_px == 44,
        IDM_SIZE_LARGE => prefs.widget_width_px == 400 && prefs.widget_height_px == 50,
        IDM_SIZE_XL => prefs.widget_width_px == 440 && prefs.widget_height_px == 56,
        IDM_BG_CHARCOAL => prefs.background_color == Color::new(0x16, 0x16, 0x16),
        IDM_BG_SLATE => prefs.background_color == Color::new(0x1E, 0x24, 0x2B),
        IDM_BG_BLACK => prefs.background_color == Color::new(0x0F, 0x0F, 0x0F),
        IDM_FONT_IVORY => prefs.font_color == Color::new(0xEA, 0xEA, 0xEA),
        IDM_FONT_SOFT => prefs.font_color == Color::new(0xC9, 0xD1, 0xD9),
        IDM_FONT_WHITE => prefs.font_color == Color::new(0xFF, 0xFF, 0xFF),
        IDM_IND_CORAL => prefs.indicator_color == Color::new(0xD9, 0x77, 0x57),
        IDM_IND_MINT => prefs.indicator_color == Color::new(0x5A, 0xC7, 0x9B),
        IDM_IND_BLUE => prefs.indicator_color == Color::new(0x5B, 0x8D, 0xEF),
        IDM_BORDER_NONE => prefs.border_width_px == 0,
        IDM_BORDER_THIN => prefs.border_width_px == 1,
        IDM_BORDER_MEDIUM => prefs.border_width_px == 2,
        IDM_BORDER_THICK => prefs.border_width_px == 3,
        IDM_PADDING_0 => prefs.panel_padding_px == 0,
        IDM_PADDING_4 => prefs.panel_padding_px == 4,
        IDM_PADDING_8 => prefs.panel_padding_px == 8,
        IDM_MARGIN_0 => prefs.panel_margin_px == 0,
        IDM_MARGIN_2 => prefs.panel_margin_px == 2,
        IDM_MARGIN_4 => prefs.panel_margin_px == 4,
        IDM_SCHEME_AUTO => prefs.color_scheme_mode == ColorSchemeMode::Auto,
        IDM_SCHEME_LIGHT => prefs.color_scheme_mode == ColorSchemeMode::Light,
        IDM_SCHEME_DARK => prefs.color_scheme_mode == ColorSchemeMode::Dark,
        _ => id == toggle_id && prefs.widget_visible,
    }
}

/// Choosing an item that picks a setting makes that item the checked one.
pub proof fn lemma_chosen_item_is_checked(id: u16, toggle_id: u16, s: WidgetState, startup_enabled: bool)
    requires
        is_choice_id(id),
    ensures
        item_checked(id, toggle_id, after_command(s, command_for(id, toggle_id)).prefs, startup_enabled),
{
}

/// Showing or hiding the widget twice leaves the state as it was.
pub proof fn lemma_toggle_twice(s: WidgetState)
    ensures
        after_command(after_command(s, MenuCommand::ToggleWidget), MenuCommand::ToggleWidget) == s,
{
}

/// Menu commands keep the language in use tied to the language override.
pub proof fn lemma_commands_keep_language_resolved(s: WidgetState, cmd: MenuCommand)
    requires
        s.wf(),
    ensures
        after_command(s, cmd).wf(),
{
}

/// The menu an item belongs to, or that a submenu entry opens.
pub const MENU_MAIN: u8 = 0;
pub const MENU_FREQUENCY: u8 = 1;
pub const MENU_SETTINGS: u8 = 2;
pub const MENU_LANGUAGE: u8 = 3;
pub const MENU_CUSTOMIZE: u8 = 4;
pub const MENU_SIZE: u8 = 5;
pub const MENU_COLORS: u8 = 6;
pub const MENU_BORDER: u8 = 7;
pub const MENU_SPACING: u8 = 8;
pub const MENU_SCHEME: u8 = 9;

/// What a context-menu entry is.
#[derive(Clone, Copy, Debug, PartialEq, Eq)]
pub enum MenuItemKind {
    /// An item that sends the command id.
    Command(u16),
    /// An entry that opens the given submenu.
    Submenu(u8),
    Separator,
}

/// One entry of the context menu, appended to `menu`.
#[derive(Clone, Copy, Debug, PartialEq, Eq)]
pub struct MenuItem {
    pub menu: u8,
    pub kind: MenuItemKind,
    pub label: &'static str,
    pub checked: bool,
}

pub open spec fn command_item(menu: u8, id: u16, label: &'static str, checked: bool) -> MenuItem {
    MenuItem { menu, kind: MenuItemKind::Command(id), label, checked }
}

pub open spec fn submenu_item(menu: u8, opens: u8, label: &'static str) -> MenuItem {
    MenuItem { menu, kind: MenuItemKind::Submenu(opens), label, checked: false }
}

pub open spec fn choice_item(
    menu: u8,
    id: u16,
    label: &'static str,
    p: Preferences,
    toggle_id: u16,
) -> MenuItem {
    command_item(menu, id, label, item_checked(id, toggle_id, p, false))
}

fn choice(menu: u8, id: u16, label: &'static str, p: &Preferences, toggle_id: u16) -> (m: MenuItem)
    ensures
        m == choice_item(menu, id, label, *p, toggle_id),
{
    MenuItem { menu, kind: MenuItemKind::Command(id), label, checked: menu_item_checked(id, toggle_id, p, false) }
}

pub open spec fn frequency_items_of(p: Preferences, strings: Strings, toggle_id: u16) -> Seq<MenuItem> {
    seq![
        choice_item(MENU_FREQUENCY, IDM_FREQ_1MIN, strings.one_minute, p, toggle_id),
        choice_item(MENU_FREQUENCY, IDM_FREQ_5MIN, strings.five_minutes, p, toggle_id),
        choice_item(MENU_FREQUENCY, IDM_FREQ_15MIN, strings.fifteen_minutes, p, toggle_id),
        choice_item(MENU_FREQUENCY, IDM_FREQ_1HOUR, strings.one_hour, p, toggle_id)
    ]
}

fn frequency_items(p: &Preferences, strings: Strings, toggle_id: u16) -> (v: Vec<MenuItem>)
    ensures
        v@ == frequency_items_of(*p, strings, toggle_id),
{
    vec![
        choice(MENU_FREQUENCY, IDM_FREQ_1MIN, strings.one_minute, p, toggle_id),
        choice(MENU_FREQUENCY, IDM_FREQ_5MIN, strings.five_minutes, p, toggle_id),
        choice(MENU_FREQUENCY, IDM_FREQ_15MIN, strings.fifteen_minutes, p, toggle_id),
        choice(MENU_FREQUENCY, IDM_FREQ_1HOUR, strings.one_hour, p, toggle_id)
    ]
}

pub open spec fn size_items_of(p: Preferences, toggle_id: u16) -> Seq<MenuItem> {
    seq![
        choice_item(MENU_SIZE, IDM_SIZE_AUTO, "Tamanho: Automatico", p, toggle_id),
        choice_item(MENU_SIZE, IDM_SIZE_COMPACT, "Tamanho: 320x38", p, toggle_id),
        choice_item(MENU_SIZE, IDM_SIZE_DEFAULT, "Tamanho: 360x44", p, toggle_id),
        choice_item(MENU_SIZE, IDM_SIZE_LARGE, "Tamanho: 400x50", p, toggle_id),
        choice_item(MENU_SIZE, IDM_SIZE_XL, "Tamanho: 440x56", p, toggle_id)
    ]
}

fn size_items(p: &Preferences, toggle_id: u16) -> (v: Vec<MenuItem>)
    ensures
        v@ == size_items_of(*p, toggle_id),
{
    vec![
        choice(MENU_SIZE, IDM_SIZE_AUTO, "Tamanho: Automatico", p, toggle_id),
        choice(MENU_SIZE, IDM_SIZE_COMPACT, "Tamanho: 320x38", p, toggle_id),
        choice(MENU_SIZE, IDM_SIZE_DEFAULT, "Tamanho: 360x44", p, toggle_id),
        choice(MENU_SIZE, IDM_SIZE_LARGE, "Tamanho: 400x50", p, toggle_id),
        choice(MENU_SIZE, IDM_SIZE_XL, "Tamanho: 440x56", p, toggle_id)
    ]
}

pub open spec fn color_items_of(p: Preferences, toggle_id: u16) -> Seq<MenuItem> {
    seq![
        choice_item(MENU_COLORS, IDM_BG_CHARCOAL, "Fundo: Carvao", p, toggle_id),
        choice_item(MENU_COLORS, IDM_BG_SLATE, "Fundo: Ardósia", p, toggle_id),
        choice_item(MENU_COLORS, IDM_BG_BLACK, "Fundo: Preto", p, toggle_id),
        choice_item(MENU_COLORS, IDM_FONT_IVORY, "Fonte: Marfim", p, toggle_id),
        choice_item(MENU_COLORS, IDM_FONT_SOFT, "Fonte: Suave", p, toggle_id),
        choice_item(MENU_COLORS, IDM_FONT_WHITE, "Fonte: Branca", p, toggle_id),
        choice_item(MENU_COLORS, IDM_IND_CORAL, "Indicadores: Coral", p, toggle_id),
        choice_item(MENU_COLORS, IDM_IND_MINT, "Indicadores: Menta", p, toggle_id),
        choice_item(MENU_COLORS, IDM_IND_BLUE, "Indicadores: Azul", p, toggle_id)
    ]
}

fn color_items(p: &Preferences, toggle_id: u16) -> (v: Vec<MenuItem>)
    ensures
        v@ == color_items_of(*p, toggle_id),
{
    vec![
        choice(MENU_COLORS, IDM_BG_CHARCOAL, "Fundo: Carvao", p, toggle_id),
        choice(MENU_COLORS, IDM_BG_SLATE, "Fundo: Ardósia", p, toggle_id),
        choice(MENU_COLORS, IDM_BG_BLACK, "Fundo: Preto", p, toggle_id),
        choice(MENU_COLORS, IDM_FONT_IVORY, "Fonte: Marfim", p, toggle_id),
        choice(MENU_COLORS, IDM_FONT_SOFT, "Fonte: Suave", p, toggle_id),
        choice(MENU_COLORS, IDM_FONT_WHITE, "Fonte: Branca", p, toggle_id),
        choice(MENU_COLORS, IDM_IND_CORAL, "Indicadores: Coral", p, toggle_id),
        choice(MENU_COLORS, IDM_IND_MINT, "Indicadores: Menta", p, toggle_id),
        choice(MENU_COLORS, IDM_IND_BLUE, "Indicadores: Azul", p, toggle_id)
    ]
}

pub open spec fn border_items_of(p: Preferences, toggle_id: u16) -> Seq<MenuItem> {
    seq![
        choice_item(MENU_BORDER, IDM_BORDER_NONE, "Borda: 0px", p, toggle_id),
        choice_item(MENU_BORDER, IDM_BORDER_THIN, "Borda: 1px", p, toggle_id),
        choice_item(MENU_BORDER, IDM_BORDER_MEDIUM, "Borda: 2px", p, toggle_id),
        choice_item(MENU_BORDER, IDM_BORDER_THICK, "Borda: 3px", p, toggle_id)
    ]
}

fn border_items(p: &Preferences, toggle_id: u16) -> (v: Vec<MenuItem>)
    ensures
        v@ == border_items_of(*p, toggle_id),
{
    vec![
        choice(MENU_BORDER, IDM_BORDER_NONE, "Borda: 0px", p, toggle_id),
        choice(MENU_BORDER, IDM_BORDER_THIN, "Borda: 1px", p, toggle_id),
        choice(MENU_BORDER, IDM_BORDER_MEDIUM, "Borda: 2px", p, toggle_id),
        choice(MENU_BORDER, IDM_BORDER_THICK, "Borda: 3px", p, toggle_id)
    ]
}

pub open spec fn spacing_items_of(p: Preferences, toggle_id: u16) -> Seq<MenuItem> {
    seq![
        choice_item(MENU_SPACING, IDM_PADDING_0, "Preenchimento: 0px", p, toggle_id),
        choice_item(MENU_SPACING, IDM_PADDING_4, "Preenchimento: 4px", p, toggle_id),
        choice_item(MENU_SPACING, IDM_PADDING_8, "Preenchimento: 8px", p, toggle_id),
        choice_item(MENU_SPACING, IDM_MARGIN_0, "Margem: 0px", p, toggle_id),
        choice_item(MENU_SPACING, IDM_MARGIN_2, "Margem: 2px", p, toggle_id),
        choice_item(MENU_SPACING, IDM_MARGIN_4, "Margem: 4px", p, toggle_id)
    ]
}

fn spacing_items(p: &Preferences, toggle_id: u16) -> (v: Vec<MenuItem>)
    ensures
        v@ == spacing_items_of(*p, toggle_id),
{
    vec![
        choice(MENU_SPACING, IDM_PADDING_0, "Preenchimento: 0px", p, toggle_id),
        choice(MENU_SPACING, IDM_PADDING_4, "Preenchimento: 4px", p, toggle_id),
        choice(MENU_SPACING, IDM_PADDING_8, "Preenchimento: 8px", p, toggle_id),
        choice(MENU_SPACING, IDM_MARGIN_0, "Margem: 0px", p, toggle_id),
        choice(MENU_SPACING, IDM_MARGIN_2, "Margem: 2px", p, toggle_id),
        choice(MENU_SPACING, IDM_MARGIN_4, "Margem: 4px", p, toggle_id)
    ]
}

pub open spec fn scheme_items_of(p: Preferences, toggle_id: u16) -> Seq<MenuItem> {
    seq![
        choice_item(MENU_SCHEME, IDM_SCHEME_AUTO, "Tema: Automatico", p, toggle_id),
        choice_item(MENU_SCHEME, IDM_SCHEME_LIGHT, "Tema: Claro", p, toggle_id),
        choice_item(MENU_SCHEME, IDM_SCHEME_DARK, "Tema: Escuro", p, toggle_id)
    ]
}

fn scheme_items(p: &Preferences, toggle_id: u16) -> (v: Vec<MenuItem>)
    ensures
        v@ == scheme_items_of(*p, toggle_id),
{
    vec![
        choice(MENU_SCHEME, IDM_SCHEME_AUTO, "Tema: Automatico", p, toggle_id),
        choice(MENU_SCHEME, IDM_SCHEME_LIGHT, "Tema: Claro", p, toggle_id),
        choice(MENU_SCHEME, IDM_SCHEME_DARK, "Tema: Escuro", p, toggle_id)
    ]
}

/// The settings submenu's first two items: the start-up entry and the reset.
pub open spec fn settings_head_of(strings: Strings, startup_enabled: bool) -> Seq<MenuItem> {
    seq![
        command_item(MENU_SETTINGS, IDM_START_WITH_WINDOWS, strings.start_with_windows, startup_enabled),
        command_item(MENU_SETTINGS, IDM_RESET_POSITION, strings.reset_position, false),
    ]
}

/// The language submenu: the system default, then each language by its own name.
pub open spec fn language_items_of(p: Preferences, strings: Strings) -> Seq<MenuItem> {
    seq![
        command_item(MENU_LANGUAGE, IDM_LANG_SYSTEM, strings.system_default, p.language_override is None),
        command_item(
            MENU_LANGUAGE,
            IDM_LANG_ENGLISH,
            native_name_of(LanguageId::English),
            p.language_override == Some(LanguageId::English),
        ),
        command_item(
            MENU_LANGUAGE,
            IDM_LANG_PORTUGUESE_BRAZIL,
            native_name_of(LanguageId::PortugueseBrazil),
            p.language_override == Some(LanguageId::PortugueseBrazil),
        ),
    ]
}

/// The main menu's closing entries: the settings submenu, the widget toggle,
/// a separator and exit.
pub open spec fn menu_tail_of(p: Preferences, strings: Strings, toggle_id: u16) -> Seq<MenuItem> {
    seq![
        submenu_item(MENU_SETTINGS, MENU_CUSTOMIZE, "Personalizacao"),
        submenu_item(MENU_MAIN, MENU_SETTINGS, strings.settings),
        command_item(MENU_MAIN, toggle_id, strings.show_widget, p.widget_visible),
        MenuItem { menu: MENU_MAIN, kind: MenuItemKind::Separator, label: "", checked: false },
        command_item(MENU_MAIN, IDM_EXIT, strings.exit, false),
    ]
}

/// Every context-menu entry in the order it is appended; a submenu's entries
/// come before the entry that opens it.
pub open spec fn menu_items_of(
    p: Preferences,
    strings: Strings,
    startup_enabled: bool,
    toggle_id: u16,
) -> Seq<MenuItem> {
    seq![command_item(MENU_MAIN, IDM_REFRESH, strings.refresh, false)]
        + frequency_items_of(p, strings, toggle_id)
        + seq![submenu_item(MENU_MAIN, MENU_FREQUENCY, strings.update_frequency)]
        + settings_head_of(strings, startup_enabled)
        + language_items_of(p, strings)
        + seq![submenu_item(MENU_SETTINGS, MENU_LANGUAGE, strings.language)]
        + size_items_of(p, toggle_id)
        + seq![submenu_item(MENU_CUSTOMIZE, MENU_SIZE, "Tamanho (px)")]
        + color_items_of(p, toggle_id)
        + seq![submenu_item(MENU_CUSTOMIZE, MENU_COLORS, "Cores")]
        + border_items_of(p, toggle_id)
        + seq![submenu_item(MENU_CUSTOMIZE, MENU_BORDER, "Borda")]
        + spacing_items_of(p, toggle_id)
        + seq![submenu_item(MENU_CUSTOMIZE, MENU_SPACING, "Espacamento")]
        + scheme_items_of(p, toggle_id)
        + seq![submenu_item(MENU_CUSTOMIZE, MENU_SCHEME, "Tema de Cores")]
        + menu_tail_of(p, strings, toggle_id)
}

fn push_submenu(v: &mut Vec<MenuItem>, menu: u8, opens: u8, label: &'static str)
    ensures
        final(v)@ == old(v)@.push(submenu_item(menu, opens, label)),
{
    v.push(MenuItem { menu, kind: MenuItemKind::Submenu(opens), label, checked: false });
}

/// The context menu's entries for the given preferences and language.
pub fn context_menu_items(
    prefs: &Preferences,
    strings: Strings,
    startup_enabled: bool,
    toggle_id: u16,
) -> (items: Vec<MenuItem>)
    ensures
        items@ == menu_items_of(*prefs, strings, startup_enabled, toggle_id),
{
    let mut v: Vec<MenuItem> = vec![
        MenuItem {
            menu: MENU_MAIN,
            kind: MenuItemKind::Command(IDM_REFRESH),
            label: strings.refresh,
            checked: false,
        },
    ];
    let mut g = frequency_items(prefs, strings, toggle_id);
    v.append(&mut g);
    push_submenu(&mut v, MENU_MAIN, MENU_FREQUENCY, strings.update_frequency);
    let mut g = vec![
        MenuItem {
            menu: MENU_SETTINGS,
            kind: MenuItemKind::Command(IDM_START_WITH_WINDOWS),
            label: strings.start_with_windows,
            checked: startup_enabled,
        },
        MenuItem {
            menu: MENU_SETTINGS,
            kind: MenuItemKind::Command(IDM_RESET_POSITION),
            label: strings.reset_position,
            checked: false,
        },
    ];
    v.append(&mut g);
    let mut g = vec![
        MenuItem {
            menu: MENU_LANGUAGE,
            kind: MenuItemKind::Command(IDM_LANG_SYSTEM),
            label: strings.system_default,
            checked: prefs.language_override.is_none(),
        },
        MenuItem {
            menu: MENU_LANGUAGE,
            kind: MenuItemKind::Command(IDM_LANG_ENGLISH),
            label: LanguageId::English.native_name(),
            checked: prefs.language_override == Some(LanguageId::English),
        },
        MenuItem {
            menu: MENU_LANGUAGE,
            kind: MenuItemKind::Command(IDM_LANG_PORTUGUESE_BRAZIL),
            label: LanguageId::PortugueseBrazil.native_name(),
            checked: prefs.language_override == Some(LanguageId::PortugueseBrazil),
        },
    ];
    v.append(&mut g);
    push_submenu(&mut v, MENU_SETTINGS, MENU_LANGUAGE, strings.language);
    let mut g = size_items(prefs, toggle_id);
    v.append(&mut g);
    push_submenu(&mut v, MENU_CUSTOMIZE, MENU_SIZE, "Tamanho (px)");
    let mut g = color_items(prefs, toggle_id);
    v.append(&mut g);
    push_submenu(&mut v, MENU_CUSTOMIZE, MENU_COLORS, "Cores");
    let mut g = border_items(prefs, toggle_id);
    v.append(&mut g);
    push_submenu(&mut v, MENU_CUSTOMIZE, MENU_BORDER, "Borda");
    let mut g = spacing_items(prefs, toggle_id);
    v.append(&mut g);
    push_submenu(&mut v, MENU_CUSTOMIZE, MENU_SPACING, "Espacamento");
    let mut g = scheme_items(prefs, toggle_id);
    v.append(&mut g);
    push_submenu(&mut v, MENU_CUSTOMIZE, MENU_SCHEME, "Tema de Cores");
    let mut g = vec![
        MenuItem {
            menu: MENU_SETTINGS,
            kind: MenuItemKind::Submenu(MENU_CUSTOMIZE),
            label: "Personalizacao",
            checked: false,
        },
        MenuItem {
            menu: MENU_MAIN,
            kind: MenuItemKind::Submenu(MENU_SETTINGS),
            label: strings.settings,
            checked: false,
        },
        MenuItem {
            menu: MENU_MAIN,
            kind: MenuItemKind::Command(toggle_id),
            label: strings.show_widget,
            checked: prefs.widget_visible,
        },
        MenuItem { menu: MENU_MAIN, kind: MenuItemKind::Separator, label: "", checked: false },
        MenuItem {
            menu: MENU_MAIN,
            kind: MenuItemKind::Command(IDM_EXIT),
            label: strings.exit,
            checked: false,
        },
    ];
    v.append(&mut g);
    v
}

/// The preferences the menu shows while the widget has no state yet.
pub open spec fn fallback_prefs() -> Preferences {
    Preferences {
        tray_offset: 0,
        poll_interval_ms: POLL_15_MIN,
        language_override: None,
        widget_visible: true,
        widget_width_px: 0,
        widget_height_px: 0,
        background_color: rgb(0x16, 0x16, 0x16),
        font_color: rgb(0xEA, 0xEA, 0xEA),
        indicator_color: rgb(0xD9, 0x77, 0x57),
        color_scheme_mode: ColorSchemeMode::Auto,
        border_width_px: 1,
        panel_margin_px: 1,
        panel_padding_px: 0,
    }
}

/// The preferences the menu shows while the widget has no state yet, shown
/// with the Brazilian Portuguese texts.
pub fn fallback_preferences() -> (p: Preferences)
    ensures
        p == fallback_prefs(),
{
    Preferences {
        tray_offset: 0,
        poll_interval_ms: POLL_15_MIN,
        language_override: None,
        widget_visible: true,
        widget_width_px: 0,
        widget_height_px: 0,
        background_color: Color::new(0x16, 0x16, 0x16),
        font_color: Color::new(0xEA, 0xEA, 0xEA),
        indicator_color: Color::new(0xD9, 0x77, 0x57),
        color_scheme_mode: ColorSchemeMode::Auto,
        border_width_px: 1,
        panel_margin_px: 1,
        panel_padding_px: 0,
    }
}

/// Each update-frequency item sets the interval it names: one minute, five
/// minutes, fifteen minutes and one hour (in milliseconds); no two items set
/// the same interval.
pub proof fn lemma_frequency_items(toggle_id: u16)
    ensures
        command_for(10, toggle_id) == MenuCommand::SetPollInterval(60_000),
        command_for(11, toggle_id) == MenuCommand::SetPollInterval(300_000),
        command_for(12, toggle_id) == MenuCommand::SetPollInterval(900_000),
        command_for(13, toggle_id) == MenuCommand::SetPollInterval(3_600_000),
        forall|i: u16, j: u16|
            10 <= i <= 13 && 10 <= j <= 13 && i != j ==> command_for(i, toggle_id) != command_for(
                j,
                toggle_id,
            ),
{
}

/// Each size item sets the size its label names (0 by 0 for automatic).
pub proof fn lemma_size_items(toggle_id: u16)
    ensures
        command_for(200, toggle_id) == MenuCommand::SetWidgetSize(0, 0),
        command_for(201, toggle_id) == MenuCommand::SetWidgetSize(320, 38),
        command_for(202, toggle_id) == MenuCommand::SetWidgetSize(360, 44),
        command_for(203, toggle_id) == MenuCommand::SetWidgetSize(400, 50),
        command_for(204, toggle_id) == MenuCommand::SetWidgetSize(440, 56),
{
}

/// Each frame item sets the pixels its label names.
pub proof fn lemma_frame_items(toggle_id: u16)
    ensures
        command_for(240, toggle_id) == MenuCommand::SetBorder(0),
        command_for(241, toggle_id) == MenuCommand::SetBorder(1),
        command_for(242, toggle_id) == MenuCommand::SetBorder(2),
        command_for(243, toggle_id) == MenuCommand::SetBorder(3),
        command_for(250, toggle_id) == MenuCommand::SetPadding(0),
        command_for(251, toggle_id) == MenuCommand::SetPadding(4),
        command_for(252, toggle_id) == MenuCommand::SetPadding(8),
        command_for(260, toggle_id) == MenuCommand::SetMargin(0),
        command_for(261, toggle_id) == MenuCommand::SetMargin(2),
        command_for(262, toggle_id) == MenuCommand::SetMargin(4),
{
}

/// The language items pick no override, English and Brazilian Portuguese, and
/// the scheme items pick the automatic, light and dark schemes.
pub proof fn lemma_language_and_scheme_items(toggle_id: u16)
    ensures
        command_for(40, toggle_id) == MenuCommand::SetLanguage(None),
        command_for(41, toggle_id) == MenuCommand::SetLanguage(Some(LanguageId::English)),
        command_for(47, toggle_id) == MenuCommand::SetLanguage(Some(LanguageId::PortugueseBrazil)),
        command_for(270, toggle_id) == MenuCommand::SetColorScheme(ColorSchemeMode::Auto),
        command_for(271, toggle_id) == MenuCommand::SetColorScheme(ColorSchemeMode::Light),
        command_for(272, toggle_id) == MenuCommand::SetColorScheme(ColorSchemeMode::Dark),
{
}

/// Choosing a frequency stores that interval and restarts the poll timer with it.
pub proof fn lemma_frequency_restarts_timer(s: WidgetState, v: u32)
    ensures
        after_command(s, MenuCommand::SetPollInterval(v)).prefs.poll_interval_ms == v,
        effects_of(MenuCommand::SetPollInterval(v), s.prefs.widget_visible).poll_timer_ms == Some(v),
        effects_of(MenuCommand::SetPollInterval(v), s.prefs.widget_visible).save_settings,
{
}

} // verus!
