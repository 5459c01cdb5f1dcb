use vstd::prelude::*;

use crate::appearance::Color;

verus! {

/// How the widget's colours are chosen.
#[derive(Debug, Clone, Copy, PartialEq, Eq, Structural)]
pub enum ColorSchemeMode {
    /// Follow the system's light or dark theme.
    Auto,
    Light,
    Dark,
    /// Colours picked one by one by the user.
    Custom,
}

/// The colour scheme modes a settings file can name.
#[derive(Debug, Clone, Copy, PartialEq, Eq, Structural)]
pub enum SettingsColorSchemeMode {
    Auto,
    Light,
    Dark,
}

pub open spec fn mode_from_settings(value: SettingsColorSchemeMode) -> ColorSchemeMode {
    match value {
        SettingsColorSchemeMode::Auto => ColorSchemeMode::Auto,
        SettingsColorSchemeMode::Light => ColorSchemeMode::Light,
        SettingsColorSchemeMode::Dark => ColorSchemeMode::Dark,
    }
}

pub open spec fn mode_to_settings(mode: ColorSchemeMode) -> Option<SettingsColorSchemeMode> {
    match mode {
        ColorSchemeMode::Auto => Some(SettingsColorSchemeMode::Auto),
        ColorSchemeMode::Light => Some(SettingsColorSchemeMode::Light),
        ColorSchemeMode::Dark => Some(SettingsColorSchemeMode::Dark),
        ColorSchemeMode::Custom => None,
    }
}

/// Whether a mode uses the dark palette: the system's theme for automatic and
/// custom modes, else the mode's own choice.
pub open spec fn uses_dark_palette(mode: ColorSchemeMode, is_dark_system: bool) -> bool {
    match mode {
        ColorSchemeMode::Auto => is_dark_system,
        ColorSchemeMode::Light => false,
        ColorSchemeMode::Dark => true,
        ColorSchemeMode::Custom => is_dark_system,
    }
}

pub open spec fn dark_palette() -> (Color, Color, Color) {
    (
        Color { r: 0x16, g: 0x16, b: 0x16 },
        Color { r: 0xEA, g: 0xEA, b: 0xEA },
        Color { r: 0xD9, g: 0x77, b: 0x57 },
    )
}

pub open spec fn light_palette() -> (Color, Color, Color) {
    (
        Color { r: 0xF4, g: 0xF6, b: 0xF8 },
        Color { r: 0x1F, g: 0x29, b: 0x33 },
        Color { r: 0x0A, g: 0x84, b: 0xFF },
    )
}

/// Background, text and indicator colours of a mode on a system theme.
pub open spec fn palette_of(mode: ColorSchemeMode, is_dark_system: bool) -> (Color, Color, Color) {
    if uses_dark_palette(mode, is_dark_system) {
        dark_palette()
    } else {
        light_palette()
    }
}

impl From<SettingsColorSchemeMode> for ColorSchemeMode {
    fn from(value: SettingsColorSchemeMode) -> (r: Self) {
        match value {
            SettingsColorSchemeMode::Auto => ColorSchemeMode::Auto,
            SettingsColorSchemeMode::Light => ColorSchemeMode::Light,
            SettingsColorSchemeMode::Dark => ColorSchemeMode::Dark,
        }
    }
}

impl vstd::std_specs::convert::FromSpecImpl<SettingsColorSchemeMode> for ColorSchemeMode {
    open spec fn obeys_from_spec() -> bool {
        true
    }

    open spec fn from_spec(value: SettingsColorSchemeMode) -> Self {
        mode_from_settings(value)
    }
}

impl ColorSchemeMode {
    /// The mode as a settings file names it; custom colours have no name.
    pub fn to_settings(self) -> (r: Option<SettingsColorSchemeMode>)
        ensures
            r == mode_to_settings(self),
    {
        match self {
            ColorSchemeMode::Auto => Some(SettingsColorSchemeMode::Auto),
            ColorSchemeMode::Light => Some(SettingsColorSchemeMode::Light),
            ColorSchemeMode::Dark => Some(SettingsColorSchemeMode::Dark),
            ColorSchemeMode::Custom => None,
        }
    }
}

/// Background, text and indicator colours of a mode on a system theme.
pub fn color_palette_for_mode(mode: ColorSchemeMode, is_dark_system: bool) -> (r: (Color, Color, Color))
    ensures
        r == palette_of(mode, is_dark_system),
{
    let use_dark_palette = match mode {
        ColorSchemeMode::Auto => is_dark_system,
        ColorSchemeMode::Light => false,
        ColorSchemeMode::Dark => true,
        ColorSchemeMode::Custom => is_dark_system,
    };
    if use_dark_palette {
        (Color::new(0x16, 0x16, 0x16), Color::new(0xEA, 0xEA, 0xEA), Color::new(0xD9, 0x77, 0x57))
    } else {
        (Color::new(0xF4, 0xF6, 0xF8), Color::new(0x1F, 0x29, 0x33), Color::new(0x0A, 0x84, 0xFF))
    }
}

/// A named mode read back from its settings name is the same mode.
pub proof fn lemma_mode_settings_round_trip(mode: ColorSchemeMode)
    requires
        mode != ColorSchemeMode::Custom,
    ensures
        mode_to_settings(mode) matches Some(v) && mode_from_settings(v) == mode,
{
}

} // verus!
