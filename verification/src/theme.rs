use vstd::prelude::*;

verus! {

/// Bytes in the accent palette: eight 4-byte shades from lightest to darkest.
pub const ACCENT_PALETTE_LEN: usize = 32;
/// Offset of the second light shade, used over dark backgrounds.
pub const ACCENT_LIGHT2_OFFSET: usize = 4;
/// Offset of the first dark shade, used over light backgrounds.
pub const ACCENT_DARK1_OFFSET: usize = 16;

/// The accent shade for the system theme: a light shade over a dark theme, a
/// dark one over a light theme; Windows 11's default lilac without a palette.
pub open spec fn accent_of(is_dark: bool, palette: Option<[u8; 32]>) -> (u8, u8, u8) {
    let offset: int = if is_dark {
        ACCENT_LIGHT2_OFFSET as int
    } else {
        ACCENT_DARK1_OFFSET as int
    };
    match palette {
        Some(p) => (p@[offset], p@[offset + 1], p@[offset + 2]),
        None => (0xDB, 0x9E, 0xE5),
    }
}

/// The accent colour Windows applies to highlighted elements.
pub fn accent_color(is_dark: bool, palette: Option<[u8; 32]>) -> (r: (u8, u8, u8))
    ensures
        r == accent_of(is_dark, palette),
{
    let offset: usize = if is_dark {
        ACCENT_LIGHT2_OFFSET
    } else {
        ACCENT_DARK1_OFFSET
    };
    match palette {
        Some(p) => (p[offset], p[offset + 1], p[offset + 2]),
        None => (0xDB, 0x9E, 0xE5),
    }
}

/// The palette read from the registry, kept only when the read succeeded and
/// filled the whole palette.
pub fn accent_palette_from_query(query_ok: bool, data_size: u32, data: [u8; 32]) -> (r: Option<
    [u8; 32],
>)
    ensures
        r == (if query_ok && data_size == ACCENT_PALETTE_LEN {
            Some(data)
        } else {
            None
        }),
{
    if query_ok && data_size as usize == ACCENT_PALETTE_LEN {
        Some(data)
    } else {
        None
    }
}

/// Whether the system uses a dark theme, from the `SystemUsesLightTheme`
/// registry value (`None` when it could not be read): dark unless it is 1.
pub fn is_dark_mode(light_theme_value: Option<u32>) -> (r: bool)
    ensures
        r == !(light_theme_value == Some(1u32)),
{
    match light_theme_value {
        Some(v) => v != 1,
        None => true,
    }
}

} // verus!
