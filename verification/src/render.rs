use vstd::prelude::*;

use crate::appearance::{Color, shaded, shade_color};
use crate::layout::{
    Rect, fits_i32, scaled, scale_px, LEFT_DIVIDER_W, DIVIDER_RIGHT_MARGIN, SEGMENT_H, SEGMENT_W,
    SEGMENT_GAP, SEGMENT_COUNT, LABEL_WIDTH, LABEL_RIGHT_MARGIN, BAR_RIGHT_MARGIN, TEXT_WIDTH,
    CORNER_RADIUS,
};

verus! {

/// Alpha-and-colour word of a background pixel: nearly invisible, still hit by clicks.
pub const BACKGROUND_PIXEL: u32 = 0x0100_0000;
/// Alpha byte of a content pixel: fully opaque.
pub const OPAQUE_ALPHA: u32 = 0xFF00_0000;
/// Largest border the panel draws.
pub const MAX_BORDER_PX: i32 = 6;
/// How much darker the empty part of a bar is than the indicator colour.
pub const TRACK_SHADE: i16 = -88;
/// How much lighter the panel's border is than its background.
pub const BORDER_SHADE: i16 = 20;
/// Panel corner radius at 96 DPI.
pub const PANEL_RADIUS: i32 = 10;
/// Gap between the two rows at 96 DPI.
pub const ROW_GAP: i32 = 8;
/// Font height at 96 DPI (negative: character height).
pub const FONT_HEIGHT: i32 = -11;

/// A rendered pixel made ready for the layered window: background pixels
/// become nearly transparent, all others fully opaque.
pub open spec fn layered_pixel(px: u32, background: u32) -> u32 {
    if px & 0xFF_FFFF == background {
        BACKGROUND_PIXEL
    } else {
        (px & 0xFF_FFFF) | OPAQUE_ALPHA
    }
}

/// The taskbar colour the widget is drawn over.
pub open spec fn taskbar_background(is_dark: bool) -> Color {
    if is_dark {
        Color { r: 0x1C, g: 0x1C, b: 0x1C }
    } else {
        Color { r: 0xF3, g: 0xF3, b: 0xF3 }
    }
}

/// Marks each pixel of a rendered frame as background or content.
pub fn apply_layered_alpha(pixels: &mut [u32], background: u32)
    ensures
        final(pixels)@.len() == old(pixels)@.len(),
        forall|i: int|
            0 <= i < old(pixels)@.len() ==> #[trigger] final(pixels)@[i] == layered_pixel(
                old(pixels)@[i],
                background,
            ),
{
    let n = pixels.len();
    let mut i: usize = 0;
    while i < n
        invariant
            n == pixels@.len(),
            n == old(pixels)@.len(),
            i <= n,
            forall|j: int| 0 <= j < i ==> #[trigger] pixels@[j] == layered_pixel(old(pixels)@[j], background),
            forall|j: int| i <= j < n ==> #[trigger] pixels@[j] == old(pixels)@[j],
        decreases n - i,
    {
        let rgb = pixels[i] & 0xFF_FFFF;
        if rgb == background {
            pixels[i] = BACKGROUND_PIXEL;
        } else {
            pixels[i] = rgb | OPAQUE_ALPHA;
        }
        i = i + 1;
    }
}

/// The taskbar colour the widget is drawn over.
pub fn taskbar_background_color(is_dark: bool) -> (c: Color)
    ensures
        c == taskbar_background(is_dark),
{
    if is_dark {
        Color::new(0x1C, 0x1C, 0x1C)
    } else {
        Color::new(0xF3, 0xF3, 0xF3)
    }
}

/// The colour of the empty part of a usage bar.
pub fn track_color(indicator: Color) -> (c: Color)
    ensures
        c == shaded(indicator, TRACK_SHADE),
{
    shade_color(indicator, TRACK_SHADE)
}

/// The colour of the panel's border.
pub fn panel_border_color(panel_background: Color) -> (c: Color)
    ensures
        c == shaded(panel_background, BORDER_SHADE),
{
    shade_color(panel_background, BORDER_SHADE)
}

/// Where the panel and its two rows are drawn inside the widget.
#[derive(Clone, Copy, Debug, PartialEq, Eq, Structural)]
pub struct PanelLayout {
    pub panel: Rect,
    pub border_px: i32,
    pub radius: i32,
    pub content_x: i32,
    pub row1_y: i32,
    pub row2_y: i32,
    pub font_height: i32,
}

pub open spec fn clamp_int(v: int, lo: int, hi: int) -> int {
    if v < lo {
        lo
    } else if v > hi {
        hi
    } else {
        v
    }
}

pub open spec fn non_negative(v: int) -> int {
    if v < 0 {
        0
    } else {
        v
    }
}

/// Division by two that rounds toward zero.
pub open spec fn half_toward_zero(v: int) -> int {
    if v >= 0 {
        v / 2
    } else {
        -((-v) / 2)
    }
}

/// The rows' total height: two rows and the gap between them.
pub open spec fn rows_height(dpi: int) -> int {
    scaled(SEGMENT_H as int, dpi) * 2 + scaled(ROW_GAP as int, dpi)
}

pub open spec fn panel_row1_y(height: int, dpi: int, margin: int, padding: int) -> int {
    let inset = non_negative(margin) + non_negative(padding);
    let centred = half_toward_zero(height - rows_height(dpi));
    if centred > inset {
        centred
    } else {
        inset
    }
}

/// The panel layout for a widget of the given size and frame settings.
pub open spec fn panel_layout_of(
    width: int,
    height: int,
    dpi: int,
    border: int,
    margin: int,
    padding: int,
) -> PanelLayout {
    let m = non_negative(margin);
    let p = non_negative(padding);
    let row1 = panel_row1_y(height, dpi, margin, padding);
    PanelLayout {
        panel: Rect { left: m as i32, top: m as i32, right: (width - m) as i32, bottom: (height - m) as i32 },
        border_px: clamp_int(border, 0, MAX_BORDER_PX as int) as i32,
        radius: scaled(PANEL_RADIUS as int, dpi) as i32,
        content_x: (m + p + scaled(LEFT_DIVIDER_W as int, dpi) + scaled(DIVIDER_RIGHT_MARGIN as int, dpi)) as i32,
        row1_y: row1 as i32,
        row2_y: (row1 + scaled(SEGMENT_H as int, dpi) + scaled(ROW_GAP as int, dpi)) as i32,
        font_height: scaled(FONT_HEIGHT as int, dpi) as i32,
    }
}

/// Every step of the panel layout stays within `i32`.
pub open spec fn panel_layout_fits(
    width: int,
    height: int,
    dpi: int,
    margin: int,
    padding: int,
) -> bool {
    let m = non_negative(margin);
    let p = non_negative(padding);
    let row1 = panel_row1_y(height, dpi, margin, padding);
    &&& fits_i32(width - m)
    &&& fits_i32(height - m)
    &&& fits_i32(m + p)
    &&& fits_i32(m + p + scaled(LEFT_DIVIDER_W as int, dpi))
    &&& fits_i32(m + p + scaled(LEFT_DIVIDER_W as int, dpi) + scaled(DIVIDER_RIGHT_MARGIN as int, dpi))
    &&& fits_i32(scaled(SEGMENT_H as int, dpi) * 2)
    &&& fits_i32(rows_height(dpi))
    &&& fits_i32(height - rows_height(dpi))
    &&& fits_i32(row1 + scaled(SEGMENT_H as int, dpi))
    &&& fits_i32(row1 + scaled(SEGMENT_H as int, dpi) + scaled(ROW_GAP as int, dpi))
}

fn in_i32(v: i64) -> (r: bool)
    ensures
        r == fits_i32(v as int),
{
    i32::MIN as i64 <= v && v <= i32::MAX as i64
}

/// Whether the panel layout can be computed without overflow.
pub fn panel_layout_fits_check(width: i32, height: i32, dpi: u32, margin: i32, padding: i32) -> (r:
    bool)
    ensures
        r == panel_layout_fits(width as int, height as int, dpi as int, margin as int, padding as int),
{
    let m: i64 = if margin < 0 {
        0
    } else {
        margin as i64
    };
    let p: i64 = if padding < 0 {
        0
    } else {
        padding as i64
    };
    let seg_h = scale_px(SEGMENT_H, dpi) as i64;
    let gap = scale_px(ROW_GAP, dpi) as i64;
    let a = scale_px(LEFT_DIVIDER_W, dpi) as i64;
    let b = scale_px(DIVIDER_RIGHT_MARGIN, dpi) as i64;
    let rows_h = seg_h * 2 + gap;
    let diff = height as i64 - rows_h;
    let centred: i64 = if diff >= 0 {
        diff / 2
    } else {
        -((-diff) / 2)
    };
    let row1 = if centred > m + p {
        centred
    } else {
        m + p
    };
    in_i32(width as i64 - m) && in_i32(height as i64 - m) && in_i32(m + p) && in_i32(m + p + a)
        && in_i32(m + p + a + b) && in_i32(seg_h * 2) && in_i32(rows_h) && in_i32(diff) && in_i32(
        row1 + seg_h,
    ) && in_i32(row1 + seg_h + gap)
}

/// The panel and row positions for a widget of `width` by `height` pixels.
pub fn panel_layout(width: i32, height: i32, dpi: u32, border: i32, margin: i32, padding: i32) -> (r:
    PanelLayout)
    requires
        panel_layout_fits(width as int, height as int, dpi as int, margin as int, padding as int),
    ensures
        r == panel_layout_of(
            width as int,
            height as int,
            dpi as int,
            border as int,
            margin as int,
            padding as int,
        ),
{
    let border_px = if border < 0 {
        0
    } else if border > MAX_BORDER_PX {
        MAX_BORDER_PX
    } else {
        border
    };
    let m = if margin < 0 {
        0
    } else {
        margin
    };
    let p = if padding < 0 {
        0
    } else {
        padding
    };
    let panel = Rect { left: m, top: m, right: width - m, bottom: height - m };
    let radius = scale_px(PANEL_RADIUS, dpi);
    let content_x = m + p + scale_px(LEFT_DIVIDER_W, dpi) + scale_px(DIVIDER_RIGHT_MARGIN, dpi);
    let row_gap = scale_px(ROW_GAP, dpi);
    let seg_h = scale_px(SEGMENT_H, dpi);
    let rows_h = seg_h * 2 + row_gap;
    let diff = height - rows_h;
    let centred = if diff >= 0 {
        diff / 2
    } else {
        -((-(diff as i64)) / 2) as i32
    };
    let inset = m + p;
    let row1_y = if centred > inset {
        centred
    } else {
        inset
    };
    let row2_y = row1_y + seg_h + row_gap;
    PanelLayout {
        panel,
        border_px,
        radius,
        content_x,
        row1_y,
        row2_y,
        font_height: scale_px(FONT_HEIGHT, dpi),
    }
}

/// Where the parts of one usage row are drawn.
#[derive(Clone, Copy, Debug, PartialEq, Eq, Structural)]
pub struct RowGeometry {
    /// Box of the row's label.
    pub label: Rect,
    /// Left edge of the first bar segment.
    pub bar_x: i32,
    /// Distance from one segment's left edge to the next one's.
    pub segment_step: i32,
    pub segment_w: i32,
    pub segment_h: i32,
    pub corner_radius: i32,
    /// Box of the row's usage text.
    pub text: Rect,
}

pub open spec fn row_bar_x(x: int, dpi: int) -> int {
    x + scaled(LABEL_WIDTH as int, dpi) + scaled(LABEL_RIGHT_MARGIN as int, dpi)
}

pub open spec fn row_step(dpi: int) -> int {
    scaled(SEGMENT_W as int, dpi) + scaled(SEGMENT_GAP as int, dpi)
}

pub open spec fn row_text_x(x: int, dpi: int) -> int {
    row_bar_x(x, dpi) + SEGMENT_COUNT * row_step(dpi) - scaled(SEGMENT_GAP as int, dpi) + scaled(
        BAR_RIGHT_MARGIN as int,
        dpi,
    )
}

/// The geometry of a row whose label starts at `x` and whose top is `y`.
pub open spec fn row_geometry_of(x: int, y: int, dpi: int) -> RowGeometry {
    let seg_h = scaled(SEGMENT_H as int, dpi);
    RowGeometry {
        label: Rect {
            left: x as i32,
            top: y as i32,
            right: (x + scaled(LABEL_WIDTH as int, dpi)) as i32,
            bottom: (y + seg_h) as i32,
        },
        bar_x: row_bar_x(x, dpi) as i32,
        segment_step: row_step(dpi) as i32,
        segment_w: scaled(SEGMENT_W as int, dpi) as i32,
        segment_h: seg_h as i32,
        corner_radius: scaled(CORNER_RADIUS as int, dpi) as i32,
        text: Rect {
            left: row_text_x(x, dpi) as i32,
            top: y as i32,
            right: (row_text_x(x, dpi) + scaled(TEXT_WIDTH as int, dpi)) as i32,
            bottom: (y + seg_h) as i32,
        },
    }
}

/// Every step of a row's geometry stays within `i32`.
pub open spec fn row_geometry_fits(x: int, y: int, dpi: int) -> bool {
    &&& fits_i32(x + scaled(LABEL_WIDTH as int, dpi))
    &&& fits_i32(y + scaled(SEGMENT_H as int, dpi))
    &&& fits_i32(row_bar_x(x, dpi))
    &&& fits_i32(row_step(dpi))
    &&& fits_i32(SEGMENT_COUNT * row_step(dpi))
    &&& fits_i32(row_bar_x(x, dpi) + SEGMENT_COUNT * row_step(dpi))
    &&& fits_i32(row_bar_x(x, dpi) + SEGMENT_COUNT * row_step(dpi) - scaled(SEGMENT_GAP as int, dpi))
    &&& fits_i32(row_text_x(x, dpi))
    &&& fits_i32(row_text_x(x, dpi) + scaled(TEXT_WIDTH as int, dpi))
}

/// Whether a row's geometry can be computed without overflow.
pub fn row_geometry_fits_check(x: i32, y: i32, dpi: u32) -> (r: bool)
    ensures
        r == row_geometry_fits(x as int, y as int, dpi as int),
{
    let label_w = scale_px(LABEL_WIDTH, dpi) as i64;
    let label_m = scale_px(LABEL_RIGHT_MARGIN, dpi) as i64;
    let seg_h = scale_px(SEGMENT_H, dpi) as i64;
    let step = scale_px(SEGMENT_W, dpi) as i64 + scale_px(SEGMENT_GAP, dpi) as i64;
    let gap = scale_px(SEGMENT_GAP, dpi) as i64;
    let bar_m = scale_px(BAR_RIGHT_MARGIN, dpi) as i64;
    let text_w = scale_px(TEXT_WIDTH, dpi) as i64;
    let bar_x = x as i64 + label_w + label_m;
    let text_x = bar_x + 10 * step - gap + bar_m;
    in_i32(x as i64 + label_w) && in_i32(y as i64 + seg_h) && in_i32(bar_x) && in_i32(step) && in_i32(
        10 * step,
    ) && in_i32(bar_x + 10 * step) && in_i32(bar_x + 10 * step - gap) && in_i32(text_x) && in_i32(
        text_x + text_w,
    )
}

/// The geometry of a usage row whose label starts at `x` and whose top is `y`.
pub fn row_geometry(x: i32, y: i32, dpi: u32) -> (g: RowGeometry)
    requires
        row_geometry_fits(x as int, y as int, dpi as int),
    ensures
        g == row_geometry_of(x as int, y as int, dpi as int),
{
    let seg_w = scale_px(SEGMENT_W, dpi);
    let seg_h = scale_px(SEGMENT_H, dpi);
    let seg_gap = scale_px(SEGMENT_GAP, dpi);
    let label = Rect { left: x, top: y, right: x + scale_px(LABEL_WIDTH, dpi), bottom: y + seg_h };
    let bar_x = x + scale_px(LABEL_WIDTH, dpi) + scale_px(LABEL_RIGHT_MARGIN, dpi);
    let step = seg_w + seg_gap;
    let text_x = bar_x + SEGMENT_COUNT * step - seg_gap + scale_px(BAR_RIGHT_MARGIN, dpi);
    let text = Rect { left: text_x, top: y, right: text_x + scale_px(TEXT_WIDTH, dpi), bottom: y + seg_h };
    RowGeometry {
        label,
        bar_x,
        segment_step: step,
        segment_w: seg_w,
        segment_h: seg_h,
        corner_radius: scale_px(CORNER_RADIUS, dpi),
        text,
    }
}

/// The box of segment `i` of a row.
pub open spec fn segment_rect_of(g: RowGeometry, i: int) -> Rect {
    Rect {
        left: (g.bar_x + i * g.segment_step) as i32,
        top: g.label.top,
        right: (g.bar_x + i * g.segment_step + g.segment_w) as i32,
        bottom: g.label.bottom,
    }
}

/// The box of segment `i` of a row.
pub fn segment_rect(g: &RowGeometry, i: i32) -> (r: Rect)
    requires
        0 <= i < SEGMENT_COUNT,
        fits_i32(i * g.segment_step),
        fits_i32(g.bar_x + i * g.segment_step),
        fits_i32(g.bar_x + i * g.segment_step + g.segment_w),
    ensures
        r == segment_rect_of(*g, i as int),
{
    let left = g.bar_x + i * g.segment_step;
    Rect { left, top: g.label.top, right: left + g.segment_w, bottom: g.label.bottom }
}

/// The widget's width without the panel frame is exactly the width of the row
/// the renderer lays out at every DPI: the divider, then a row whose label
/// starts there, its ten segments, its text, and the right margin.
pub proof fn lemma_width_covers_row(dpi: int)
    ensures
        crate::layout::base_width(dpi) == row_text_x(
            scaled(LEFT_DIVIDER_W as int, dpi) + scaled(DIVIDER_RIGHT_MARGIN as int, dpi),
            dpi,
        ) + scaled(TEXT_WIDTH as int, dpi) + scaled(crate::layout::RIGHT_MARGIN as int, dpi),
        crate::layout::base_width(dpi) == scaled(LEFT_DIVIDER_W as int, dpi) + scaled(
            DIVIDER_RIGHT_MARGIN as int,
            dpi,
        ) + scaled(LABEL_WIDTH as int, dpi) + scaled(LABEL_RIGHT_MARGIN as int, dpi) + 10 * scaled(
            SEGMENT_W as int,
            dpi,
        ) + 9 * scaled(SEGMENT_GAP as int, dpi) + scaled(BAR_RIGHT_MARGIN as int, dpi) + scaled(
            TEXT_WIDTH as int,
            dpi,
        ) + scaled(crate::layout::RIGHT_MARGIN as int, dpi),
{
}

} // verus!
