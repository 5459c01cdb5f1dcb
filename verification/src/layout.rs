use vstd::prelude::*;

verus! {

/// A rectangle in pixels, edges included on the left and top.
#[derive(Clone, Copy, Debug, PartialEq, Eq, Structural)]
pub struct Rect {
    pub left: i32,
    pub top: i32,
    pub right: i32,
    pub bottom: i32,
}

/// Where and how large the widget window is placed.
#[derive(Clone, Copy, Debug, PartialEq, Eq, Structural)]
pub struct Placement {
    pub x: i32,
    pub y: i32,
    pub width: i32,
    pub height: i32,
}

pub const BASE_DPI: u32 = 96;
pub const SEGMENT_W: i32 = 10;
pub const SEGMENT_H: i32 = 12;
pub const SEGMENT_GAP: i32 = 1;
pub const SEGMENT_COUNT: i32 = 10;
pub const CORNER_RADIUS: i32 = 4;
pub const LEFT_DIVIDER_W: i32 = 3;
pub const DIVIDER_RIGHT_MARGIN: i32 = 10;
pub const LABEL_WIDTH: i32 = 18;
pub const LABEL_RIGHT_MARGIN: i32 = 8;
pub const BAR_RIGHT_MARGIN: i32 = 8;
pub const TEXT_WIDTH: i32 = 62;
pub const RIGHT_MARGIN: i32 = 12;
pub const WIDGET_HEIGHT: i32 = 42;
pub const MIN_WIDGET_HEIGHT: i32 = 36;
/// Width of the strip at the widget's left edge that starts a drag.
pub const DIVIDER_HIT_ZONE: i32 = 13;

pub open spec fn fits_i32(x: int) -> bool {
    i32::MIN <= x <= i32::MAX
}

/// `x` held in the range of `i32`.
pub open spec fn saturate_i32(x: int) -> int {
    if x < i32::MIN {
        i32::MIN as int
    } else if x > i32::MAX {
        i32::MAX as int
    } else {
        x
    }
}

/// `px * dpi / 96` rounded to the nearest integer, halves away from zero.
pub open spec fn scaled_exact(px: int, dpi: int) -> int {
    let n = px * dpi;
    if n >= 0 {
        (n + 48) / 96
    } else {
        -((-n + 48) / 96)
    }
}

/// A length designed at 96 DPI, scaled to `dpi` and held in `i32`.
pub open spec fn scaled(px: int, dpi: int) -> int {
    saturate_i32(scaled_exact(px, dpi))
}

/// The widget's width before the panel's margin and padding, summed up to
/// just before the trailing segment gap is taken off.
pub open spec fn base_width_before_gap(dpi: int) -> int {
    scaled(LEFT_DIVIDER_W as int, dpi) + scaled(DIVIDER_RIGHT_MARGIN as int, dpi)
        + scaled(LABEL_WIDTH as int, dpi) + scaled(LABEL_RIGHT_MARGIN as int, dpi)
        + (scaled(SEGMENT_W as int, dpi) + scaled(SEGMENT_GAP as int, dpi)) * SEGMENT_COUNT
}

/// The widget's width before the panel's margin and padding.
pub open spec fn base_width(dpi: int) -> int {
    base_width_before_gap(dpi) - scaled(SEGMENT_GAP as int, dpi)
        + scaled(BAR_RIGHT_MARGIN as int, dpi) + scaled(TEXT_WIDTH as int, dpi)
        + scaled(RIGHT_MARGIN as int, dpi)
}

/// The base width can be summed in `i32`.
pub open spec fn base_width_fits(dpi: int) -> bool {
    base_width_before_gap(dpi) <= i32::MAX && base_width(dpi) <= i32::MAX
}

/// Room the panel's margin and padding take on both sides.
pub open spec fn panel_extra(margin: int, padding: int) -> int {
    if margin + padding > 0 {
        (margin + padding) * 2
    } else {
        0
    }
}

pub open spec fn panel_extra_fits(margin: int, padding: int) -> bool {
    fits_i32(margin + padding) && panel_extra(margin, padding) <= i32::MAX
}

/// The widget's total width: the custom width when it is set and at least the
/// minimum, else the minimum.
pub open spec fn total_width(dpi: int, margin: int, padding: int, custom: int) -> int {
    let min_width = base_width(dpi) + panel_extra(margin, padding);
    if custom > 0 && custom > min_width {
        custom
    } else {
        min_width
    }
}

pub open spec fn total_width_fits(dpi: int, margin: int, padding: int) -> bool {
    &&& base_width_fits(dpi)
    &&& panel_extra_fits(margin, padding)
    &&& base_width(dpi) + panel_extra(margin, padding) <= i32::MAX
}

/// The widget's total height: the custom height, but not below the minimum,
/// when set; else the default height.
pub open spec fn total_height(dpi: int, margin: int, padding: int, custom: int) -> int {
    let extra = panel_extra(margin, padding);
    let min_height = scaled(MIN_WIDGET_HEIGHT as int, dpi) + extra;
    if custom > 0 {
        if custom > min_height {
            custom
        } else {
            min_height
        }
    } else {
        scaled(WIDGET_HEIGHT as int, dpi) + extra
    }
}

pub open spec fn total_height_fits(dpi: int, margin: int, padding: int) -> bool {
    &&& panel_extra_fits(margin, padding)
    &&& scaled(MIN_WIDGET_HEIGHT as int, dpi) + panel_extra(margin, padding) <= i32::MAX
    &&& scaled(WIDGET_HEIGHT as int, dpi) + panel_extra(margin, padding) <= i32::MAX
}

/// The top of a widget of height `widget_height` resting on the bottom of the
/// anchor, but never above the anchor's top.
pub open spec fn anchor_y(anchor_top: int, anchor_height: int, widget_height: int) -> int {
    let bottom = anchor_top + anchor_height;
    if bottom - widget_height > anchor_top {
        bottom - widget_height
    } else {
        anchor_top
    }
}

pub open spec fn anchor_y_fits(anchor_top: int, anchor_height: int, widget_height: int) -> bool {
    fits_i32(anchor_top + anchor_height) && fits_i32(anchor_top + anchor_height - widget_height)
}

/// Left edge of the notification area, or the taskbar's right edge without one.
pub open spec fn tray_left_of(taskbar: Rect, tray_left: Option<i32>) -> int {
    match tray_left {
        Some(l) => l as int,
        None => taskbar.right as int,
    }
}

/// Where the widget goes: left of the notification area, moved further left by
/// the user's offset, resting on the taskbar's bottom; relative to the taskbar
/// when embedded in it, else in screen coordinates.
pub open spec fn placement_of(
    taskbar: Rect,
    tray_left: Option<i32>,
    embedded: bool,
    tray_offset: int,
    width: int,
    height: int,
) -> (int, int) {
    let y = anchor_y(taskbar.top as int, taskbar.bottom - taskbar.top, height);
    let left = tray_left_of(taskbar, tray_left);
    if embedded {
        (left - taskbar.left - width - tray_offset, y - taskbar.top)
    } else {
        (left - width - tray_offset, y)
    }
}

pub open spec fn placement_fits(
    taskbar: Rect,
    tray_left: Option<i32>,
    embedded: bool,
    tray_offset: int,
    width: int,
    height: int,
) -> bool {
    let left = tray_left_of(taskbar, tray_left);
    let y = anchor_y(taskbar.top as int, taskbar.bottom - taskbar.top, height);
    &&& fits_i32(taskbar.bottom - taskbar.top)
    &&& anchor_y_fits(taskbar.top as int, taskbar.bottom - taskbar.top, height)
    &&& embedded ==> {
        &&& fits_i32(left - taskbar.left)
        &&& fits_i32(left - taskbar.left - width)
        &&& fits_i32(left - taskbar.left - width - tray_offset)
        &&& fits_i32(y - taskbar.top)
    }
    &&& !embedded ==> fits_i32(left - width) && fits_i32(left - width - tray_offset)
}

/// The largest offset that keeps the widget right of the taskbar's left edge.
pub open spec fn max_drag_offset(taskbar: Rect, tray_left: Option<i32>, width: int) -> int {
    tray_left_of(taskbar, tray_left) - taskbar.left - width
}

/// The offset after a drag: the start offset plus how far the mouse moved left,
/// not below 0, then not above the largest offset when the taskbar is known.
pub open spec fn dragged_offset(
    start_offset: int,
    start_mouse_x: int,
    mouse_x: int,
    max_offset: Option<int>,
) -> int {
    let moved = start_offset + (start_mouse_x - mouse_x);
    let not_negative = if moved < 0 {
        0
    } else {
        moved
    };
    match max_offset {
        Some(m) => if not_negative > m {
            m
        } else {
            not_negative
        },
        None => not_negative,
    }
}

/// Scales a length designed at 96 DPI to `dpi`, rounding halves away from zero.
pub fn scale_px(px: i32, dpi: u32) -> (r: i32)
    ensures
        r == scaled(px as int, dpi as int),
{
    let p = px as i64;
    let d = dpi as i64;
    assert(-0x7fff_ffff_8000_0000 <= p * d < 0x7fff_ffff_ffff_ff00) by (nonlinear_arith)
        requires
            -0x8000_0000 <= p < 0x8000_0000,
            0 <= d < 0x1_0000_0000,
    ;
    let n: i64 = p * d;
    let q: i64 = if n >= 0 {
        (n + 48) / 96
    } else {
        -((-n + 48) / 96)
    };
    if q < i32::MIN as i64 {
        i32::MIN
    } else if q > i32::MAX as i64 {
        i32::MAX
    } else {
        q as i32
    }
}

/// Whether the widget's width can be computed at `dpi` without overflow.
pub fn base_widget_width_fits(dpi: u32) -> (r: bool)
    ensures
        r == base_width_fits(dpi as int),
{
    proof { lemma_scaled_nonneg_all(dpi as int); }
    let a = scale_px(LEFT_DIVIDER_W, dpi) as i64;
    let b = scale_px(DIVIDER_RIGHT_MARGIN, dpi) as i64;
    let c = scale_px(LABEL_WIDTH, dpi) as i64;
    let d = scale_px(LABEL_RIGHT_MARGIN, dpi) as i64;
    let e = scale_px(SEGMENT_W, dpi) as i64;
    let f = scale_px(SEGMENT_GAP, dpi) as i64;
    let g = scale_px(BAR_RIGHT_MARGIN, dpi) as i64;
    let h = scale_px(TEXT_WIDTH, dpi) as i64;
    let i = scale_px(RIGHT_MARGIN, dpi) as i64;
    let before = a + b + c + d + (e + f) * 10;
    let total = before - f + g + h + i;
    before <= i32::MAX as i64 && total <= i32::MAX as i64
}

proof fn lemma_scaled_nonneg(px: int, dpi: int)
    requires
        0 <= px <= 100,
        0 <= dpi,
    ensures
        0 <= scaled(px, dpi),
{
    assert(px * dpi >= 0) by (nonlinear_arith)
        requires
            0 <= px,
            0 <= dpi,
    ;
}

proof fn lemma_scaled_nonneg_all(dpi: int)
    requires
        0 <= dpi,
    ensures
        0 <= scaled(LEFT_DIVIDER_W as int, dpi),
        0 <= scaled(DIVIDER_RIGHT_MARGIN as int, dpi),
        0 <= scaled(LABEL_WIDTH as int, dpi),
        0 <= scaled(LABEL_RIGHT_MARGIN as int, dpi),
        0 <= scaled(SEGMENT_W as int, dpi),
        0 <= scaled(SEGMENT_GAP as int, dpi),
        0 <= scaled(BAR_RIGHT_MARGIN as int, dpi),
        0 <= scaled(TEXT_WIDTH as int, dpi),
        0 <= scaled(RIGHT_MARGIN as int, dpi),
        0 <= scaled(WIDGET_HEIGHT as int, dpi),
        0 <= scaled(MIN_WIDGET_HEIGHT as int, dpi),
{
    lemma_scaled_nonneg(LEFT_DIVIDER_W as int, dpi);
    lemma_scaled_nonneg(DIVIDER_RIGHT_MARGIN as int, dpi);
    lemma_scaled_nonneg(LABEL_WIDTH as int, dpi);
    lemma_scaled_nonneg(LABEL_RIGHT_MARGIN as int, dpi);
    lemma_scaled_nonneg(SEGMENT_W as int, dpi);
    lemma_scaled_nonneg(SEGMENT_GAP as int, dpi);
    lemma_scaled_nonneg(BAR_RIGHT_MARGIN as int, dpi);
    lemma_scaled_nonneg(TEXT_WIDTH as int, dpi);
    lemma_scaled_nonneg(RIGHT_MARGIN as int, dpi);
    lemma_scaled_nonneg(WIDGET_HEIGHT as int, dpi);
    lemma_scaled_nonneg(MIN_WIDGET_HEIGHT as int, dpi);
}

/// The widget's width at `dpi` before the panel's margin and padding.
pub fn base_widget_width(dpi: u32) -> (r: i32)
    requires
        base_width_fits(dpi as int),
    ensures
        r == base_width(dpi as int),
{
    proof { lemma_scaled_nonneg_all(dpi as int); }
    scale_px(LEFT_DIVIDER_W, dpi) + scale_px(DIVIDER_RIGHT_MARGIN, dpi) + scale_px(LABEL_WIDTH, dpi)
        + scale_px(LABEL_RIGHT_MARGIN, dpi) + (scale_px(SEGMENT_W, dpi) + scale_px(SEGMENT_GAP, dpi))
        * SEGMENT_COUNT - scale_px(SEGMENT_GAP, dpi) + scale_px(BAR_RIGHT_MARGIN, dpi) + scale_px(
        TEXT_WIDTH,
        dpi,
    ) + scale_px(RIGHT_MARGIN, dpi)
}

fn panel_extra_px(margin: i32, padding: i32) -> (r: i32)
    requires
        panel_extra_fits(margin as int, padding as int),
    ensures
        r == panel_extra(margin as int, padding as int),
{
    let sum = margin + padding;
    if sum > 0 {
        sum * 2
    } else {
        0
    }
}

/// Whether the widget's total width can be computed without overflow.
pub fn total_widget_width_fits(dpi: u32, margin: i32, padding: i32) -> (r: bool)
    ensures
        r == total_width_fits(dpi as int, margin as int, padding as int),
{
    if !base_widget_width_fits(dpi) {
        return false;
    }
    let sum = margin as i64 + padding as i64;
    if sum < i32::MIN as i64 || sum > i32::MAX as i64 {
        return false;
    }
    let extra: i64 = if sum > 0 {
        sum * 2
    } else {
        0
    };
    extra <= i32::MAX as i64 && base_widget_width(dpi) as i64 + extra <= i32::MAX as i64
}

/// The widget's total width: `custom` when set and at least the minimum, else
/// the minimum, which adds the panel's margin and padding on both sides.
pub fn total_widget_width(dpi: u32, margin: i32, padding: i32, custom: i32) -> (r: i32)
    requires
        total_width_fits(dpi as int, margin as int, padding as int),
    ensures
        r == total_width(dpi as int, margin as int, padding as int, custom as int),
{
    let extra = panel_extra_px(margin, padding);
    let min_width = base_widget_width(dpi) + extra;
    if custom > 0 {
        if custom > min_width {
            custom
        } else {
            min_width
        }
    } else {
        min_width
    }
}

/// Whether the widget's total height can be computed without overflow.
pub fn total_widget_height_fits(dpi: u32, margin: i32, padding: i32) -> (r: bool)
    ensures
        r == total_height_fits(dpi as int, margin as int, padding as int),
{
    let sum = margin as i64 + padding as i64;
    if sum < i32::MIN as i64 || sum > i32::MAX as i64 {
        return false;
    }
    let extra: i64 = if sum > 0 {
        sum * 2
    } else {
        0
    };
    extra <= i32::MAX as i64 && scale_px(MIN_WIDGET_HEIGHT, dpi) as i64 + extra <= i32::MAX as i64
        && scale_px(WIDGET_HEIGHT, dpi) as i64 + extra <= i32::MAX as i64
}

/// The widget's total height: `custom` when set, but not below the minimum;
/// else the default height; both add the panel's margin and padding.
pub fn total_widget_height(dpi: u32, margin: i32, padding: i32, custom: i32) -> (r: i32)
    requires
        total_height_fits(dpi as int, margin as int, padding as int),
    ensures
        r == total_height(dpi as int, margin as int, padding as int, custom as int),
{
    proof { lemma_scaled_nonneg_all(dpi as int); }
    let extra = panel_extra_px(margin, padding);
    let min_height = scale_px(MIN_WIDGET_HEIGHT, dpi) + extra;
    let base = scale_px(WIDGET_HEIGHT, dpi) + extra;
    if custom > 0 {
        if custom > min_height {
            custom
        } else {
            min_height
        }
    } else {
        base
    }
}

/// The top of a widget resting on the anchor's bottom, never above its top.
pub fn compute_anchor_y(anchor_top: i32, anchor_height: i32, widget_height: i32) -> (r: i32)
    requires
        anchor_y_fits(anchor_top as int, anchor_height as int, widget_height as int),
    ensures
        r == anchor_y(anchor_top as int, anchor_height as int, widget_height as int),
{
    let anchor_bottom = anchor_top + anchor_height;
    let y = anchor_bottom - widget_height;
    if y > anchor_top {
        y
    } else {
        anchor_top
    }
}

/// Where the widget goes for the given taskbar, notification area and offset.
pub fn widget_placement(
    taskbar: Rect,
    tray_left: Option<i32>,
    embedded: bool,
    tray_offset: i32,
    width: i32,
    height: i32,
) -> (p: Placement)
    requires
        placement_fits(taskbar, tray_left, embedded, tray_offset as int, width as int, height as int),
    ensures
        (p.x as int, p.y as int) == placement_of(
            taskbar,
            tray_left,
            embedded,
            tray_offset as int,
            width as int,
            height as int,
        ),
        p.width == width,
        p.height == height,
{
    let taskbar_height = taskbar.bottom - taskbar.top;
    let left = match tray_left {
        Some(l) => l,
        None => taskbar.right,
    };
    let y = compute_anchor_y(taskbar.top, taskbar_height, height);
    if embedded {
        Placement { x: left - taskbar.left - width - tray_offset, y: y - taskbar.top, width, height }
    } else {
        Placement { x: left - width - tray_offset, y, width, height }
    }
}

/// The offset after the mouse moved during a drag.
pub fn drag_offset(
    start_offset: i32,
    start_mouse_x: i32,
    mouse_x: i32,
    limit: Option<(Rect, Option<i32>, i32)>,
) -> (r: i32)
    requires
        fits_i32(start_mouse_x - mouse_x),
        fits_i32(start_offset + (start_mouse_x - mouse_x)),
        limit matches Some((taskbar, tray_left, width)) ==> {
            &&& fits_i32(tray_left_of(taskbar, tray_left) - taskbar.left)
            &&& fits_i32(max_drag_offset(taskbar, tray_left, width as int))
        },
    ensures
        r == dragged_offset(
            start_offset as int,
            start_mouse_x as int,
            mouse_x as int,
            match limit {
                Some((taskbar, tray_left, width)) => Some(
                    max_drag_offset(taskbar, tray_left, width as int),
                ),
                None => None,
            },
        ),
{
    let delta = start_mouse_x - mouse_x;
    let mut new_offset = start_offset + delta;
    if new_offset < 0 {
        new_offset = 0;
    }
    match limit {
        Some((taskbar, tray_left, width)) => {
            let left = match tray_left {
                Some(l) => l,
                None => taskbar.right,
            };
            let max_offset = left - taskbar.left - width;
            if new_offset > max_offset {
                new_offset = max_offset;
            }
        },
        None => {},
    }
    new_offset
}

/// The low 16 bits of a message parameter.
pub fn low_word(bits: usize) -> (r: u16)
    ensures
        r as int == bits as int % 0x10000,
{
    let w = bits & 0xFFFF;
    assert(bits & 0xFFFF == bits % 0x10000) by (bit_vector);
    w as u16
}

/// The low 16 bits of a message parameter read as a signed coordinate.
pub fn signed_low_word(bits: usize) -> (r: i32)
    ensures
        r as int == (if bits as int % 0x10000 >= 0x8000 {
            bits as int % 0x10000 - 0x10000
        } else {
            bits as int % 0x10000
        }),
{
    let w = low_word(bits);
    if w >= 0x8000 {
        w as i32 - 0x10000
    } else {
        w as i32
    }
}

/// The scaled result is the integer nearest to `px * dpi / 96`, with halves
/// rounded away from zero.
pub proof fn lemma_scaled_is_nearest(px: int, dpi: int)
    ensures
        -48 <= 96 * scaled_exact(px, dpi) - px * dpi <= 48,
        96 * scaled_exact(px, dpi) - px * dpi == 48 ==> px * dpi >= 0,
        96 * scaled_exact(px, dpi) - px * dpi == -48 ==> px * dpi < 0,
{
    let n = px * dpi;
    if n >= 0 {
        assert(96 * ((n + 48) / 96) <= n + 48);
        assert(96 * ((n + 48) / 96) > n + 48 - 96);
    } else {
        assert(96 * ((-n + 48) / 96) <= -n + 48);
        assert(96 * ((-n + 48) / 96) > -n + 48 - 96);
    }
}

/// A widget no taller than its anchor lies within it, touching its bottom.
pub proof fn lemma_anchor_within(anchor_top: int, anchor_height: int, widget_height: int)
    requires
        0 <= widget_height <= anchor_height,
    ensures
        anchor_y(anchor_top, anchor_height, widget_height) >= anchor_top,
        anchor_y(anchor_top, anchor_height, widget_height) + widget_height == anchor_top
            + anchor_height,
{
}

/// A dragged offset is never negative, and never beyond a non-negative limit.
pub proof fn lemma_drag_bounds(start_offset: int, start_mouse_x: int, mouse_x: int, max_offset: Option<int>)
    ensures
        (max_offset matches Some(m) && m >= 0) || max_offset is None ==> dragged_offset(
            start_offset,
            start_mouse_x,
            mouse_x,
            max_offset,
        ) >= 0,
        max_offset matches Some(m) ==> dragged_offset(start_offset, start_mouse_x, mouse_x, max_offset)
            <= m,
{
}

/// The DPI to use after asking the window for it: the answer when it is
/// positive, else the DPI in use.
pub fn refreshed_dpi(current: u32, queried: u32) -> (r: u32)
    ensures
        r == (if queried > 0 {
            queried
        } else {
            current
        }),
{
    if queried > 0 {
        queried
    } else {
        current
    }
}

/// Whether a point at `client_x` lies on the strip that starts a drag.
pub fn in_drag_zone(client_x: i32, dpi: u32) -> (r: bool)
    ensures
        r == (client_x < scaled(DIVIDER_HIT_ZONE as int, dpi as int)),
{
    client_x < scale_px(DIVIDER_HIT_ZONE, dpi)
}

/// The hit-test code of the client area.
pub const HIT_CLIENT: u16 = 1;

/// Whether the mouse shows the horizontal-resize cursor: while dragging, or
/// over the drag strip of the client area.
pub fn wants_resize_cursor(dragging: bool, hit_test: u16, client_x: i32, dpi: u32) -> (r: bool)
    ensures
        r == (dragging || (hit_test == HIT_CLIENT && client_x < scaled(
            DIVIDER_HIT_ZONE as int,
            dpi as int,
        ))),
{
    if dragging {
        return true;
    }
    hit_test == HIT_CLIENT && in_drag_zone(client_x, dpi)
}

} // verus!
