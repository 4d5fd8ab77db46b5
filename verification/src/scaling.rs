//! Scaling pixel sizes between DPI values and interface font sizes.

use vstd::prelude::*;

use crate::geometry::RectSpec;

verus! {

/// The DPI at which layout sizes are written.
pub const DEFAULT_DPI: u32 = 96;

/// The interface font size (in points) used when none is configured.
pub const DEFAULT_FONT_SIZE: u16 = 12;

/// The smallest interface font size.
pub const MIN_UI_FONT_SIZE: u16 = 8;

/// The largest interface font size.
pub const MAX_UI_FONT_SIZE: u16 = 20;

/// Dialog layouts grow with the font size in proportion `(DEFAULT_FONT_SIZE + 4 + extra) /
/// (DEFAULT_FONT_SIZE + 4)`, where `extra` is how far the font exceeds the default.
pub const DIALOG_FONT_SCALE_DENOMINATOR: i32 = 16;

/// Integer division rounding toward zero, as Rust's `/` does.
pub open spec fn trunc_div(a: int, b: int) -> int {
    if a >= 0 {
        a / b
    } else {
        -((-a) / b)
    }
}

/// `value` limited to `[low, high]`.
pub open spec fn clamp_int(value: int, low: int, high: int) -> int {
    if value < low {
        low
    } else if value > high {
        high
    } else {
        value
    }
}

/// A configured font size limited to the supported range.
pub open spec fn normalized_font_size(size: int) -> int {
    clamp_int(size, MIN_UI_FONT_SIZE as int, MAX_UI_FONT_SIZE as int)
}

/// Limits a font size to the supported range.
pub fn normalize_ui_font_size(font_size: u16) -> (normalized: u16)
    ensures
        normalized == normalized_font_size(font_size as int),
{
    if font_size < MIN_UI_FONT_SIZE {
        MIN_UI_FONT_SIZE
    } else if font_size > MAX_UI_FONT_SIZE {
        MAX_UI_FONT_SIZE
    } else {
        font_size
    }
}

/// `value` scaled from `from_dpi` to `to_dpi` (each at least 1), rounded half away from zero for
/// positive results and saturated to the `i32` range.
pub open spec fn dpi_scaled(value: int, from_dpi: int, to_dpi: int) -> int {
    let from = if from_dpi < 1 { 1 } else { from_dpi };
    let to = if to_dpi < 1 { 1 } else { to_dpi };
    clamp_int(trunc_div(value * to + from / 2, from), i32::MIN as int, i32::MAX as int)
}

/// Scales a pixel size between two DPI values.
pub fn scale_dimension_between_dpi(value: i32, from_dpi: u32, to_dpi: u32) -> (scaled: i32)
    ensures
        scaled == dpi_scaled(value as int, from_dpi as int, to_dpi as int),
{
    let from: i64 = if from_dpi < 1 { 1 } else { from_dpi as i64 };
    let to: i64 = if to_dpi < 1 { 1 } else { to_dpi as i64 };
    assert(-0x8000_0000 * 0xffff_ffff <= (value as int) * (to as int) <= 0x7fff_ffff * 0xffff_ffff)
        by (nonlinear_arith)
        requires
            -0x8000_0000 <= value <= 0x7fff_ffff,
            1 <= to <= 0xffff_ffff,
    ;
    let product: i64 = (value as i64) * to;
    let shifted: i64 = product + from / 2;
    let quotient: i64 = shifted / from;
    assert(quotient as int == trunc_div(shifted as int, from as int));
    if quotient < i32::MIN as i64 {
        i32::MIN
    } else if quotient > i32::MAX as i64 {
        i32::MAX
    } else {
        quotient as i32
    }
}

/// Scales a size written for 96 DPI to `dpi`.
pub fn scale_dimension_for_dpi(value: i32, dpi: u32) -> (scaled: i32)
    ensures
        scaled == dpi_scaled(value as int, DEFAULT_DPI as int, dpi as int),
{
    scale_dimension_between_dpi(value, DEFAULT_DPI, dpi)
}

} // verus!

verus! {

/// Scales every field of a rectangle written for 96 DPI to `dpi`.
pub fn scale_rect_for_dpi(rect: RectSpec, dpi: u32) -> (scaled: RectSpec)
    ensures
        scaled.x == dpi_scaled(rect.x as int, 96, dpi as int),
        scaled.y == dpi_scaled(rect.y as int, 96, dpi as int),
        scaled.width == dpi_scaled(rect.width as int, 96, dpi as int),
        scaled.height == dpi_scaled(rect.height as int, 96, dpi as int),
{
    RectSpec {
        x: scale_dimension_for_dpi(rect.x, dpi),
        y: scale_dimension_for_dpi(rect.y, dpi),
        width: scale_dimension_for_dpi(rect.width, dpi),
        height: scale_dimension_for_dpi(rect.height, dpi),
    }
}

/// How many points the normalized `font_size` exceeds the default size by.
pub open spec fn font_extra(font_size: int) -> int {
    let normalized = normalized_font_size(font_size);
    if normalized > DEFAULT_FONT_SIZE {
        normalized - DEFAULT_FONT_SIZE
    } else {
        0
    }
}

/// A dialog dimension grown for a font larger than the default, rounded half up and saturated.
pub open spec fn dialog_font_scaled(value: int, font_size: int) -> int {
    let extra = font_extra(font_size);
    if extra == 0 {
        value
    } else {
        clamp_int(
            trunc_div(
                value * (DIALOG_FONT_SCALE_DENOMINATOR + extra) + DIALOG_FONT_SCALE_DENOMINATOR / 2,
                DIALOG_FONT_SCALE_DENOMINATOR as int,
            ),
            i32::MIN as int,
            i32::MAX as int,
        )
    }
}

/// The normalized font size's excess over the default, in points.
pub fn font_size_extra(font_size: u16) -> (extra: i32)
    ensures
        extra == font_extra(font_size as int),
        0 <= extra <= 8,
{
    let normalized = normalize_ui_font_size(font_size);
    if normalized > DEFAULT_FONT_SIZE {
        (normalized - DEFAULT_FONT_SIZE) as i32
    } else {
        0
    }
}

/// Grows a dialog dimension for the configured font size.
pub fn scale_dimension_for_dialog_font(value: i32, font_size: u16) -> (scaled: i32)
    ensures
        scaled == dialog_font_scaled(value as int, font_size as int),
{
    let extra = font_size_extra(font_size);
    if extra == 0 {
        return value;
    }
    let denominator: i64 = DIALOG_FONT_SCALE_DENOMINATOR as i64;
    let numerator: i64 = (DIALOG_FONT_SCALE_DENOMINATOR + extra) as i64;
    assert(-0x8000_0000 * 24 <= (value as int) * (numerator as int) <= 0x7fff_ffff * 24)
        by (nonlinear_arith)
        requires
            -0x8000_0000 <= value <= 0x7fff_ffff,
            17 <= numerator <= 24,
    ;
    let scaled: i64 = (value as i64) * numerator;
    let quotient: i64 = (scaled + denominator / 2) / denominator;
    if quotient < i32::MIN as i64 {
        i32::MIN
    } else if quotient > i32::MAX as i64 {
        i32::MAX
    } else {
        quotient as i32
    }
}

/// A dialog size grown for the font size, then scaled to `dpi`.
pub fn scaled_dialog_size_for_dpi(width: i32, height: i32, font_size: u16, dpi: u32) -> (size: (
    i32,
    i32,
))
    ensures
        size.0 == dpi_scaled(dialog_font_scaled(width as int, font_size as int), 96, dpi as int),
        size.1 == dpi_scaled(dialog_font_scaled(height as int, font_size as int), 96, dpi as int),
{
    let width = scale_dimension_for_dialog_font(width, font_size);
    let height = scale_dimension_for_dialog_font(height, font_size);
    (scale_dimension_for_dpi(width, dpi), scale_dimension_for_dpi(height, dpi))
}

/// A dialog control rectangle grown for the font size, then scaled to `dpi`.
pub fn scale_rect_for_dialog(rect: RectSpec, font_size: u16, dpi: u32) -> (scaled: RectSpec)
    ensures
        scaled.x == dpi_scaled(dialog_font_scaled(rect.x as int, font_size as int), 96, dpi as int),
        scaled.y == dpi_scaled(dialog_font_scaled(rect.y as int, font_size as int), 96, dpi as int),
        scaled.width == dpi_scaled(
            dialog_font_scaled(rect.width as int, font_size as int),
            96,
            dpi as int,
        ),
        scaled.height == dpi_scaled(
            dialog_font_scaled(rect.height as int, font_size as int),
            96,
            dpi as int,
        ),
{
    scale_rect_for_dpi(
        RectSpec {
            x: scale_dimension_for_dialog_font(rect.x, font_size),
            y: scale_dimension_for_dialog_font(rect.y, font_size),
            width: scale_dimension_for_dialog_font(rect.width, font_size),
            height: scale_dimension_for_dialog_font(rect.height, font_size),
        },
        dpi,
    )
}

/// The font size that dialog layouts are computed for: the actual font's size when it is known
/// and larger, else the configured size (both normalized).
pub fn dialog_layout_font_size_from_actual(configured_font_size: u16, actual_font_size: Option<
    u16,
>) -> (size: u16)
    ensures
        size == ({
            let configured = normalized_font_size(configured_font_size as int);
            let actual = match actual_font_size {
                Some(a) => normalized_font_size(a as int),
                None => configured,
            };
            if actual > configured {
                actual
            } else {
                configured
            }
        }),
{
    let configured = normalize_ui_font_size(configured_font_size);
    let actual = match actual_font_size {
        Some(a) => normalize_ui_font_size(a),
        None => configured,
    };
    if actual > configured {
        actual
    } else {
        configured
    }
}

/// The point size of a font from its `LOGFONT` height in pixels at `dpi`: none for height zero or
/// a size that does not fit `u16`; otherwise rounded half up and normalized.
pub open spec fn logfont_points(height: int, dpi: int) -> Option<u16> {
    let d = if dpi < 1 {
        1
    } else {
        dpi
    };
    let pixels = if height < 0 {
        -height
    } else {
        height
    };
    let points = (pixels * 72 + d / 2) / d;
    if height == 0 || points > u16::MAX {
        None
    } else {
        Some(normalized_font_size(points) as u16)
    }
}

/// Recovers the font size from a `LOGFONT` height.
pub fn font_size_from_logfont_height(height: i32, dpi: u32) -> (size: Option<u16>)
    ensures
        size == logfont_points(height as int, dpi as int),
{
    if height == 0 {
        return None;
    }
    let dpi: i64 = if dpi < 1 {
        1
    } else {
        dpi as i64
    };
    let pixels: i64 = if height < 0 {
        -(height as i64)
    } else {
        height as i64
    };
    let points: i64 = (pixels * 72 + dpi / 2) / dpi;
    if points > u16::MAX as i64 {
        None
    } else {
        Some(normalize_ui_font_size(points as u16))
    }
}

/// The pixel height of a font of `font_size` points at `dpi`, rounded half up. A DPI beyond the
/// `i32` range counts as 96.
pub open spec fn font_pixels(font_size: int, dpi: int) -> int {
    let d = if dpi > i32::MAX {
        96
    } else if dpi < 1 {
        1
    } else {
        dpi
    };
    (normalized_font_size(font_size) * d + 36) / 72
}

/// The pixel height of a font, as written into `LOGFONT` (negated there).
pub fn font_pixel_height(font_size: u16, dpi: u32) -> (pixels: i32)
    requires
        dpi > i32::MAX || normalized_font_size(font_size as int) * dpi + 36 <= i32::MAX,
    ensures
        pixels == font_pixels(font_size as int, dpi as int),
{
    let size = normalize_ui_font_size(font_size) as i32;
    let d: i32 = if dpi > i32::MAX as u32 {
        96
    } else if dpi < 1 {
        1
    } else {
        dpi as i32
    };
    assert(size * d + 36 <= i32::MAX) by (nonlinear_arith)
        requires
            8 <= size <= 20,
            1 <= d,
            d == 96 || size * d + 36 <= i32::MAX,
    ;
    (size * d + 36) / 72
}


/// The DPI read from the screen's logical pixels per inch; a failed read (zero or less) counts as
/// 96.
pub fn dpi_from_logical_pixels(logical_pixels: i32) -> (dpi: u32)
    ensures
        dpi == (if logical_pixels > 0 {
            logical_pixels as u32
        } else {
            DEFAULT_DPI
        }),
        dpi >= 1,
{
    if logical_pixels > 0 {
        logical_pixels as u32
    } else {
        DEFAULT_DPI
    }
}

/// The DPI announced by a DPI-change message: the larger of the two words of its `wparam`, at
/// least one.
pub fn dpi_from_change_message(wparam: usize) -> (dpi: u32)
    ensures
        dpi == (if wparam % 0x1_0000 >= (wparam / 0x1_0000) % 0x1_0000 {
            if wparam % 0x1_0000 >= 1 {
                wparam % 0x1_0000
            } else {
                1
            }
        } else {
            (wparam / 0x1_0000) % 0x1_0000
        }),
{
    let low = (wparam % 0x1_0000) as u32;
    let high = ((wparam / 0x1_0000) % 0x1_0000) as u32;
    let larger = if low >= high {
        low
    } else {
        high
    };
    if larger < 1 {
        1
    } else {
        larger
    }
}


/// The dialog font size stored in a window property: the default size when the property is
/// unset (zero) or too large for a size, else the stored size normalized.
pub fn dialog_font_size_from_property(value: usize) -> (size: u16)
    ensures
        size == (if value == 0 || value > u16::MAX {
            DEFAULT_FONT_SIZE as int
        } else {
            normalized_font_size(value as int)
        }),
{
    if value == 0 || value > u16::MAX as usize {
        return DEFAULT_FONT_SIZE;
    }
    normalize_ui_font_size(value as u16)
}

} // verus!
