//! Vertical scrolling of the command button page.
//!
//! The page scrolls by whole button rows: the largest offset is rounded up to a multiple of the
//! row height, and every requested offset snaps to the nearest row boundary.

use vstd::prelude::*;

use crate::command_buttons::{
    command_button_rects_in_parent, fits_i32, grid_in_parent, grid_in_parent_fits, grid_rect_fits,
    grid_y, max_int, min_int, CommandButtonRects,
};
use crate::geometry::{non_negative, RectSpec};
use crate::scaling::{clamp_int, dpi_scaled, font_extra, font_size_extra, scale_dimension_for_dpi};

verus! {

/// How far content of `content` pixels can scroll in a viewport of `viewport` pixels.
pub open spec fn scroll_range(content: int, viewport: int) -> int {
    non_negative(content - non_negative(viewport))
}

/// The bottom edge of the last button of `grid`, or zero when it has no buttons.
pub open spec fn grid_bottom(grid: CommandButtonRects) -> int {
    if grid.count == 0 {
        0
    } else {
        grid_y(grid, grid.count - 1) + grid.button_height
    }
}

/// Whether the last button's rectangle and bottom edge can be written in `i32`.
pub open spec fn grid_bottom_fits(grid: CommandButtonRects) -> bool {
    grid.count > 0 ==> grid_rect_fits(grid, grid.count - 1) && fits_i32(grid_bottom(grid))
}

/// The scroll range rounded up to whole rows of `line_step` pixels (a step below one counts as
/// one), saturated at `i32::MAX`.
pub open spec fn row_aligned_range(required: int, line_step: int) -> int {
    let range = non_negative(required);
    let step = max_int(line_step, 1);
    if range == 0 {
        0
    } else if range % step == 0 {
        range
    } else {
        min_int(range + (step - range % step), i32::MAX as int)
    }
}

/// `target` limited to `[0, max_offset]` and moved to the nearer of the row boundaries around it
/// (the lower one on a tie); the upper boundary never passes `max_offset`. Without room for one
/// row the limited target is kept as it is.
pub open spec fn snapped_offset(target: int, max_offset: int, line_step: int) -> int {
    let range = non_negative(max_offset);
    let step = max_int(line_step, 1);
    let clamped = clamp_int(target, 0, range);
    if range == 0 {
        0
    } else if range < step {
        clamped
    } else {
        let lower = clamped / step * step;
        let upper = min_int(lower + step, range);
        if clamped - lower <= upper - clamped {
            lower
        } else {
            upper
        }
    }
}

/// The content height reported to the scroll bar: the viewport plus the scroll range, saturated,
/// and at least one.
pub open spec fn scrollbar_height(viewport: int, max_offset: int) -> int {
    max_int(min_int(non_negative(viewport) + non_negative(max_offset), i32::MAX as int), 1)
}

/// The height of one button row: a button and the gap below it, at least one pixel.
pub open spec fn line_step_for(font_size: int, dpi: int) -> int {
    let extra = font_extra(font_size);
    max_int(
        dpi_scaled(30 + extra * 2, 96, dpi) + dpi_scaled(8 + min_int(extra, 4), 96, dpi),
        1,
    )
}

/// Whether the row height can be computed in `i32`.
pub open spec fn line_step_fits(font_size: int, dpi: int) -> bool {
    let extra = font_extra(font_size);
    fits_i32(dpi_scaled(30 + extra * 2, 96, dpi) + dpi_scaled(8 + min_int(extra, 4), 96, dpi))
}

/// Computes how far content of `content_height` pixels can scroll in a viewport.
pub fn max_scroll_offset(content_height: i32, viewport_height: i32) -> (offset: i32)
    ensures
        offset == scroll_range(content_height as int, viewport_height as int),
        offset >= 0,
{
    let viewport: i64 = if viewport_height < 0 {
        0
    } else {
        viewport_height as i64
    };
    let difference: i64 = content_height as i64 - viewport;
    if difference < 0 {
        0
    } else {
        difference as i32
    }
}

/// Computes the bottom edge of the last button, in page coordinates before scrolling.
pub fn command_button_scroll_content_height(
    panel: RectSpec,
    parent: RectSpec,
    count: usize,
    font_size: u16,
    dpi: u32,
) -> (height: i32)
    requires
        grid_in_parent_fits(panel, parent, font_size as int, dpi as int, 0),
        grid_bottom_fits(grid_in_parent(panel, parent, count as int, font_size as int, dpi as int, 0)),
    ensures
        height == grid_bottom(
            grid_in_parent(panel, parent, count as int, font_size as int, dpi as int, 0),
        ),
{
    let rects = command_button_rects_in_parent(panel, parent, count, font_size, dpi, 0);
    match rects.last() {
        Some(rect) => rect.y + rect.height,
        None => 0,
    }
}

/// Computes how far the button page must scroll to show its last button.
pub fn command_button_max_scroll_offset(
    panel: RectSpec,
    parent: RectSpec,
    count: usize,
    font_size: u16,
    dpi: u32,
) -> (offset: i32)
    requires
        grid_in_parent_fits(panel, parent, font_size as int, dpi as int, 0),
        grid_bottom_fits(grid_in_parent(panel, parent, count as int, font_size as int, dpi as int, 0)),
    ensures
        offset == scroll_range(
            grid_bottom(grid_in_parent(panel, parent, count as int, font_size as int, dpi as int, 0)),
            parent.height as int,
        ),
{
    max_scroll_offset(
        command_button_scroll_content_height(panel, parent, count, font_size, dpi),
        parent.height,
    )
}

/// Rounds the required scroll range up to whole rows.
pub fn command_button_effective_max_scroll_offset(required_max_offset: i32, line_step: i32) -> (offset:
    i32)
    ensures
        offset == row_aligned_range(required_max_offset as int, line_step as int),
        offset >= non_negative(required_max_offset as int),
{
    let required = if required_max_offset < 0 {
        0
    } else {
        required_max_offset
    };
    if required == 0 {
        return 0;
    }
    let step = if line_step < 1 {
        1
    } else {
        line_step
    };
    let remainder = required % step;
    if remainder == 0 {
        required
    } else {
        let raised: i64 = required as i64 + (step - remainder) as i64;
        if raised > i32::MAX as i64 {
            i32::MAX
        } else {
            raised as i32
        }
    }
}

/// Snaps a requested scroll offset to the nearest row boundary within the scroll range.
pub fn command_button_aligned_scroll_offset(target: i32, max_offset: i32, line_step: i32) -> (offset:
    i32)
    ensures
        offset == snapped_offset(target as int, max_offset as int, line_step as int),
{
    let range = if max_offset < 0 {
        0
    } else {
        max_offset
    };
    if range == 0 {
        return 0;
    }
    let clamped = if target < 0 {
        0
    } else if target > range {
        range
    } else {
        target
    };
    let step = if line_step < 1 {
        1
    } else {
        line_step
    };
    if range < step {
        return clamped;
    }
    proof {
        assert(0 <= clamped / step * step <= clamped) by (nonlinear_arith)
            requires
                0 <= clamped,
                step >= 1,
        ;
    }
    let lower = clamped / step * step;
    let raised: i64 = lower as i64 + step as i64;
    let upper = if raised < range as i64 {
        raised as i32
    } else {
        range
    };
    if clamped - lower <= upper - clamped {
        lower
    } else {
        upper
    }
}

/// Computes the content height reported to the scroll bar.
pub fn command_button_scrollbar_content_height(viewport_height: i32, max_offset: i32) -> (height:
    i32)
    ensures
        height == scrollbar_height(viewport_height as int, max_offset as int),
{
    let viewport: i64 = if viewport_height < 0 {
        0
    } else {
        viewport_height as i64
    };
    let range: i64 = if max_offset < 0 {
        0
    } else {
        max_offset as i64
    };
    let total: i64 = viewport + range;
    let limited: i64 = if total > i32::MAX as i64 {
        i32::MAX as i64
    } else {
        total
    };
    if limited < 1 {
        1
    } else {
        limited as i32
    }
}

/// Computes the height of one button row, the distance one scroll step moves.
pub fn command_button_scroll_line_step(font_size: u16, dpi: u32) -> (step: i32)
    requires
        line_step_fits(font_size as int, dpi as int),
    ensures
        step == line_step_for(font_size as int, dpi as int),
        step >= 1,
{
    let extra = font_size_extra(font_size);
    let button_height = scale_dimension_for_dpi(30 + extra * 2, dpi);
    let gap = scale_dimension_for_dpi(8 + if extra < 4 {
        extra
    } else {
        4
    }, dpi);
    let step = button_height + gap;
    if step < 1 {
        1
    } else {
        step
    }
}


/// Rounding a positive scroll range up to rows gives a whole number of rows that covers the range
/// and adds less than one row, when the result does not saturate.
pub proof fn row_aligned_range_is_whole_rows(required: int, line_step: int)
    requires
        required > 0,
        line_step >= 1,
        required + line_step <= i32::MAX,
    ensures
        row_aligned_range(required, line_step) % line_step == 0,
        required <= row_aligned_range(required, line_step) < required + line_step,
{
    let rows = required / line_step;
    let remainder = required % line_step;
    vstd::arithmetic::div_mod::lemma_fundamental_div_mod(required, line_step);
    if remainder == 0 {
        vstd::arithmetic::div_mod::lemma_fundamental_div_mod_converse(
            required,
            line_step,
            rows,
            0,
        );
    } else {
        let raised = required + (line_step - remainder);
        assert(raised == (rows + 1) * line_step) by (nonlinear_arith)
            requires
                required == line_step * rows + remainder,
                raised == required + (line_step - remainder),
        ;
        vstd::arithmetic::div_mod::lemma_fundamental_div_mod_converse(
            raised,
            line_step,
            rows + 1,
            0,
        );
    }
}

/// A snapped offset never leaves the scroll range.
pub proof fn snapped_offset_stays_in_range(target: int, max_offset: int, line_step: int)
    ensures
        0 <= snapped_offset(target, max_offset, line_step) <= non_negative(max_offset),
{
    let range = non_negative(max_offset);
    let step = max_int(line_step, 1);
    let clamped = clamp_int(target, 0, range);
    assert(0 <= clamped / step * step <= clamped) by (nonlinear_arith)
        requires
            0 <= clamped,
            step >= 1,
    ;
}

/// Snapping an offset that was already snapped keeps it where it is.
pub proof fn snapped_offset_is_idempotent(target: int, max_offset: int, line_step: int)
    ensures
        snapped_offset(snapped_offset(target, max_offset, line_step), max_offset, line_step)
            == snapped_offset(target, max_offset, line_step),
{
    let range = non_negative(max_offset);
    let step = max_int(line_step, 1);
    let clamped = clamp_int(target, 0, range);
    let first = snapped_offset(target, max_offset, line_step);
    snapped_offset_stays_in_range(target, max_offset, line_step);
    if range != 0 && range >= step {
        let lower = clamped / step * step;
        let upper = min_int(lower + step, range);
        assert(0 <= lower <= clamped) by (nonlinear_arith)
            requires
                0 <= clamped,
                step >= 1,
                lower == clamped / step * step,
        ;
        if first == lower || first == lower + step {
            let rows = if first == lower {
                clamped / step
            } else {
                clamped / step + 1
            };
            assert(first == rows * step) by (nonlinear_arith)
                requires
                    lower == clamped / step * step,
                    first == lower || first == lower + step,
                    rows == (if first == lower {
                        clamped / step
                    } else {
                        clamped / step + 1
                    }),
            ;
            vstd::arithmetic::div_mod::lemma_fundamental_div_mod_converse(first, step, rows, 0);
            assert(first / step * step == first);
        } else {
            assert(first == range);
            assert(range < lower + step);
            vstd::arithmetic::div_mod::lemma_fundamental_div_mod(range, step);
            assert(range / step * step == lower) by (nonlinear_arith)
                requires
                    lower == clamped / step * step,
                    lower <= range < lower + step,
                    step >= 1,
                    lower >= 0,
            {
                vstd::arithmetic::div_mod::lemma_fundamental_div_mod_converse(
                    range,
                    step,
                    clamped / step,
                    range - lower,
                );
            }
        }
    }
}

/// With a scroll range of whole rows, every snapped offset lies on a row boundary.
pub proof fn snapped_offset_is_on_row_boundary(target: int, max_offset: int, line_step: int)
    requires
        line_step >= 1,
        max_offset >= line_step,
        max_offset % line_step == 0,
    ensures
        snapped_offset(target, max_offset, line_step) % line_step == 0,
{
    let step = line_step;
    let clamped = clamp_int(target, 0, max_offset);
    let rows = clamped / step;
    let lower = rows * step;
    let result = snapped_offset(target, max_offset, line_step);
    vstd::arithmetic::div_mod::lemma_fundamental_div_mod(clamped, step);
    vstd::arithmetic::div_mod::lemma_fundamental_div_mod(max_offset, step);
    assert(lower == step * rows) by (nonlinear_arith)
        requires
            lower == rows * step,
    ;
    vstd::arithmetic::div_mod::lemma_fundamental_div_mod_converse(lower, step, rows, 0);
    assert(lower + step == (rows + 1) * step) by (nonlinear_arith)
        requires
            lower == rows * step,
    ;
    vstd::arithmetic::div_mod::lemma_fundamental_div_mod_converse(lower + step, step, rows + 1, 0);
}

/// Scrolling the page to its whole-row scroll range brings the last button's bottom edge inside
/// the page: the bottom position reveals the last button.
pub proof fn bottom_scroll_reveals_last_button(
    panel: RectSpec,
    parent: RectSpec,
    count: int,
    font_size: int,
    dpi: int,
    line_step: int,
)
    requires
        count > 0,
        count <= usize::MAX,
        parent.height >= 0,
        grid_in_parent_fits(panel, parent, font_size, dpi, 0),
        grid_bottom_fits(grid_in_parent(panel, parent, count, font_size, dpi, 0)),
        grid_in_parent_fits(
            panel,
            parent,
            font_size,
            dpi,
            row_aligned_range(
                scroll_range(
                    grid_bottom(grid_in_parent(panel, parent, count, font_size, dpi, 0)),
                    parent.height as int,
                ),
                line_step,
            ),
        ),
    ensures
        grid_bottom(
            grid_in_parent(
                panel,
                parent,
                count,
                font_size,
                dpi,
                row_aligned_range(
                    scroll_range(
                        grid_bottom(grid_in_parent(panel, parent, count, font_size, dpi, 0)),
                        parent.height as int,
                    ),
                    line_step,
                ),
            ),
        ) <= parent.height,
{
    let unscrolled = grid_in_parent(panel, parent, count, font_size, dpi, 0);
    let offset = row_aligned_range(
        scroll_range(grid_bottom(unscrolled), parent.height as int),
        line_step,
    );
    let scrolled = grid_in_parent(panel, parent, count, font_size, dpi, offset);
    let range = scroll_range(grid_bottom(unscrolled), parent.height as int);
    if range > 0 {
        vstd::arithmetic::div_mod::lemma_mod_pos_bound(range, max_int(line_step, 1));
    }
    assert(offset >= range);
    assert(scrolled.top == unscrolled.top - offset);
    assert(grid_y(scrolled, count - 1) == grid_y(unscrolled, count - 1) - offset);
}


/// How the button page scrolls: the content height reported to the scroll bar, the scroll range
/// in whole rows, one row, and one page (the viewport less a row, at least a row).
#[derive(Clone, Copy, Debug, PartialEq, Eq, Structural)]
pub struct CommandButtonScrollMetrics {
    pub content_height: i32,
    pub max_offset: i32,
    pub line_step: i32,
    pub page_step: i32,
}

/// The scroll metrics of the button page for `count` buttons.
pub open spec fn scroll_metrics_for(
    panel: RectSpec,
    parent: RectSpec,
    count: int,
    font_size: int,
    dpi: int,
) -> CommandButtonScrollMetrics {
    let step = line_step_for(font_size, dpi);
    let range = row_aligned_range(
        scroll_range(grid_bottom(grid_in_parent(panel, parent, count, font_size, dpi, 0)), parent.height as int),
        step,
    );
    CommandButtonScrollMetrics {
        content_height: scrollbar_height(parent.height as int, range) as i32,
        max_offset: range as i32,
        line_step: step as i32,
        page_step: max_int(parent.height - step, step) as i32,
    }
}

/// Computes the scroll metrics of the button page.
pub fn command_button_scroll_metrics(
    panel: RectSpec,
    parent: RectSpec,
    count: usize,
    font_size: u16,
    dpi: u32,
) -> (metrics: CommandButtonScrollMetrics)
    requires
        grid_in_parent_fits(panel, parent, font_size as int, dpi as int, 0),
        grid_bottom_fits(grid_in_parent(panel, parent, count as int, font_size as int, dpi as int, 0)),
        line_step_fits(font_size as int, dpi as int),
        fits_i32(parent.height - line_step_for(font_size as int, dpi as int)),
    ensures
        metrics == scroll_metrics_for(panel, parent, count as int, font_size as int, dpi as int),
        metrics.line_step >= 1,
        metrics.max_offset >= 0,
{
    let line_step = command_button_scroll_line_step(font_size, dpi);
    let required = command_button_max_scroll_offset(panel, parent, count, font_size, dpi);
    let max_offset = command_button_effective_max_scroll_offset(required, line_step);
    let rest = parent.height - line_step;
    CommandButtonScrollMetrics {
        content_height: command_button_scrollbar_content_height(parent.height, max_offset),
        max_offset,
        line_step,
        page_step: if rest > line_step {
            rest
        } else {
            line_step
        },
    }
}

/// The scroll-bar request codes (`SB_LINEUP` to `SB_BOTTOM`).
pub const SB_LINEUP: u32 = 0;
pub const SB_LINEDOWN: u32 = 1;
pub const SB_PAGEUP: u32 = 2;
pub const SB_PAGEDOWN: u32 = 3;
pub const SB_THUMBPOSITION: u32 = 4;
pub const SB_THUMBTRACK: u32 = 5;
pub const SB_TOP: u32 = 6;
pub const SB_BOTTOM: u32 = 7;

/// The offset a scroll-bar request asks for, before snapping: a row or a page up or down, the
/// dragged thumb's position (the current offset when it cannot be read), the top or the bottom.
/// Other requests are not handled.
pub open spec fn requested_offset(
    command: u32,
    current: int,
    metrics: CommandButtonScrollMetrics,
    track_position: Option<i32>,
) -> Option<int> {
    if command == SB_LINEUP {
        Some(current - metrics.line_step)
    } else if command == SB_LINEDOWN {
        Some(current + metrics.line_step)
    } else if command == SB_PAGEUP {
        Some(current - metrics.page_step)
    } else if command == SB_PAGEDOWN {
        Some(current + metrics.page_step)
    } else if command == SB_THUMBPOSITION || command == SB_THUMBTRACK {
        match track_position {
            Some(position) => Some(position as int),
            None => Some(current),
        }
    } else if command == SB_TOP {
        Some(0)
    } else if command == SB_BOTTOM {
        Some(metrics.max_offset as int)
    } else {
        None
    }
}

/// Row and page requests move by exactly one row or one page from the current offset, up or
/// down, and a step down undoes a step up (and the other way round); the thumb asks for where it
/// was dragged, the top for zero and the bottom for the largest offset.
pub proof fn scroll_requests_step_by_one_row_or_page(
    current: int,
    metrics: CommandButtonScrollMetrics,
    track_position: Option<i32>,
)
    ensures
        requested_offset(SB_LINEUP, current, metrics, track_position) == Some(
            current - metrics.line_step,
        ),
        requested_offset(SB_LINEDOWN, current, metrics, track_position) == Some(
            current + metrics.line_step,
        ),
        requested_offset(SB_PAGEUP, current, metrics, track_position) == Some(
            current - metrics.page_step,
        ),
        requested_offset(SB_PAGEDOWN, current, metrics, track_position) == Some(
            current + metrics.page_step,
        ),
        requested_offset(
            SB_PAGEDOWN,
            requested_offset(SB_PAGEUP, current, metrics, track_position)->0,
            metrics,
            track_position,
        ) == Some(current),
        requested_offset(
            SB_PAGEUP,
            requested_offset(SB_PAGEDOWN, current, metrics, track_position)->0,
            metrics,
            track_position,
        ) == Some(current),
        requested_offset(
            SB_LINEDOWN,
            requested_offset(SB_LINEUP, current, metrics, track_position)->0,
            metrics,
            track_position,
        ) == Some(current),
        requested_offset(
            SB_LINEUP,
            requested_offset(SB_LINEDOWN, current, metrics, track_position)->0,
            metrics,
            track_position,
        ) == Some(current),
        track_position is Some ==> requested_offset(
            SB_THUMBTRACK,
            current,
            metrics,
            track_position,
        ) == Some(track_position.unwrap() as int),
        track_position is None ==> requested_offset(SB_THUMBTRACK, current, metrics, track_position)
            == Some(current),
        requested_offset(SB_TOP, current, metrics, track_position) == Some(0int),
        requested_offset(SB_BOTTOM, current, metrics, track_position) == Some(
            metrics.max_offset as int,
        ),
{
}

/// Computes the offset a scroll-bar request asks for.
pub fn scroll_request_target(
    command: u32,
    current: i32,
    metrics: CommandButtonScrollMetrics,
    track_position: Option<i32>,
) -> (target: Option<i32>)
    requires
        command == SB_LINEUP ==> fits_i32(current - metrics.line_step),
        command == SB_LINEDOWN ==> fits_i32(current + metrics.line_step),
        command == SB_PAGEUP ==> fits_i32(current - metrics.page_step),
        command == SB_PAGEDOWN ==> fits_i32(current + metrics.page_step),
    ensures
        match target {
            Some(t) => requested_offset(command, current as int, metrics, track_position) == Some(
                t as int,
            ),
            None => requested_offset(command, current as int, metrics, track_position) is None,
        },
{
    if command == SB_LINEUP {
        Some(current - metrics.line_step)
    } else if command == SB_LINEDOWN {
        Some(current + metrics.line_step)
    } else if command == SB_PAGEUP {
        Some(current - metrics.page_step)
    } else if command == SB_PAGEDOWN {
        Some(current + metrics.page_step)
    } else if command == SB_THUMBPOSITION || command == SB_THUMBTRACK {
        match track_position {
            Some(position) => Some(position),
            None => Some(current),
        }
    } else if command == SB_TOP {
        Some(0)
    } else if command == SB_BOTTOM {
        Some(metrics.max_offset)
    } else {
        None
    }
}

/// One mouse-wheel notch.
pub const WHEEL_DELTA: i32 = 120;

/// The number of notches a wheel turn counts: every started notch, at least one.
pub open spec fn wheel_notches(wheel_delta: int) -> int {
    let magnitude = if wheel_delta < 0 {
        -wheel_delta
    } else {
        wheel_delta
    };
    max_int((magnitude + WHEEL_DELTA - 1) / (WHEEL_DELTA as int), 1)
}

/// The direction of a wheel turn: up (-1) for a positive turn, down (1) otherwise.
pub open spec fn wheel_direction(wheel_delta: int) -> int {
    if wheel_delta > 0 {
        -1
    } else {
        1
    }
}

/// The offset a wheel turn asks for: three rows per started notch, up for a positive turn and
/// down for a negative one; no turn asks for nothing.
pub open spec fn wheel_offset(current: int, wheel_delta: int, line_step: int) -> Option<int> {
    if wheel_delta == 0 {
        None
    } else {
        Some(current + wheel_direction(wheel_delta) * line_step * wheel_notches(wheel_delta) * 3)
    }
}

/// Computes the offset a wheel turn of `wheel_delta` (a signed 16-bit value) asks for.
pub fn wheel_scroll_target(current: i32, wheel_delta: i32, line_step: i32) -> (target: Option<i32>)
    requires
        -32768 <= wheel_delta <= 32767,
        wheel_delta != 0 ==> {
            let step = wheel_direction(wheel_delta as int) * line_step;
            &&& fits_i32(step)
            &&& fits_i32(step * wheel_notches(wheel_delta as int))
            &&& fits_i32(step * wheel_notches(wheel_delta as int) * 3)
            &&& fits_i32(current + step * wheel_notches(wheel_delta as int) * 3)
        },
    ensures
        match target {
            Some(t) => wheel_offset(current as int, wheel_delta as int, line_step as int) == Some(
                t as int,
            ),
            None => wheel_offset(current as int, wheel_delta as int, line_step as int) is None,
        },
{
    if wheel_delta == 0 {
        return None;
    }
    let magnitude = if wheel_delta < 0 {
        -wheel_delta
    } else {
        wheel_delta
    };
    let counted = (magnitude + WHEEL_DELTA - 1) / WHEEL_DELTA;
    let notches = if counted > 1 {
        counted
    } else {
        1
    };
    let direction: i32 = if wheel_delta > 0 {
        -1
    } else {
        1
    };
    Some(current + direction * line_step * notches * 3)
}

} // verus!
