//! The grid of command buttons on the command tab page, and its vertical scrolling.
//!
//! Buttons are laid out left to right, top to bottom, in columns as wide as the preferred button
//! width allows (narrowed to the page when it is too small). The page scrolls by whole rows.

use vstd::prelude::*;

use crate::geometry::{non_negative, point_inside, rect_spec_from_edges, Point, RectSpec};
use crate::scaling::{
    clamp_int, dpi_scaled, font_extra, font_size_extra, scale_dimension_for_dpi,
};

verus! {

/// First control ID of the command buttons; button `i` gets `COMMAND_BUTTON_CONTROL_ID_BASE + i`.
pub const COMMAND_BUTTON_CONTROL_ID_BASE: i32 = 6000;

/// Control ID of the command tab selector drop-down.
pub const COMMAND_TAB_SELECTOR_CONTROL_ID: i32 = 5500;

/// Smallest width of a command button, at 96 DPI.
pub const MIN_COMMAND_BUTTON_WIDTH: i32 = 96;

/// Preferred width of a command button at the default font size, at 96 DPI.
pub const COMMAND_BUTTON_PREFERRED_WIDTH: i32 = 132;

/// Space between the page edge and the buttons, at 96 DPI.
pub const COMMAND_BUTTON_HORIZONTAL_PADDING: i32 = 10;

/// Height of the command tab selector at the default font size, at 96 DPI.
pub const COMMAND_TAB_SELECTOR_HEIGHT: i32 = 24;

/// Gap between the selector and the button page, at 96 DPI.
pub const COMMAND_TAB_SELECTOR_PAGE_GAP: i32 = 6;

/// Extra height of the opened selector list, at 96 DPI.
pub const COMMAND_TAB_SELECTOR_DROPDOWN_EXTRA_HEIGHT: i32 = 144;

/// The smaller of two integers.
pub open spec fn min_int(a: int, b: int) -> int {
    if a < b {
        a
    } else {
        b
    }
}

/// The larger of two integers.
pub open spec fn max_int(a: int, b: int) -> int {
    if a > b {
        a
    } else {
        b
    }
}

/// Whether `v` fits in `i32`.
pub open spec fn fits_i32(v: int) -> bool {
    i32::MIN <= v <= i32::MAX
}

/// The grid of `count` command buttons: the first button's corner, the button size, the gap
/// between buttons, the usable width of the page and the number of columns.
#[derive(Clone, Copy, Debug)]
pub struct CommandButtonRects {
    pub count: usize,
    pub columns: usize,
    pub left: i32,
    pub top: i32,
    pub button_width: i32,
    pub button_height: i32,
    pub gap: i32,
    pub usable_width: i32,
}

/// The grid for `count` buttons in `panel`, by the layout rules, before it is moved into the
/// coordinates of a parent window. The result is meaningful when `grid_fits` holds.
pub open spec fn grid_for(panel: RectSpec, count: int, font_size: int, dpi: int) -> CommandButtonRects {
    let extra = font_extra(font_size);
    let preferred = dpi_scaled(COMMAND_BUTTON_PREFERRED_WIDTH + extra * 12, 96, dpi);
    let minimum = max_int(dpi_scaled(MIN_COMMAND_BUTTON_WIDTH as int, 96, dpi), 1);
    let height = dpi_scaled(30 + extra * 2, 96, dpi);
    let gap = dpi_scaled(8 + min_int(extra, 4), 96, dpi);
    let padding = dpi_scaled(COMMAND_BUTTON_HORIZONTAL_PADDING as int, 96, dpi);
    let usable = max_int(max_int(panel.width - padding * 2, minimum), 1);
    let width = min_int(preferred, usable);
    let columns = max_int((usable + gap) / (width + gap), 1);
    CommandButtonRects {
        count: count as usize,
        columns: columns as usize,
        left: (panel.x + padding) as i32,
        top: (panel.y + dpi_scaled(34 + extra * 2, 96, dpi)) as i32,
        button_width: width as i32,
        button_height: height as i32,
        gap: gap as i32,
        usable_width: usable as i32,
    }
}

/// Whether the grid arithmetic for `panel` stays within `i32`.
pub open spec fn grid_fits(panel: RectSpec, font_size: int, dpi: int) -> bool {
    let extra = font_extra(font_size);
    let preferred = dpi_scaled(COMMAND_BUTTON_PREFERRED_WIDTH + extra * 12, 96, dpi);
    let gap = dpi_scaled(8 + min_int(extra, 4), 96, dpi);
    let padding = dpi_scaled(COMMAND_BUTTON_HORIZONTAL_PADDING as int, 96, dpi);
    let usable = max_int(
        max_int(panel.width - padding * 2, max_int(dpi_scaled(96, 96, dpi), 1)),
        1,
    );
    &&& fits_i32(panel.x + padding)
    &&& fits_i32(panel.y + dpi_scaled(34 + extra * 2, 96, dpi))
    &&& fits_i32(padding * 2)
    &&& fits_i32(panel.width - padding * 2)
    &&& fits_i32(usable + gap)
    &&& fits_i32(min_int(preferred, usable) + gap)
    &&& fits_i32(dpi_scaled(30 + extra * 2, 96, dpi) + gap)
}

/// Whether the grid's fields are consistent: at least one column, a positive button width no
/// wider than the page, and no negative height or gap.
pub open spec fn grid_wf(grid: CommandButtonRects) -> bool {
    &&& grid.columns >= 1
    &&& 1 <= grid.button_width <= grid.usable_width
    &&& grid.button_height >= 0
    &&& grid.gap >= 0
    &&& fits_i32(grid.button_width + grid.gap)
    &&& fits_i32(grid.button_height + grid.gap)
}

/// The column of button `index`.
pub open spec fn grid_column(grid: CommandButtonRects, index: int) -> int {
    index % (grid.columns as int)
}

/// The row of button `index`.
pub open spec fn grid_row(grid: CommandButtonRects, index: int) -> int {
    index / (grid.columns as int)
}

/// The left edge of button `index`.
pub open spec fn grid_x(grid: CommandButtonRects, index: int) -> int {
    grid.left + grid_column(grid, index) * (grid.button_width + grid.gap)
}

/// The top edge of button `index`.
pub open spec fn grid_y(grid: CommandButtonRects, index: int) -> int {
    grid.top + grid_row(grid, index) * (grid.button_height + grid.gap)
}

/// Whether the rectangle of button `index` can be written in `i32`.
pub open spec fn grid_rect_fits(grid: CommandButtonRects, index: int) -> bool {
    fits_i32(grid_x(grid, index)) && fits_i32(grid_y(grid, index)) && fits_i32(
        grid_column(grid, index) * (grid.button_width + grid.gap),
    ) && fits_i32(grid_row(grid, index) * (grid.button_height + grid.gap)) && fits_i32(
        grid_row(grid, index),
    )
}

/// The rectangle of button `index`.
pub open spec fn grid_rect(grid: CommandButtonRects, index: int) -> RectSpec {
    RectSpec {
        x: grid_x(grid, index) as i32,
        y: grid_y(grid, index) as i32,
        width: min_int(grid.button_width as int, grid.usable_width as int) as i32,
        height: grid.button_height,
    }
}

/// Whether every button rectangle can be written in `i32`.
pub open spec fn grid_rects_fit(grid: CommandButtonRects) -> bool {
    forall|i: int| 0 <= i < grid.count ==> #[trigger] grid_rect_fits(grid, i)
}

/// The button under a point, by the hit-testing rules: the point must lie in a button cell, not
/// in the gaps, in an existing column, and name a button that exists.
pub open spec fn grid_hit(grid: CommandButtonRects, point: Point) -> Option<usize> {
    let width = min_int(grid.button_width as int, grid.usable_width as int);
    let height = grid.button_height as int;
    let column_stride = grid.button_width + grid.gap;
    let row_stride = grid.button_height + grid.gap;
    let columns = grid.columns as int;
    let dx = point.x - grid.left;
    let dy = point.y - grid.top;
    if width <= 0 || height <= 0 || column_stride <= 0 || row_stride <= 0 || columns <= 0
        || columns > i64::MAX {
        None
    } else if dx < 0 || dy < 0 {
        None
    } else {
        let column = dx / column_stride;
        let row = dy / row_stride;
        let index = row * columns + column;
        if column >= columns || dx % column_stride >= width || dy % row_stride >= height {
            None
        } else if row * columns > i64::MAX || index > i64::MAX || index >= grid.count {
            None
        } else {
            Some(index as usize)
        }
    }
}

proof fn lemma_scaled_positive(value: int, dpi: int)
    requires
        value >= 0,
    ensures
        dpi_scaled(value, 96, dpi) >= 0,
        value >= 96 ==> dpi_scaled(value, 96, dpi) >= 1,
{
    let to = if dpi < 1 {
        1
    } else {
        dpi
    };
    assert(value * to >= 0) by (nonlinear_arith)
        requires
            value >= 0,
            to >= 1,
    ;
    assert(value >= 96 ==> value * to >= 96) by (nonlinear_arith)
        requires
            to >= 1,
    ;
}

/// Computes the button grid for `count` buttons in `panel`.
pub fn command_button_rects(panel: RectSpec, count: usize, font_size: u16, dpi: u32) -> (rects:
    CommandButtonRects)
    requires
        grid_fits(panel, font_size as int, dpi as int),
    ensures
        rects == grid_for(panel, count as int, font_size as int, dpi as int),
        grid_wf(rects),
{
    let extra = font_size_extra(font_size);
    let ghost e = font_extra(font_size as int);
    proof {
        lemma_scaled_positive(COMMAND_BUTTON_PREFERRED_WIDTH + e * 12, dpi as int);
        lemma_scaled_positive(30 + e * 2, dpi as int);
        lemma_scaled_positive(8 + min_int(e, 4), dpi as int);
        lemma_scaled_positive(34 + e * 2, dpi as int);
        lemma_scaled_positive(COMMAND_BUTTON_HORIZONTAL_PADDING as int, dpi as int);
    }
    let preferred_button_width = scale_dimension_for_dpi(
        COMMAND_BUTTON_PREFERRED_WIDTH + extra * 12,
        dpi,
    );
    let scaled_minimum = scale_dimension_for_dpi(MIN_COMMAND_BUTTON_WIDTH, dpi);
    let minimum_button_width = if scaled_minimum < 1 {
        1
    } else {
        scaled_minimum
    };
    let button_height = scale_dimension_for_dpi(30 + extra * 2, dpi);
    let gap = scale_dimension_for_dpi(8 + if extra < 4 {
        extra
    } else {
        4
    }, dpi);
    let horizontal_padding = scale_dimension_for_dpi(COMMAND_BUTTON_HORIZONTAL_PADDING, dpi);
    let left = panel.x + horizontal_padding;
    let top = panel.y + scale_dimension_for_dpi(34 + extra * 2, dpi);
    let inner = panel.width - horizontal_padding * 2;
    let wide = if inner > minimum_button_width {
        inner
    } else {
        minimum_button_width
    };
    let usable_width = if wide > 1 {
        wide
    } else {
        1
    };
    let button_width = if preferred_button_width < usable_width {
        preferred_button_width
    } else {
        usable_width
    };
    let fitted = (usable_width + gap) / (button_width + gap);
    let columns = if fitted > 1 {
        fitted
    } else {
        1
    };
    CommandButtonRects {
        count,
        columns: columns as usize,
        left,
        top,
        button_width,
        button_height,
        gap,
        usable_width,
    }
}

impl CommandButtonRects {
    /// The number of button rectangles.
    pub fn len(&self) -> (len: usize)
        ensures
            len == self.count,
    {
        self.count
    }

    /// The rectangle of button `index`.
    pub fn rect_at(&self, index: usize) -> (rect: RectSpec)
        requires
            grid_wf(*self),
            index < self.count,
            grid_rect_fits(*self, index as int),
        ensures
            rect == grid_rect(*self, index as int),
    {
        let column_index = index % self.columns;
        let row_index = index / self.columns;
        proof {
            let stride = self.button_width + self.gap;
            assert(0 <= column_index <= column_index * stride) by (nonlinear_arith)
                requires
                    stride >= 1,
                    column_index >= 0,
            ;
        }
        let column = column_index as i32;
        let row = row_index as i32;
        RectSpec {
            x: self.left + column * (self.button_width + self.gap),
            y: self.top + row * (self.button_height + self.gap),
            width: if self.button_width < self.usable_width {
                self.button_width
            } else {
                self.usable_width
            },
            height: self.button_height,
        }
    }

    /// All button rectangles in order.
    pub fn rects(&self) -> (rects: Vec<RectSpec>)
        requires
            grid_wf(*self),
            grid_rects_fit(*self),
        ensures
            rects@.len() == self.count,
            forall|i: int| 0 <= i < self.count ==> #[trigger] rects@[i] == grid_rect(*self, i),
    {
        let mut rects: Vec<RectSpec> = Vec::new();
        let mut index: usize = 0;
        while index < self.count
            invariant
                grid_wf(*self),
                grid_rects_fit(*self),
                index <= self.count,
                rects@.len() == index,
                forall|i: int| 0 <= i < index ==> #[trigger] rects@[i] == grid_rect(*self, i),
            decreases self.count - index,
        {
            assert(grid_rect_fits(*self, index as int));
            rects.push(self.rect_at(index));
            index = index + 1;
        }
        rects
    }

    /// The rectangle of the last button, if there is one.
    pub fn last(&self) -> (rect: Option<RectSpec>)
        requires
            grid_wf(*self),
            self.count > 0 ==> grid_rect_fits(*self, self.count - 1),
        ensures
            self.count == 0 ==> rect is None,
            self.count > 0 ==> rect == Some(grid_rect(*self, self.count - 1)),
    {
        if self.count == 0 {
            None
        } else {
            Some(self.rect_at(self.count - 1))
        }
    }

    /// The button under `point`, if any.
    pub fn index_at_point(&self, point: Point) -> (index: Option<usize>)
        ensures
            index == grid_hit(*self, point),
    {
        let width = (if self.button_width < self.usable_width {
            self.button_width
        } else {
            self.usable_width
        }) as i64;
        let height = self.button_height as i64;
        let column_stride = self.button_width as i64 + self.gap as i64;
        let row_stride = self.button_height as i64 + self.gap as i64;
        if self.columns as u64 > 0x7fff_ffff_ffff_ffffu64 {
            return None;
        }
        let columns = self.columns as i64;
        if width <= 0 || height <= 0 || column_stride <= 0 || row_stride <= 0 || columns <= 0 {
            return None;
        }
        let dx = point.x as i64 - self.left as i64;
        let dy = point.y as i64 - self.top as i64;
        if dx < 0 || dy < 0 {
            return None;
        }
        let column = dx / column_stride;
        let row = dy / row_stride;
        if column >= columns || dx % column_stride >= width || dy % row_stride >= height {
            return None;
        }
        let product = row.checked_mul(columns);
        let product = match product {
            Some(p) => p,
            None => return None,
        };
        let index = match product.checked_add(column) {
            Some(i) => i,
            None => return None,
        };
        if index as u64 >= self.count as u64 {
            return None;
        }
        Some(index as usize)
    }
}


/// The height of the closed command tab selector.
pub open spec fn selector_control_height(font_size: int, dpi: int) -> int {
    max_int(dpi_scaled(COMMAND_TAB_SELECTOR_HEIGHT + font_extra(font_size) * 2, 96, dpi), 1)
}

/// The gap between the selector and the button page.
pub open spec fn selector_gap(dpi: int) -> int {
    max_int(dpi_scaled(COMMAND_TAB_SELECTOR_PAGE_GAP as int, 96, dpi), 0)
}

/// The height given to the selector window, which includes its opened list: the control height
/// plus the list, but no taller than the panel, and never shorter than the control.
pub open spec fn selector_window_height(panel_height: int, font_size: int, dpi: int) -> int {
    let control = selector_control_height(font_size, dpi);
    max_int(
        min_int(
            control + dpi_scaled(COMMAND_TAB_SELECTOR_DROPDOWN_EXTRA_HEIGHT as int, 96, dpi),
            max_int(panel_height, control),
        ),
        control,
    )
}

/// The top edge of the button page inside `panel`.
pub open spec fn page_top(panel: RectSpec, font_size: int, dpi: int) -> int {
    panel.y + selector_control_height(font_size, dpi) + selector_gap(dpi)
}

/// Computes the height of the closed command tab selector.
pub fn command_tab_selector_control_height(font_size: u16, dpi: u32) -> (height: i32)
    ensures
        height == selector_control_height(font_size as int, dpi as int),
        height >= 1,
{
    let extra = font_size_extra(font_size);
    let scaled = scale_dimension_for_dpi(COMMAND_TAB_SELECTOR_HEIGHT + extra * 2, dpi);
    if scaled < 1 {
        1
    } else {
        scaled
    }
}

/// Computes the gap between the selector and the button page.
pub fn command_tab_selector_gap(dpi: u32) -> (gap: i32)
    ensures
        gap == selector_gap(dpi as int),
        gap >= 0,
{
    let scaled = scale_dimension_for_dpi(COMMAND_TAB_SELECTOR_PAGE_GAP, dpi);
    if scaled < 0 {
        0
    } else {
        scaled
    }
}

/// The rectangle of the command tab selector window at the top of `panel`.
pub fn command_tab_selector_rect(panel: RectSpec, font_size: u16, dpi: u32) -> (rect: RectSpec)
    requires
        fits_i32(
            selector_control_height(font_size as int, dpi as int) + dpi_scaled(
                COMMAND_TAB_SELECTOR_DROPDOWN_EXTRA_HEIGHT as int,
                96,
                dpi as int,
            ),
        ),
        fits_i32(panel.x + panel.width),
        fits_i32(panel.y + selector_window_height(panel.height as int, font_size as int, dpi as int)),
    ensures
        rect == (RectSpec {
            x: panel.x,
            y: panel.y,
            width: non_negative(panel.width as int) as i32,
            height: selector_window_height(panel.height as int, font_size as int, dpi as int) as i32,
        }),
{
    let control_height = command_tab_selector_control_height(font_size, dpi);
    let with_list = control_height + scale_dimension_for_dpi(
        COMMAND_TAB_SELECTOR_DROPDOWN_EXTRA_HEIGHT,
        dpi,
    );
    let room = if panel.height > control_height {
        panel.height
    } else {
        control_height
    };
    let limited = if with_list < room {
        with_list
    } else {
        room
    };
    let dropdown_height = if limited > control_height {
        limited
    } else {
        control_height
    };
    rect_spec_from_edges(panel.x, panel.y, panel.x + panel.width, panel.y + dropdown_height)
}

/// The rectangle of the scrolling button page under the selector in `panel`.
pub fn command_tab_page_rect(panel: RectSpec, font_size: u16, dpi: u32) -> (rect: RectSpec)
    requires
        fits_i32(panel.y + selector_control_height(font_size as int, dpi as int)),
        fits_i32(page_top(panel, font_size as int, dpi as int)),
        fits_i32(panel.x + panel.width),
        fits_i32(panel.y + panel.height),
        fits_i32(panel.y + panel.height - page_top(panel, font_size as int, dpi as int)),
    ensures
        rect == (RectSpec {
            x: panel.x,
            y: page_top(panel, font_size as int, dpi as int) as i32,
            width: non_negative(panel.width as int) as i32,
            height: non_negative(
                panel.y + panel.height - page_top(panel, font_size as int, dpi as int),
            ) as i32,
        }),
{
    let top = panel.y + command_tab_selector_control_height(font_size, dpi)
        + command_tab_selector_gap(dpi);
    rect_spec_from_edges(panel.x, top, panel.x + panel.width, panel.y + panel.height)
}

/// The grid of `grid_for`, moved into the coordinates of the page `parent` and scrolled down by
/// `scroll_offset` (a negative offset counts as zero).
pub open spec fn grid_in_parent(
    panel: RectSpec,
    parent: RectSpec,
    count: int,
    font_size: int,
    dpi: int,
    scroll_offset: int,
) -> CommandButtonRects {
    let grid = grid_for(panel, count, font_size, dpi);
    CommandButtonRects {
        left: (grid.left - parent.x) as i32,
        top: (grid.top - (parent.y + non_negative(scroll_offset))) as i32,
        ..grid
    }
}

/// Whether moving the grid into `parent` and scrolling it stays within `i32`.
pub open spec fn grid_in_parent_fits(
    panel: RectSpec,
    parent: RectSpec,
    font_size: int,
    dpi: int,
    scroll_offset: int,
) -> bool {
    let grid = grid_for(panel, 0, font_size, dpi);
    &&& grid_fits(panel, font_size, dpi)
    &&& fits_i32(grid.left - parent.x)
    &&& fits_i32(parent.y + non_negative(scroll_offset))
    &&& fits_i32(grid.top - (parent.y + non_negative(scroll_offset)))
}

/// Computes the button grid in the coordinates of the page window `parent`, scrolled by
/// `scroll_offset`.
pub fn command_button_rects_in_parent(
    panel: RectSpec,
    parent: RectSpec,
    count: usize,
    font_size: u16,
    dpi: u32,
    scroll_offset: i32,
) -> (rects: CommandButtonRects)
    requires
        grid_in_parent_fits(panel, parent, font_size as int, dpi as int, scroll_offset as int),
    ensures
        rects == grid_in_parent(
            panel,
            parent,
            count as int,
            font_size as int,
            dpi as int,
            scroll_offset as int,
        ),
        grid_wf(rects),
{
    let mut rects = command_button_rects(panel, count, font_size, dpi);
    let offset = if scroll_offset < 0 {
        0
    } else {
        scroll_offset
    };
    rects.left = rects.left - parent.x;
    rects.top = rects.top - (parent.y + offset);
    rects
}


/// Every point of button `index`'s rectangle hits button `index`: the hit test agrees with the
/// layout on every cell of the grid.
pub proof fn hit_test_finds_button_under_point(grid: CommandButtonRects, index: int, point: Point)
    requires
        grid_wf(grid),
        0 <= index < grid.count,
        index <= i64::MAX,
        grid.columns <= i64::MAX,
        grid_rect_fits(grid, index),
        point_inside(point, grid_rect(grid, index)),
    ensures
        grid_hit(grid, point) == Some(index as usize),
{
    let columns = grid.columns as int;
    let column_stride = grid.button_width + grid.gap;
    let row_stride = grid.button_height + grid.gap;
    let column = grid_column(grid, index);
    let row = grid_row(grid, index);
    let dx = point.x - grid.left;
    let dy = point.y - grid.top;
    vstd::arithmetic::div_mod::lemma_fundamental_div_mod(index, columns);
    assert(0 <= column < columns);
    assert(row >= 0) by (nonlinear_arith)
        requires
            index >= 0,
            columns >= 1,
            row == index / columns,
    ;
    assert(dx == column * column_stride + (dx - column * column_stride));
    vstd::arithmetic::div_mod::lemma_fundamental_div_mod_converse(
        dx,
        column_stride,
        column,
        dx - column * column_stride,
    );
    vstd::arithmetic::div_mod::lemma_fundamental_div_mod_converse(
        dy,
        row_stride,
        row,
        dy - row * row_stride,
    );
    assert(0 <= row * columns <= index) by (nonlinear_arith)
        requires
            row >= 0,
            columns >= 1,
            row * columns + column == index,
            column >= 0,
    ;
    assert(dx >= 0 && dy >= 0) by (nonlinear_arith)
        requires
            column >= 0,
            row >= 0,
            column_stride >= 1,
            row_stride >= 0,
            dx >= column * column_stride,
            dy >= row * row_stride,
    ;
}

/// A point that hits a button lies inside that button's rectangle.
pub proof fn hit_button_contains_point(grid: CommandButtonRects, point: Point)
    requires
        grid_wf(grid),
        grid_hit(grid, point) is Some,
        grid_rect_fits(grid, grid_hit(grid, point)->0 as int),
    ensures
        grid_hit(grid, point)->0 < grid.count,
        point_inside(point, grid_rect(grid, grid_hit(grid, point)->0 as int)),
{
    let index = grid_hit(grid, point)->0 as int;
    let columns = grid.columns as int;
    let column_stride = grid.button_width + grid.gap;
    let row_stride = grid.button_height + grid.gap;
    let dx = point.x - grid.left;
    let dy = point.y - grid.top;
    let column = dx / column_stride;
    let row = dy / row_stride;
    vstd::arithmetic::div_mod::lemma_fundamental_div_mod(dx, column_stride);
    vstd::arithmetic::div_mod::lemma_fundamental_div_mod(dy, row_stride);
    assert(row >= 0) by (nonlinear_arith)
        requires
            dy >= 0,
            row_stride >= 1,
            row == dy / row_stride,
    ;
    vstd::arithmetic::div_mod::lemma_fundamental_div_mod_converse(index, columns, row, column);
    assert(column * column_stride == column_stride * column) by (nonlinear_arith);
    assert(row * row_stride == row_stride * row) by (nonlinear_arith);
}


/// The control ID of button `index`, when it fits in `i32`.
pub open spec fn control_id_for(index: int) -> Option<i32> {
    if 0 <= index <= i32::MAX - COMMAND_BUTTON_CONTROL_ID_BASE {
        Some((COMMAND_BUTTON_CONTROL_ID_BASE + index) as i32)
    } else {
        None
    }
}

/// The button index named by a control ID, when the ID belongs to a command button.
pub open spec fn index_for_control_id(control_id: int) -> Option<usize> {
    if COMMAND_BUTTON_CONTROL_ID_BASE <= control_id <= i32::MAX {
        Some((control_id - COMMAND_BUTTON_CONTROL_ID_BASE) as usize)
    } else {
        None
    }
}

/// Computes the control ID of button `index`.
pub fn command_button_control_id(index: usize) -> (id: Option<i32>)
    ensures
        id == control_id_for(index as int),
{
    if index > (i32::MAX - COMMAND_BUTTON_CONTROL_ID_BASE) as usize {
        None
    } else {
        Some(COMMAND_BUTTON_CONTROL_ID_BASE + index as i32)
    }
}

/// Finds the button index named by a control ID.
pub fn command_button_index_from_control_id(control_id: u32) -> (index: Option<usize>)
    ensures
        index == index_for_control_id(control_id as int),
{
    if control_id > i32::MAX as u32 {
        return None;
    }
    let id = control_id as i32;
    if id < COMMAND_BUTTON_CONTROL_ID_BASE {
        return None;
    }
    Some((id - COMMAND_BUTTON_CONTROL_ID_BASE) as usize)
}

/// A button's control ID leads back to the button.
pub proof fn control_id_round_trip(index: int)
    requires
        control_id_for(index) is Some,
    ensures
        index_for_control_id(control_id_for(index)->0 as int) == Some(index as usize),
{
}


/// How far, at 96 DPI, a pressed button must be dragged before the press becomes a drag.
pub const COMMAND_BUTTON_DRAG_THRESHOLD: i32 = 4;

/// Whether the pointer has moved from the press point by the drag threshold (at least one pixel)
/// along either axis.
pub open spec fn drag_started(start_x: int, start_y: int, point: Point, dpi: int) -> bool {
    let threshold = max_int(dpi_scaled(COMMAND_BUTTON_DRAG_THRESHOLD as int, 96, dpi), 1);
    let dx = point.x - start_x;
    let dy = point.y - start_y;
    (if dx < 0 {
        -dx
    } else {
        dx
    }) >= threshold || (if dy < 0 {
        -dy
    } else {
        dy
    }) >= threshold
}

/// Whether a press on a command button has turned into a drag.
pub fn command_button_drag_exceeds_threshold(
    start_x: i32,
    start_y: i32,
    point: Point,
    dpi: u32,
) -> (started: bool)
    ensures
        started == drag_started(start_x as int, start_y as int, point, dpi as int),
{
    let scaled = scale_dimension_for_dpi(COMMAND_BUTTON_DRAG_THRESHOLD, dpi);
    let threshold: i64 = if scaled < 1 {
        1
    } else {
        scaled as i64
    };
    let dx: i64 = point.x as i64 - start_x as i64;
    let dy: i64 = point.y as i64 - start_y as i64;
    let distance_x = if dx < 0 {
        -dx
    } else {
        dx
    };
    let distance_y = if dy < 0 {
        -dy
    } else {
        dy
    };
    distance_x >= threshold || distance_y >= threshold
}

/// Window style bit: a child window.
pub const WS_CHILD: u32 = 0x4000_0000;
/// Window style bit: a window that is shown.
pub const WS_VISIBLE: u32 = 0x1000_0000;
/// Window style bit: a window that does not paint over its children.
pub const WS_CLIPCHILDREN: u32 = 0x0200_0000;
/// Window style bit: a window that does not paint over its siblings.
pub const WS_CLIPSIBLINGS: u32 = 0x0400_0000;
/// Window style bit: a window with a vertical scroll bar.
pub const WS_VSCROLL: u32 = 0x0020_0000;
/// Window style bit: a control that the Tab key reaches.
pub const WS_TABSTOP: u32 = 0x0001_0000;
/// Window style bit: a push button.
pub const BS_PUSHBUTTON: u32 = 0;
/// Window style bit: a button whose text is aligned left.
pub const BS_LEFT: u32 = 0x100;

/// The window style of the scrolling button page: a visible child that clips its buttons and has
/// a vertical scroll bar.
pub fn command_tab_page_window_style() -> (style: u32)
    ensures
        style == WS_CHILD | WS_VISIBLE | WS_CLIPCHILDREN | WS_VSCROLL,
{
    WS_CHILD | WS_VISIBLE | WS_CLIPCHILDREN | WS_VSCROLL
}

/// The window style of a command button: a visible, tab-stop push button with left-aligned text
/// that clips its siblings.
pub fn command_button_window_style() -> (style: u32)
    ensures
        style == WS_CHILD | WS_VISIBLE | WS_TABSTOP | WS_CLIPSIBLINGS | BS_PUSHBUTTON | BS_LEFT,
{
    WS_CHILD | WS_VISIBLE | WS_TABSTOP | WS_CLIPSIBLINGS | BS_PUSHBUTTON | BS_LEFT
}

} // verus!
