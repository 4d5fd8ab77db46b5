//! Plain rectangles, sizes and points in pixels.

use vstd::prelude::*;

verus! {

/// A rectangle given by its top-left corner and its size.
#[derive(Clone, Copy, Debug, PartialEq, Eq, Structural)]
pub struct RectSpec {
    pub x: i32,
    pub y: i32,
    pub width: i32,
    pub height: i32,
}

/// The size of a window's client area.
#[derive(Clone, Copy, Debug, PartialEq, Eq, Structural)]
pub struct ClientSize {
    pub width: i32,
    pub height: i32,
}

/// The outer size of a top-level window.
#[derive(Clone, Copy, Debug, PartialEq, Eq, Structural)]
pub struct WindowSize {
    pub width: i32,
    pub height: i32,
}

/// A point in client coordinates.
#[derive(Clone, Copy, Debug, PartialEq, Eq, Structural)]
pub struct Point {
    pub x: i32,
    pub y: i32,
}

/// `value` when it is positive, else zero.
pub open spec fn non_negative(value: int) -> int {
    if value < 0 {
        0
    } else {
        value
    }
}

/// Whether a rectangle's edges fit in `i32`.
pub open spec fn rect_in_range(rect: RectSpec) -> bool {
    rect.x + rect.width <= i32::MAX && rect.y + rect.height <= i32::MAX && rect.x + rect.width
        >= i32::MIN && rect.y + rect.height >= i32::MIN
}

/// The rectangle between four edges; a reversed pair of edges gives a zero size.
pub fn rect_spec_from_edges(left: i32, top: i32, right: i32, bottom: i32) -> (rect: RectSpec)
    requires
        i32::MIN <= right - left <= i32::MAX,
        i32::MIN <= bottom - top <= i32::MAX,
    ensures
        rect == (RectSpec {
            x: left,
            y: top,
            width: non_negative(right - left) as i32,
            height: non_negative(bottom - top) as i32,
        }),
{
    let width = right - left;
    let height = bottom - top;
    RectSpec {
        x: left,
        y: top,
        width: if width < 0 {
            0
        } else {
            width
        },
        height: if height < 0 {
            0
        } else {
            height
        },
    }
}

/// Whether `point` lies inside `rect` (left and top edges included, right and bottom excluded).
pub open spec fn point_inside(point: Point, rect: RectSpec) -> bool {
    rect.x <= point.x < rect.x + rect.width && rect.y <= point.y < rect.y + rect.height
}

/// Whether `point` lies inside `rect`.
pub fn point_in_rect_spec(point: Point, rect: RectSpec) -> (inside: bool)
    requires
        rect_in_range(rect),
    ensures
        inside == point_inside(point, rect),
{
    point.x >= rect.x && point.x < rect.x + rect.width && point.y >= rect.y && point.y < rect.y
        + rect.height
}

/// How far a window of `extent` pixels is moved in to stand centered over an owner of
/// `owner_extent` pixels; a window larger than its owner is not moved in.
pub open spec fn centered_offset(owner_extent: int, extent: int) -> int {
    non_negative(owner_extent - extent) / 2
}

/// Where a dialog of `width` by `height` pixels opens to stand centered over its owner window,
/// whose outer rectangle has the edges `left`, `top`, `right`, `bottom`.
pub fn centered_window_position(
    left: i32,
    top: i32,
    right: i32,
    bottom: i32,
    width: i32,
    height: i32,
) -> (position: (i32, i32))
    requires
        i32::MIN <= right - left - width <= i32::MAX,
        i32::MIN <= bottom - top - height <= i32::MAX,
        i32::MIN <= right - left <= i32::MAX,
        i32::MIN <= bottom - top <= i32::MAX,
        left + centered_offset(right - left, width as int) <= i32::MAX,
        top + centered_offset(bottom - top, height as int) <= i32::MAX,
    ensures
        position.0 == left + centered_offset(right - left, width as int),
        position.1 == top + centered_offset(bottom - top, height as int),
{
    let owner_width = right - left;
    let owner_height = bottom - top;
    let spare_width = owner_width - width;
    let spare_height = owner_height - height;
    let x_offset = if spare_width > 0 {
        spare_width / 2
    } else {
        0
    };
    let y_offset = if spare_height > 0 {
        spare_height / 2
    } else {
        0
    };
    (left + x_offset, top + y_offset)
}

} // verus!
