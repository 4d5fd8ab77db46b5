use j3devhelper::button_scroll::{
    command_button_scroll_metrics, scroll_request_target, wheel_scroll_target, SB_BOTTOM,
    SB_LINEDOWN, SB_LINEUP, SB_PAGEDOWN, SB_THUMBTRACK, SB_TOP,
    command_button_aligned_scroll_offset, command_button_effective_max_scroll_offset,
    command_button_max_scroll_offset, command_button_scroll_content_height,
    command_button_scroll_line_step, command_button_scrollbar_content_height, max_scroll_offset,
};
use j3devhelper::command_buttons as styles;
use j3devhelper::command_buttons::{
    command_button_drag_exceeds_threshold, command_button_window_style,
    command_tab_page_window_style,
    command_button_control_id, command_button_index_from_control_id,
    command_button_rects, command_button_rects_in_parent, command_tab_page_rect,
    command_tab_selector_control_height, command_tab_selector_gap, command_tab_selector_rect,
};
use j3devhelper::geometry::{Point, RectSpec};
use j3devhelper::scaling::DEFAULT_FONT_SIZE;
use windows_sys::Win32::UI::WindowsAndMessaging as win;

fn sample_panel() -> RectSpec {
    RectSpec {
        x: 20,
        y: 30,
        width: 320,
        height: 240,
    }
}

fn sample_parent(height: i32) -> RectSpec {
    RectSpec {
        x: 24,
        y: 60,
        width: 312,
        height,
    }
}

#[test]
fn command_button_rects_keep_grid_order_without_precollecting() {
    let panel = sample_panel();
    let rects = command_button_rects(panel, 5, DEFAULT_FONT_SIZE, 96);
    assert_eq!(rects.len(), 5);

    let rects: Vec<_> = rects.rects();

    assert_eq!(rects[0].x, 30);
    assert_eq!(rects[0].y, 64);
    assert_eq!(rects[0].width, 132);
    assert_eq!(rects[0].height, 30);
    assert_eq!(rects[1].x, 170);
    assert_eq!(rects[1].y, 64);
    assert_eq!(rects[2].x, 30);
    assert_eq!(rects[2].y, 102);
    assert_eq!(rects[3].x, 170);
    assert_eq!(rects[3].y, 102);
    assert_eq!(rects[4].x, 30);
    assert_eq!(rects[4].y, 140);
}

#[test]
fn command_button_rects_shrink_to_narrow_panel() {
    let panel = RectSpec {
        x: 20,
        y: 30,
        width: 116,
        height: 240,
    };

    let rects: Vec<_> = command_button_rects(panel, 2, DEFAULT_FONT_SIZE, 96).rects();

    assert_eq!(rects[0].x, 30);
    assert_eq!(rects[0].width, 96);
    assert_eq!(rects[1].x, 30);
    assert_eq!(rects[1].y, 102);
}

#[test]
fn command_tab_selector_and_page_rect_reserve_dropdown_header() {
    let panel = sample_panel();

    let selector = command_tab_selector_rect(panel, DEFAULT_FONT_SIZE, 96);
    let page = command_tab_page_rect(panel, DEFAULT_FONT_SIZE, 96);

    assert_eq!(selector.x, 20);
    assert_eq!(selector.y, 30);
    assert_eq!(selector.width, 320);
    assert_eq!(selector.height, 168);
    assert_eq!(page.x, 20);
    assert_eq!(page.y, 60);
    assert_eq!(page.width, 320);
    assert_eq!(page.height, 210);
}

#[test]
fn command_button_rects_in_parent_keep_visual_position() {
    let rects: Vec<_> = command_button_rects_in_parent(
        sample_panel(),
        sample_parent(206),
        2,
        DEFAULT_FONT_SIZE,
        96,
        0,
    )
    .rects();

    assert_eq!(rects[0].x, 6);
    assert_eq!(rects[0].y, 4);
    assert_eq!(rects[1].x, 146);
    assert_eq!(rects[1].y, 4);
}

#[test]
fn command_button_rects_in_parent_apply_scroll_offset() {
    let rects: Vec<_> = command_button_rects_in_parent(
        sample_panel(),
        sample_parent(206),
        2,
        DEFAULT_FONT_SIZE,
        96,
        20,
    )
    .rects();

    assert_eq!(rects[0].x, 6);
    assert_eq!(rects[0].y, -16);
    assert_eq!(rects[1].x, 146);
    assert_eq!(rects[1].y, -16);
}

#[test]
fn command_button_rects_index_at_point_tracks_grid_cells_and_gaps() {
    let rects = command_button_rects_in_parent(
        sample_panel(),
        sample_parent(206),
        5,
        DEFAULT_FONT_SIZE,
        96,
        0,
    );

    assert_eq!(rects.index_at_point(Point { x: 6, y: 4 }), Some(0));
    assert_eq!(rects.index_at_point(Point { x: 137, y: 33 }), Some(0));
    assert_eq!(rects.index_at_point(Point { x: 138, y: 4 }), None);
    assert_eq!(rects.index_at_point(Point { x: 146, y: 4 }), Some(1));
    assert_eq!(rects.index_at_point(Point { x: 6, y: 34 }), None);
    assert_eq!(rects.index_at_point(Point { x: 6, y: 42 }), Some(2));
    assert_eq!(rects.index_at_point(Point { x: 146, y: 80 }), None);
}

#[test]
fn command_button_rects_index_at_point_applies_scroll_offset() {
    let rects = command_button_rects_in_parent(
        sample_panel(),
        sample_parent(206),
        5,
        DEFAULT_FONT_SIZE,
        96,
        20,
    );

    assert_eq!(rects.index_at_point(Point { x: 6, y: 4 }), Some(0));
    assert_eq!(rects.index_at_point(Point { x: 6, y: 14 }), None);
    assert_eq!(rects.index_at_point(Point { x: 6, y: 22 }), Some(2));
}

#[test]
fn command_button_max_scroll_offset_tracks_overflowing_rows() {
    let panel = sample_panel();
    let parent = sample_parent(70);

    assert_eq!(
        command_button_scroll_content_height(panel, parent, 5, DEFAULT_FONT_SIZE, 96),
        110
    );
    assert_eq!(
        command_button_max_scroll_offset(panel, parent, 5, DEFAULT_FONT_SIZE, 96),
        40
    );
    assert_eq!(
        command_button_max_scroll_offset(panel, parent, 2, DEFAULT_FONT_SIZE, 96),
        0
    );
}

#[test]
fn command_button_effective_max_scroll_offset_aligns_up_to_rows() {
    let line_step = command_button_scroll_line_step(DEFAULT_FONT_SIZE, 96);

    assert_eq!(line_step, 38);
    assert_eq!(command_button_effective_max_scroll_offset(0, line_step), 0);
    assert_eq!(command_button_effective_max_scroll_offset(20, line_step), 38);
    assert_eq!(command_button_effective_max_scroll_offset(50, line_step), 76);
    assert_eq!(command_button_effective_max_scroll_offset(120, line_step), 152);
}

#[test]
fn command_button_aligned_scroll_offset_snaps_to_nearest_row() {
    let line_step = command_button_scroll_line_step(DEFAULT_FONT_SIZE, 96);
    let max_offset = command_button_effective_max_scroll_offset(120, line_step);

    assert_eq!(command_button_aligned_scroll_offset(18, max_offset, line_step), 0);
    assert_eq!(command_button_aligned_scroll_offset(20, max_offset, line_step), 38);
    assert_eq!(command_button_aligned_scroll_offset(75, max_offset, line_step), 76);
    assert_eq!(command_button_aligned_scroll_offset(200, max_offset, line_step), 152);
}

#[test]
fn command_button_bottom_scroll_reveals_last_button() {
    let panel = sample_panel();
    let parent = sample_parent(70);
    let line_step = command_button_scroll_line_step(DEFAULT_FONT_SIZE, 96);
    let required_offset = command_button_max_scroll_offset(panel, parent, 5, DEFAULT_FONT_SIZE, 96);
    let max_offset = command_button_effective_max_scroll_offset(required_offset, line_step);

    let last = command_button_rects_in_parent(panel, parent, 5, DEFAULT_FONT_SIZE, 96, max_offset)
        .last()
        .expect("last command button should exist");

    assert!(last.y + last.height <= parent.height);
}

#[test]
fn hit_test_finds_every_corner_of_every_button() {
    let rects = command_button_rects_in_parent(
        sample_panel(),
        sample_parent(206),
        5,
        DEFAULT_FONT_SIZE,
        96,
        0,
    );
    for (index, rect) in rects.rects().iter().enumerate() {
        let corners = [
            Point { x: rect.x, y: rect.y },
            Point { x: rect.x + rect.width - 1, y: rect.y },
            Point { x: rect.x, y: rect.y + rect.height - 1 },
            Point { x: rect.x + rect.width - 1, y: rect.y + rect.height - 1 },
        ];
        for corner in corners {
            assert_eq!(rects.index_at_point(corner), Some(index));
        }
        assert_eq!(rects.index_at_point(Point { x: rect.x + rect.width, y: rect.y }), None);
    }
}

#[test]
fn selector_height_and_gap_follow_font_size_and_dpi() {
    assert_eq!(command_tab_selector_control_height(DEFAULT_FONT_SIZE, 96), 24);
    assert_eq!(command_tab_selector_control_height(20, 96), 40);
    assert_eq!(command_tab_selector_control_height(DEFAULT_FONT_SIZE, 144), 36);
    assert_eq!(command_tab_selector_gap(96), 6);
    assert_eq!(command_tab_selector_gap(192), 12);
}

#[test]
fn selector_rect_stays_inside_a_short_panel() {
    let panel = RectSpec {
        x: 0,
        y: 0,
        width: 200,
        height: 50,
    };
    assert_eq!(command_tab_selector_rect(panel, DEFAULT_FONT_SIZE, 96).height, 50);
    let tiny = RectSpec {
        x: 0,
        y: 0,
        width: -5,
        height: 10,
    };
    let selector = command_tab_selector_rect(tiny, DEFAULT_FONT_SIZE, 96);
    assert_eq!(selector.width, 0);
    assert_eq!(selector.height, 24);
}

#[test]
fn scroll_helpers_clamp_and_saturate() {
    assert_eq!(max_scroll_offset(110, 70), 40);
    assert_eq!(max_scroll_offset(50, 70), 0);
    assert_eq!(max_scroll_offset(50, -10), 50);
    assert_eq!(max_scroll_offset(i32::MIN, i32::MAX), 0);
    assert_eq!(command_button_scrollbar_content_height(70, 38), 108);
    assert_eq!(command_button_scrollbar_content_height(-5, -5), 1);
    assert_eq!(command_button_scrollbar_content_height(i32::MAX, 10), i32::MAX);
    assert_eq!(command_button_effective_max_scroll_offset(i32::MAX - 1, 38), i32::MAX);
    assert_eq!(command_button_effective_max_scroll_offset(-4, 38), 0);
    assert_eq!(command_button_aligned_scroll_offset(-20, 152, 38), 0);
    assert_eq!(command_button_aligned_scroll_offset(20, 0, 38), 0);
    assert_eq!(command_button_aligned_scroll_offset(20, 30, 38), 20);
    assert_eq!(command_button_aligned_scroll_offset(95, 100, 38), 100);
}

#[test]
fn control_ids_round_trip_and_reject_foreign_ids() {
    assert_eq!(command_button_control_id(0), Some(6000));
    assert_eq!(command_button_control_id(7), Some(6007));
    assert_eq!(command_button_control_id(i32::MAX as usize), None);
    assert_eq!(command_button_index_from_control_id(6007), Some(7));
    assert_eq!(command_button_index_from_control_id(5999), None);
    assert_eq!(command_button_index_from_control_id(u32::MAX), None);
    for index in [0usize, 1, 42, 1000] {
        let id = command_button_control_id(index).unwrap();
        assert_eq!(command_button_index_from_control_id(id as u32), Some(index));
    }
}

#[test]
fn command_button_window_style_keeps_buttons_inside_page_panel() {
    let style = command_button_window_style();

    assert_ne!(style & win::BS_LEFT as u32, 0);
    assert_ne!(style & win::WS_CLIPSIBLINGS, 0);
}

#[test]
fn command_tab_page_style_is_visible_page_container() {
    let style = command_tab_page_window_style();

    assert_ne!(style & win::WS_CHILD, 0);
    assert_ne!(style & win::WS_VISIBLE, 0);
    assert_ne!(style & win::WS_CLIPCHILDREN, 0);
    assert_ne!(style & win::WS_VSCROLL, 0);
    assert_eq!(style & win::WS_CLIPSIBLINGS, 0);
    assert_eq!(style & win::WS_TABSTOP, 0);
}

#[test]
fn style_constants_match_the_windows_headers() {
    assert_eq!(styles::WS_CHILD, win::WS_CHILD);
    assert_eq!(styles::WS_VISIBLE, win::WS_VISIBLE);
    assert_eq!(styles::WS_CLIPCHILDREN, win::WS_CLIPCHILDREN);
    assert_eq!(styles::WS_CLIPSIBLINGS, win::WS_CLIPSIBLINGS);
    assert_eq!(styles::WS_VSCROLL, win::WS_VSCROLL);
    assert_eq!(styles::WS_TABSTOP, win::WS_TABSTOP);
    assert_eq!(styles::BS_PUSHBUTTON, win::BS_PUSHBUTTON as u32);
    assert_eq!(styles::BS_LEFT, win::BS_LEFT as u32);
}

#[test]
fn drag_starts_after_the_scaled_threshold() {
    assert!(!command_button_drag_exceeds_threshold(10, 10, Point { x: 13, y: 7 }, 96));
    assert!(command_button_drag_exceeds_threshold(10, 10, Point { x: 14, y: 10 }, 96));
    assert!(command_button_drag_exceeds_threshold(10, 10, Point { x: 10, y: 6 }, 96));
    assert!(!command_button_drag_exceeds_threshold(10, 10, Point { x: 15, y: 10 }, 192));
    assert!(command_button_drag_exceeds_threshold(i32::MIN, 0, Point { x: i32::MAX, y: 0 }, 96));
}

#[test]
fn scroll_requests_and_wheel_turns_ask_for_offsets() {
    let metrics =
        command_button_scroll_metrics(sample_panel(), sample_parent(70), 5, DEFAULT_FONT_SIZE, 96);
    assert_eq!(metrics.line_step, 38);
    assert_eq!(metrics.max_offset, 76);
    assert_eq!(metrics.content_height, 146);
    assert_eq!(metrics.page_step, 38);
    assert_eq!(scroll_request_target(SB_LINEUP, 38, metrics, None), Some(0));
    assert_eq!(scroll_request_target(SB_LINEDOWN, 38, metrics, None), Some(76));
    assert_eq!(scroll_request_target(SB_PAGEDOWN, 0, metrics, None), Some(38));
    assert_eq!(scroll_request_target(SB_THUMBTRACK, 0, metrics, Some(50)), Some(50));
    assert_eq!(scroll_request_target(SB_THUMBTRACK, 10, metrics, None), Some(10));
    assert_eq!(scroll_request_target(SB_TOP, 76, metrics, None), Some(0));
    assert_eq!(scroll_request_target(SB_BOTTOM, 0, metrics, None), Some(76));
    assert_eq!(scroll_request_target(99, 0, metrics, None), None);
    assert_eq!(wheel_scroll_target(0, 0, 38), None);
    assert_eq!(wheel_scroll_target(0, -120, 38), Some(114));
    assert_eq!(wheel_scroll_target(200, 120, 38), Some(86));
    assert_eq!(wheel_scroll_target(0, -121, 38), Some(228));
    assert_eq!(wheel_scroll_target(0, -30, 38), Some(114));
}
