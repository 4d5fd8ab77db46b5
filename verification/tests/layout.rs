use j3devhelper::fonts::{
    compare_font_family_case_insensitive, font_family_available, normalize_font_family_list,
};
use j3devhelper::geometry::{
    centered_window_position, point_in_rect_spec, ClientSize, Point, RectSpec, WindowSize,
};
use j3devhelper::language::UiLanguage;
use j3devhelper::layout::{
    clamp_tree_panel_width, main_splitter_hit_rect, minimum_main_client_size, non_client_size,
    size_from_rect, splitter_drag_tree_panel_width, startup_layout, startup_window_size,
    validate_startup_font_settings_with, view_settings_with_window_layout, LayoutSpec,
    ViewSettings, DEFAULT_FONT_FAMILY,
};
use j3devhelper::scaling::{
    dialog_font_size_from_property, dialog_layout_font_size_from_actual, font_size_from_logfont_height,
    scale_dimension_between_dpi, scale_dimension_for_dialog_font, scale_rect_for_dialog,
    DEFAULT_DPI, DEFAULT_FONT_SIZE,
};
use std::cmp::Ordering;

#[test]
fn minimum_client_size_keeps_tree_and_tabs_visible_at_large_font_and_dpi() {
    let dpi = 144;
    let layout = LayoutSpec::for_font_size_and_dpi(20, dpi);
    let minimum = minimum_main_client_size(layout, dpi);

    assert_eq!(minimum.width, 330);
    assert_eq!(minimum.height, 267);
}

#[test]
fn startup_window_size_uses_window_pixel_settings_without_dpi_scaling() {
    let view = ViewSettings::new(DEFAULT_FONT_FAMILY, DEFAULT_FONT_SIZE, "graphite")
        .with_window_layout(Some(484), Some(613), Some(160));
    let initial = WindowSize {
        width: 960,
        height: 640,
    };

    assert_eq!(
        startup_window_size(&view, initial),
        WindowSize {
            width: 484,
            height: 613,
        }
    );
    let unsaved = ViewSettings::new(DEFAULT_FONT_FAMILY, DEFAULT_FONT_SIZE, "graphite")
        .with_window_layout(Some(484), None, None);
    assert_eq!(startup_window_size(&unsaved, initial), initial);
}

#[test]
fn startup_layout_restores_saved_tree_panel_pixels_without_dpi_scaling() {
    let saved = ViewSettings::new(DEFAULT_FONT_FAMILY, DEFAULT_FONT_SIZE, "graphite")
        .with_window_layout(Some(484), Some(613), Some(160));
    let default = ViewSettings::new(DEFAULT_FONT_FAMILY, DEFAULT_FONT_SIZE, "graphite");

    assert_eq!(startup_layout(&saved, 144).tree_panel_width, 160);
    assert_eq!(startup_layout(&default, 144).tree_panel_width, 240);
}

#[test]
fn persisted_window_layout_keeps_current_window_pixels() {
    let current = ViewSettings::new(DEFAULT_FONT_FAMILY, DEFAULT_FONT_SIZE, "graphite");
    let view = view_settings_with_window_layout(
        &current,
        WindowSize {
            width: 726,
            height: 920,
        },
        240,
    );

    assert_eq!(view.window_width, Some(726));
    assert_eq!(view.window_height, Some(920));
    assert_eq!(view.tree_panel_width, Some(240));
    assert_eq!(view.font_family, current.font_family);
    assert_eq!(view.theme, "graphite");
}

#[test]
fn scale_dimension_between_dpi_saturates_large_positive_dimensions() {
    let scaled = scale_dimension_between_dpi(i32::MAX, DEFAULT_DPI, DEFAULT_DPI * 2);

    assert_eq!(scaled, i32::MAX);
    assert!(scaled > 0);
}

#[test]
fn dialog_font_scaling_keeps_default_size_and_expands_large_fonts() {
    let command_dialog_width = 570;

    assert_eq!(
        scale_dimension_for_dialog_font(command_dialog_width, DEFAULT_FONT_SIZE),
        command_dialog_width
    );
    assert_eq!(scale_dimension_for_dialog_font(24, 9), 24);
    assert_eq!(scale_dimension_for_dialog_font(24, 20), 36);
    assert_eq!(scale_dimension_for_dialog_font(command_dialog_width, 20), 855);
}

#[test]
fn dialog_layout_font_size_uses_larger_actual_font_size() {
    assert_eq!(
        dialog_layout_font_size_from_actual(DEFAULT_FONT_SIZE, None),
        DEFAULT_FONT_SIZE
    );
    assert_eq!(dialog_layout_font_size_from_actual(DEFAULT_FONT_SIZE, Some(20)), 20);
    assert_eq!(dialog_layout_font_size_from_actual(20, Some(12)), 20);
    assert_eq!(dialog_layout_font_size_from_actual(8, Some(24)), 20);
}

#[test]
fn font_size_from_logfont_height_uses_current_dpi() {
    assert_eq!(font_size_from_logfont_height(-24, 144), Some(12));
    assert_eq!(font_size_from_logfont_height(-40, 144), Some(20));
    assert_eq!(font_size_from_logfont_height(20, 96), Some(15));
    assert_eq!(font_size_from_logfont_height(0, 96), None);
}

#[test]
fn dialog_rect_scaling_combines_font_size_and_dpi() {
    let rect = scale_rect_for_dialog(
        RectSpec {
            x: 132,
            y: 60,
            width: 80,
            height: 26,
        },
        20,
        144,
    );

    assert_eq!(
        rect,
        RectSpec {
            x: 297,
            y: 135,
            width: 180,
            height: 59,
        }
    );
}

#[test]
fn splitter_width_clamps_to_tree_and_tabs_minimums() {
    let dpi = 96;
    let layout = LayoutSpec::for_font_size_and_dpi(DEFAULT_FONT_SIZE, dpi);
    let client = ClientSize {
        width: 500,
        height: 400,
    };

    assert_eq!(clamp_tree_panel_width(layout, client, dpi, 10), 72);
    assert_eq!(clamp_tree_panel_width(layout, client, dpi, 160), 160);
    assert_eq!(clamp_tree_panel_width(layout, client, dpi, 600), 358);
}

#[test]
fn splitter_drag_width_uses_client_pointer_x() {
    let dpi = 96;
    let layout = LayoutSpec::for_font_size_and_dpi(DEFAULT_FONT_SIZE, dpi);
    let client = ClientSize {
        width: 500,
        height: 400,
    };

    assert_eq!(
        splitter_drag_tree_panel_width(layout, client, dpi, Point { x: 232, y: 40 }),
        224
    );
}

#[test]
fn splitter_hit_rect_covers_gap_between_main_panels() {
    let layout = LayoutSpec::for_font_size(DEFAULT_FONT_SIZE).arrange_main_content(ClientSize {
        width: 500,
        height: 400,
    });
    let hit_rect = main_splitter_hit_rect(layout);

    assert_eq!(
        hit_rect,
        RectSpec {
            x: 168,
            y: 6,
            width: 10,
            height: 386,
        }
    );
    assert!(point_in_rect_spec(Point { x: 168, y: 6 }, hit_rect));
    assert!(point_in_rect_spec(Point { x: 177, y: 391 }, hit_rect));
    assert!(!point_in_rect_spec(Point { x: 178, y: 40 }, hit_rect));
}

#[test]
fn main_content_places_tree_then_tabs() {
    let layout = LayoutSpec::for_font_size(DEFAULT_FONT_SIZE).arrange_main_content(ClientSize {
        width: 500,
        height: 400,
    });
    assert_eq!(
        layout.tree_panel,
        RectSpec {
            x: 8,
            y: 6,
            width: 160,
            height: 386,
        }
    );
    assert_eq!(
        layout.command_tabs_panel,
        RectSpec {
            x: 178,
            y: 6,
            width: 314,
            height: 386,
        }
    );
    let cramped = LayoutSpec::for_font_size(DEFAULT_FONT_SIZE).arrange_main_content(ClientSize {
        width: 100,
        height: 10,
    });
    assert_eq!(cramped.command_tabs_panel.width, 0);
    assert_eq!(cramped.tree_panel.height, 0);
}

#[test]
fn startup_font_validation_falls_back_when_saved_font_is_missing() {
    let view = ViewSettings::new("Missing Codex Font", DEFAULT_FONT_SIZE, "system");
    let available = "Missing Codex Font".eq_ignore_ascii_case(DEFAULT_FONT_FAMILY);

    let checked = validate_startup_font_settings_with(&view, UiLanguage::English, available);
    let warnings = &checked.warnings;

    assert_eq!(checked.view.font_family, DEFAULT_FONT_FAMILY);
    assert_eq!(warnings.len(), 1);
    assert!(warnings[0].contains("Font not found"));
    let status = checked.restore_warning.as_deref().unwrap_or_default();
    assert!(status.contains("Missing Codex Font"));
}

#[test]
fn startup_font_validation_keeps_an_installed_font() {
    let view = ViewSettings::new("Consolas", 14, "light");
    let checked = validate_startup_font_settings_with(&view, UiLanguage::Korean, true);
    assert_eq!(checked.view.font_family, "Consolas");
    assert_eq!(checked.view.font_size, 14);
    assert!(checked.warnings.is_empty());
    assert!(checked.restore_warning.is_none());
    let korean = validate_startup_font_settings_with(&view, UiLanguage::Korean, false).warnings;
    assert_eq!(korean[0], "글꼴을 찾을 수 없어 기본값을 사용합니다: Consolas");
}

#[test]
fn font_family_normalization_sorts_and_deduplicates_without_case_sensitive_duplicates() {
    let fonts = normalize_font_family_list(vec![
        "Zed".to_owned(),
        "alpha".to_owned(),
        "ALPHA".to_owned(),
        "Beta".to_owned(),
    ]);

    assert_eq!(fonts, vec!["alpha", "Beta", "Zed"]);
}

#[test]
fn font_family_normalization_falls_back_and_keeps_first_spelling() {
    assert_eq!(normalize_font_family_list(vec![]), vec![DEFAULT_FONT_FAMILY]);
    assert_eq!(
        normalize_font_family_list(vec!["ARIAL".to_owned(), "Arial".to_owned(), "arial".to_owned()]),
        vec!["ARIAL"]
    );
}

#[test]
fn font_comparison_and_lookup_ignore_case() {
    assert_eq!(compare_font_family_case_insensitive("alpha", "BETA"), Ordering::Less);
    assert_eq!(compare_font_family_case_insensitive("Zed", "beta"), Ordering::Greater);
    assert_eq!(compare_font_family_case_insensitive("Arial", "ARIAL"), Ordering::Equal);
    assert_eq!(compare_font_family_case_insensitive("Ari", "Arial"), Ordering::Less);
    let fonts = vec!["Segoe UI".to_owned(), "Consolas".to_owned()];
    assert!(font_family_available(&fonts, "segoe ui"));
    assert!(!font_family_available(&fonts, "Courier"));
}

#[test]
fn window_frame_sizes_never_go_negative() {
    assert_eq!(
        size_from_rect(10, 20, 110, 70),
        Some(WindowSize {
            width: 100,
            height: 50,
        })
    );
    assert_eq!(size_from_rect(10, 20, 10, 70), None);
    assert_eq!(
        non_client_size(
            WindowSize {
                width: 816,
                height: 639,
            },
            ClientSize {
                width: 800,
                height: 600,
            }
        ),
        (16, 39)
    );
    assert_eq!(
        non_client_size(
            WindowSize {
                width: 10,
                height: 10,
            },
            ClientSize {
                width: 20,
                height: 20,
            }
        ),
        (0, 0)
    );
}

#[test]
fn dialog_font_size_property_falls_back_to_the_default() {
    assert_eq!(dialog_font_size_from_property(0), DEFAULT_FONT_SIZE);
    assert_eq!(dialog_font_size_from_property(70_000), DEFAULT_FONT_SIZE);
    assert_eq!(dialog_font_size_from_property(16), 16);
    assert_eq!(dialog_font_size_from_property(40), 20);
    assert_eq!(dialog_font_size_from_property(2), 8);
}

#[test]
fn dialogs_open_centered_over_their_owner() {
    assert_eq!(centered_window_position(100, 50, 900, 650, 400, 300), (300, 200));
    assert_eq!(centered_window_position(100, 50, 900, 650, 401, 301), (299, 199));
    assert_eq!(centered_window_position(-800, 0, 0, 600, 1000, 700), (-800, 0));
}
