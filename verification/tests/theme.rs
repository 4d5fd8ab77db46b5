use j3devhelper::language::ViewTheme;
use j3devhelper::theme::{
    blend_color_channel, blend_colorref, colorref, colorref_blue, colorref_green, colorref_red,
    command_button_drop_target_background, drop_effect_for_feedback, drop_feedback_background,
    workspace_tree_drop_target_background, DropFeedback, ThemePalette, TreeViewThemeColors,
    CLR_DEFAULT_COLOR, DROPEFFECT_COPY, DROPEFFECT_NONE, TREE_VIEW_USE_SYSTEM_COLOR,
};

#[test]
fn denied_workspace_drop_still_reaches_drop_handler() {
    assert_eq!(drop_effect_for_feedback(DropFeedback::Denied), DROPEFFECT_COPY);
}

#[test]
fn normal_drag_state_does_not_advertise_a_drop_effect() {
    assert_eq!(drop_effect_for_feedback(DropFeedback::Normal), DROPEFFECT_NONE);
    assert_eq!(drop_effect_for_feedback(DropFeedback::Allowed), DROPEFFECT_COPY);
}

#[test]
fn system_tree_theme_uses_system_colors() {
    let palette = ThemePalette::for_theme(ViewTheme::System);
    let colors = TreeViewThemeColors::for_palette(palette);

    assert_eq!(colors.background, TREE_VIEW_USE_SYSTEM_COLOR);
    assert_eq!(colors.text, TREE_VIEW_USE_SYSTEM_COLOR);
    assert_eq!(colors.line, CLR_DEFAULT_COLOR);
}

#[test]
fn custom_tree_themes_use_explicit_palette_colors() {
    for theme in ViewTheme::options()
        .iter()
        .copied()
        .filter(|theme| theme.uses_dark_mode())
    {
        let palette = ThemePalette::for_theme(theme);
        let colors = TreeViewThemeColors::for_palette(palette);

        assert_eq!(colors.background, palette.control_background as i64);
        assert_eq!(colors.text, palette.control_text as i64);
        assert_eq!(colors.line, palette.tree_line as i64);
    }
}

#[test]
fn normal_drop_feedback_restores_tree_theme_colors() {
    for theme in ViewTheme::options().iter().copied() {
        let palette = ThemePalette::for_theme(theme);

        assert_eq!(
            TreeViewThemeColors::for_drop_feedback(DropFeedback::Normal, palette),
            TreeViewThemeColors::for_palette(palette)
        );
    }
}

#[test]
fn light_drop_feedback_keeps_light_highlight_colors() {
    let palette = ThemePalette::for_theme(ViewTheme::Light);
    let allowed = TreeViewThemeColors::for_drop_feedback(DropFeedback::Allowed, palette);
    let denied = TreeViewThemeColors::for_drop_feedback(DropFeedback::Denied, palette);

    assert_eq!(allowed.background, colorref(226, 241, 255) as i64);
    assert_eq!(denied.background, colorref(255, 235, 235) as i64);
    assert_eq!(allowed.text, TREE_VIEW_USE_SYSTEM_COLOR);
    assert_eq!(denied.text, TREE_VIEW_USE_SYSTEM_COLOR);
}

#[test]
fn command_button_drop_target_uses_allowed_feedback_background() {
    let palette = ThemePalette::for_theme(ViewTheme::Light);

    assert_eq!(
        command_button_drop_target_background(palette),
        colorref(226, 241, 255)
    );
}

#[test]
fn command_button_drop_target_blends_with_custom_theme_background() {
    let palette = ThemePalette::for_theme(ViewTheme::Graphite);
    let target_background = command_button_drop_target_background(palette);

    assert_ne!(target_background, palette.control_background);
    assert_ne!(target_background, colorref(226, 241, 255));
}

#[test]
fn workspace_tree_drop_target_uses_allowed_feedback_background() {
    let palette = ThemePalette::for_theme(ViewTheme::Light);

    assert_eq!(
        workspace_tree_drop_target_background(palette),
        colorref(226, 241, 255)
    );
}

#[test]
fn workspace_tree_drop_target_blends_with_custom_theme_background() {
    let palette = ThemePalette::for_theme(ViewTheme::Forest);
    let target_background = workspace_tree_drop_target_background(palette);

    assert_ne!(target_background, palette.control_background);
    assert_ne!(target_background, colorref(226, 241, 255));
}

#[test]
fn dark_drop_feedback_keeps_text_and_line_contrast() {
    for theme in ViewTheme::options()
        .iter()
        .copied()
        .filter(|theme| theme.uses_dark_mode())
    {
        let palette = ThemePalette::for_theme(theme);

        for feedback in [DropFeedback::Allowed, DropFeedback::Denied] {
            let colors = TreeViewThemeColors::for_drop_feedback(feedback, palette);

            assert_ne!(colors.background, palette.control_background as i64);
            assert_ne!(colors.background, colorref(226, 241, 255) as i64);
            assert_ne!(colors.background, colorref(255, 235, 235) as i64);
            assert_eq!(colors.text, palette.control_text as i64);
            assert_eq!(colors.line, palette.tree_line as i64);
        }
    }
}

#[test]
fn colors_pack_and_unpack_channels() {
    let color = colorref(0x12, 0x34, 0x56);
    assert_eq!(color, 0x0056_3412);
    assert_eq!(colorref_red(color), 0x12);
    assert_eq!(colorref_green(color), 0x34);
    assert_eq!(colorref_blue(color), 0x56);
    assert_eq!(colorref_red(0xFF12_3456), 0x56);
}

#[test]
fn blending_mixes_channels_by_percent() {
    assert_eq!(blend_color_channel(0, 200, 64, 36), 72);
    assert_eq!(blend_color_channel(255, 255, 50, 50), 255);
    let base = colorref(50, 55, 63);
    let accent = colorref(44, 128, 190);
    assert_eq!(blend_colorref(base, accent, 36), colorref(48, 81, 109));
    assert_eq!(blend_colorref(base, accent, 0), base);
    assert_eq!(blend_colorref(base, accent, 100), accent);
    assert_eq!(blend_colorref(base, accent, 250), accent);
    let palette = ThemePalette::for_theme(ViewTheme::Graphite);
    assert_eq!(
        drop_feedback_background(palette, colorref(1, 2, 3), accent),
        colorref(48, 81, 109)
    );
    assert!(!ThemePalette::for_theme(ViewTheme::Light).uses_custom_controls());
    assert!(ThemePalette::for_theme(ViewTheme::SteelBlue).uses_custom_controls());
}
