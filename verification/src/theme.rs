//! Colors of the view themes, the tree view colors they give, and the highlight shown while a
//! folder or a command button is dragged over a drop target.
//!
//! A color is a Win32 `COLORREF`: red in the low byte, then green, then blue.

use vstd::prelude::*;

use crate::language::{is_dark_theme, ViewTheme};

verus! {

/// The tree view color value that asks the control for its system color.
pub const TREE_VIEW_USE_SYSTEM_COLOR: i64 = -1;

/// The `CLR_DEFAULT` color value, which restores a control's default line color.
pub const CLR_DEFAULT_COLOR: i64 = 0xFF00_0000;

/// The drop effect that accepts a drop as a copy.
pub const DROPEFFECT_COPY: u32 = 1;

/// The drop effect that refuses a drop.
pub const DROPEFFECT_NONE: u32 = 0;

/// How much of the accent color a custom theme's drop highlight mixes in, in percent.
pub const DROP_HIGHLIGHT_ACCENT_PERCENT: u8 = 36;

/// The color made of three channels.
pub open spec fn rgb(red: int, green: int, blue: int) -> u32 {
    (red + green * 256 + blue * 65536) as u32
}

/// The red channel of a color.
pub open spec fn red_of(value: u32) -> u8 {
    (value % 256) as u8
}

/// The green channel of a color.
pub open spec fn green_of(value: u32) -> u8 {
    ((value / 256) % 256) as u8
}

/// The blue channel of a color.
pub open spec fn blue_of(value: u32) -> u8 {
    ((value / 65536) % 256) as u8
}

/// One channel mixed from `base` and `accent` by the given weights, rounded half up, kept to its
/// low byte.
pub open spec fn mixed_channel(base: int, accent: int, base_percent: int, accent_percent: int) -> u8 {
    (((base * base_percent + accent * accent_percent + 50) / 100) % 256) as u8
}

/// `base` mixed with `accent_percent` percent (at most 100) of `accent`, channel by channel.
pub open spec fn blended(base: u32, accent: u32, accent_percent: int) -> u32 {
    let accent_weight = if accent_percent > 100 {
        100
    } else {
        accent_percent
    };
    let base_weight = 100 - accent_weight;
    rgb(
        mixed_channel(red_of(base) as int, red_of(accent) as int, base_weight, accent_weight) as int,
        mixed_channel(green_of(base) as int, green_of(accent) as int, base_weight, accent_weight)
            as int,
        mixed_channel(blue_of(base) as int, blue_of(accent) as int, base_weight, accent_weight)
            as int,
    )
}

/// Builds a color from its three channels.
pub fn colorref(red: u8, green: u8, blue: u8) -> (color: u32)
    ensures
        color == rgb(red as int, green as int, blue as int),
        color == red + green * 256 + blue * 65536,
{
    red as u32 + (green as u32) * 256 + (blue as u32) * 65536
}

/// The red channel of a color.
pub fn colorref_red(value: u32) -> (red: u8)
    ensures
        red == red_of(value),
{
    (value % 256) as u8
}

/// The green channel of a color.
pub fn colorref_green(value: u32) -> (green: u8)
    ensures
        green == green_of(value),
{
    ((value / 256) % 256) as u8
}

/// The blue channel of a color.
pub fn colorref_blue(value: u32) -> (blue: u8)
    ensures
        blue == blue_of(value),
{
    ((value / 65536) % 256) as u8
}

/// Mixes one channel of two colors by the given weights.
pub fn blend_color_channel(base: u8, accent: u8, base_percent: u16, accent_percent: u16) -> (channel:
    u8)
    requires
        base * base_percent + accent * accent_percent + 50 <= u16::MAX,
    ensures
        channel == mixed_channel(base as int, accent as int, base_percent as int, accent_percent as int),
{
    proof {
        assert(0 <= base * base_percent <= base * base_percent + accent * accent_percent)
            by (nonlinear_arith)
            requires
                0 <= accent,
                0 <= accent_percent,
                0 <= base,
                0 <= base_percent,
        ;
    }
    let sum: u16 = (base as u16) * base_percent + (accent as u16) * accent_percent + 50;
    ((sum / 100) % 256) as u8
}

/// Mixes `accent_percent` percent of `accent` into `base`.
pub fn blend_colorref(base: u32, accent: u32, accent_percent: u8) -> (color: u32)
    ensures
        color == blended(base, accent, accent_percent as int),
{
    let accent_weight: u16 = if accent_percent > 100 {
        100
    } else {
        accent_percent as u16
    };
    let base_weight: u16 = 100 - accent_weight;
    let base_red = colorref_red(base);
    let accent_red = colorref_red(accent);
    let base_green = colorref_green(base);
    let accent_green = colorref_green(accent);
    let base_blue = colorref_blue(base);
    let accent_blue = colorref_blue(accent);
    proof {
        let (base_weight, accent_weight) = (base_weight as int, accent_weight as int);
        lemma_weighted_channels_fit(base_red as int, accent_red as int, base_weight, accent_weight);
        lemma_weighted_channels_fit(base_green as int, accent_green as int, base_weight, accent_weight);
        lemma_weighted_channels_fit(base_blue as int, accent_blue as int, base_weight, accent_weight);
    }
    colorref(
        blend_color_channel(base_red, accent_red, base_weight, accent_weight),
        blend_color_channel(base_green, accent_green, base_weight, accent_weight),
        blend_color_channel(base_blue, accent_blue, base_weight, accent_weight),
    )
}

proof fn lemma_weighted_channels_fit(base: int, accent: int, base_weight: int, accent_weight: int)
    requires
        0 <= base <= 255,
        0 <= accent <= 255,
        0 <= base_weight,
        0 <= accent_weight,
        base_weight + accent_weight == 100,
    ensures
        base * base_weight + accent * accent_weight + 50 <= u16::MAX,
{
    assert(base * base_weight + accent * accent_weight <= 255 * base_weight + 255 * accent_weight)
        by (nonlinear_arith)
        requires
            0 <= base <= 255,
            0 <= accent <= 255,
            0 <= base_weight,
            0 <= accent_weight,
    ;
}

/// The channels read back from a color are the channels it was built from.
pub proof fn color_channels_round_trip(red: u8, green: u8, blue: u8)
    ensures
        red_of(rgb(red as int, green as int, blue as int)) == red,
        green_of(rgb(red as int, green as int, blue as int)) == green,
        blue_of(rgb(red as int, green as int, blue as int)) == blue,
{
    let value = red + green * 256 + blue * 65536;
    vstd::arithmetic::div_mod::lemma_fundamental_div_mod_converse(
        value,
        256,
        green + blue * 256,
        red as int,
    );
    vstd::arithmetic::div_mod::lemma_fundamental_div_mod_converse(
        green + blue * 256,
        256,
        blue as int,
        green as int,
    );
    vstd::arithmetic::div_mod::lemma_fundamental_div_mod_converse(
        value,
        65536,
        blue as int,
        red + green * 256,
    );
    vstd::arithmetic::div_mod::lemma_fundamental_div_mod_converse(blue as int, 256, 0, blue as int);
}

/// A color of three channels is rebuilt exactly from the channels read from it.
pub proof fn color_rebuilt_from_channels(value: u32)
    requires
        value <= 0xFF_FFFF,
    ensures
        rgb(red_of(value) as int, green_of(value) as int, blue_of(value) as int) == value,
{
    let high = value / 256;
    vstd::arithmetic::div_mod::lemma_fundamental_div_mod(value as int, 256);
    vstd::arithmetic::div_mod::lemma_fundamental_div_mod(high as int, 256);
    vstd::arithmetic::div_mod::lemma_div_denominator(value as int, 256, 256);
    assert(high / 256 < 256);
    vstd::arithmetic::div_mod::lemma_fundamental_div_mod_converse(
        (high / 256) as int,
        256,
        0,
        (high / 256) as int,
    );
}

/// Mixing in no accent keeps the base color, and mixing in all of it gives the accent color.
pub proof fn blend_endpoints(base: u32, accent: u32)
    requires
        base <= 0xFF_FFFF,
        accent <= 0xFF_FFFF,
    ensures
        blended(base, accent, 0) == base,
        blended(base, accent, 100) == accent,
{
    color_rebuilt_from_channels(base);
    color_rebuilt_from_channels(accent);
    lemma_mix_extremes(red_of(base) as int, red_of(accent) as int);
    lemma_mix_extremes(green_of(base) as int, green_of(accent) as int);
    lemma_mix_extremes(blue_of(base) as int, blue_of(accent) as int);
}

proof fn lemma_mix_extremes(base: int, accent: int)
    requires
        0 <= base <= 255,
        0 <= accent <= 255,
    ensures
        mixed_channel(base, accent, 100, 0) == base,
        mixed_channel(base, accent, 0, 100) == accent,
{
    vstd::arithmetic::div_mod::lemma_fundamental_div_mod_converse(base * 100 + 50, 100, base, 50);
    vstd::arithmetic::div_mod::lemma_fundamental_div_mod_converse(
        accent * 100 + 50,
        100,
        accent,
        50,
    );
    vstd::arithmetic::div_mod::lemma_fundamental_div_mod_converse(base, 256, 0, base);
    vstd::arithmetic::div_mod::lemma_fundamental_div_mod_converse(accent, 256, 0, accent);
}

/// The colors of a view theme, and whether the theme draws its own control colors.
#[derive(Clone, Copy, Debug, PartialEq, Eq, Structural)]
pub struct ThemePalette {
    pub window_background: u32,
    pub control_background: u32,
    pub control_text: u32,
    pub tree_line: u32,
    pub custom_controls: bool,
}

/// The palette of each view theme.
pub open spec fn palette_of(theme: ViewTheme) -> ThemePalette {
    match theme {
        ViewTheme::System | ViewTheme::Light => ThemePalette {
            window_background: rgb(240, 240, 240),
            control_background: rgb(255, 255, 255),
            control_text: rgb(0, 0, 0),
            tree_line: rgb(160, 160, 160),
            custom_controls: false,
        },
        ViewTheme::ClassicDark => ThemePalette {
            window_background: rgb(31, 33, 36),
            control_background: rgb(24, 26, 29),
            control_text: rgb(230, 232, 235),
            tree_line: rgb(92, 97, 105),
            custom_controls: true,
        },
        ViewTheme::SepiaTeal => ThemePalette {
            window_background: rgb(24, 25, 24),
            control_background: rgb(31, 52, 56),
            control_text: rgb(236, 232, 219),
            tree_line: rgb(178, 154, 124),
            custom_controls: true,
        },
        ViewTheme::Graphite => ThemePalette {
            window_background: rgb(24, 25, 26),
            control_background: rgb(50, 55, 63),
            control_text: rgb(239, 236, 229),
            tree_line: rgb(126, 119, 105),
            custom_controls: true,
        },
        ViewTheme::Forest => ThemePalette {
            window_background: rgb(22, 25, 23),
            control_background: rgb(39, 59, 63),
            control_text: rgb(236, 239, 229),
            tree_line: rgb(104, 150, 117),
            custom_controls: true,
        },
        ViewTheme::SteelBlue => ThemePalette {
            window_background: rgb(24, 25, 27),
            control_background: rgb(54, 64, 80),
            control_text: rgb(239, 240, 242),
            tree_line: rgb(104, 139, 171),
            custom_controls: true,
        },
    }
}

impl ThemePalette {
    /// The palette of `theme`.
    pub fn for_theme(theme: ViewTheme) -> (palette: ThemePalette)
        ensures
            palette == palette_of(theme),
    {
        match theme {
            ViewTheme::System | ViewTheme::Light => ThemePalette {
                window_background: colorref(240, 240, 240),
                control_background: colorref(255, 255, 255),
                control_text: colorref(0, 0, 0),
                tree_line: colorref(160, 160, 160),
                custom_controls: false,
            },
            ViewTheme::ClassicDark => ThemePalette {
                window_background: colorref(31, 33, 36),
                control_background: colorref(24, 26, 29),
                control_text: colorref(230, 232, 235),
                tree_line: colorref(92, 97, 105),
                custom_controls: true,
            },
            ViewTheme::SepiaTeal => ThemePalette {
                window_background: colorref(24, 25, 24),
                control_background: colorref(31, 52, 56),
                control_text: colorref(236, 232, 219),
                tree_line: colorref(178, 154, 124),
                custom_controls: true,
            },
            ViewTheme::Graphite => ThemePalette {
                window_background: colorref(24, 25, 26),
                control_background: colorref(50, 55, 63),
                control_text: colorref(239, 236, 229),
                tree_line: colorref(126, 119, 105),
                custom_controls: true,
            },
            ViewTheme::Forest => ThemePalette {
                window_background: colorref(22, 25, 23),
                control_background: colorref(39, 59, 63),
                control_text: colorref(236, 239, 229),
                tree_line: colorref(104, 150, 117),
                custom_controls: true,
            },
            ViewTheme::SteelBlue => ThemePalette {
                window_background: colorref(24, 25, 27),
                control_background: colorref(54, 64, 80),
                control_text: colorref(239, 240, 242),
                tree_line: colorref(104, 139, 171),
                custom_controls: true,
            },
        }
    }

    /// Whether the theme draws its own control colors.
    pub fn uses_custom_controls(self) -> (custom: bool)
        ensures
            custom == self.custom_controls,
    {
        self.custom_controls
    }
}

/// The state of a drag over a drop target.
#[derive(Clone, Copy, Debug, PartialEq, Eq, Structural)]
pub enum DropFeedback {
    Normal,
    Allowed,
    Denied,
}

/// The drop effect reported for a feedback state. A refused folder is still accepted as a drop so
/// that the drop can explain why it was refused.
pub fn drop_effect_for_feedback(feedback: DropFeedback) -> (effect: u32)
    ensures
        effect == (if feedback == DropFeedback::Normal {
            DROPEFFECT_NONE
        } else {
            DROPEFFECT_COPY
        }),
{
    match feedback {
        DropFeedback::Allowed | DropFeedback::Denied => DROPEFFECT_COPY,
        DropFeedback::Normal => DROPEFFECT_NONE,
    }
}

/// The highlight color of a drop target: the light color in the system themes, the control
/// background mixed with the accent color in the custom themes.
pub open spec fn highlight_of(palette: ThemePalette, light_color: u32, accent_color: u32) -> u32 {
    if palette.custom_controls {
        blended(palette.control_background, accent_color, DROP_HIGHLIGHT_ACCENT_PERCENT as int)
    } else {
        light_color
    }
}

/// The highlight of a target that accepts the drop.
pub open spec fn allowed_highlight(palette: ThemePalette) -> u32 {
    highlight_of(palette, rgb(226, 241, 255), rgb(44, 128, 190))
}

/// The highlight of a target that refuses the drop.
pub open spec fn denied_highlight(palette: ThemePalette) -> u32 {
    highlight_of(palette, rgb(255, 235, 235), rgb(150, 60, 60))
}

/// Computes the highlight color of a drop target.
pub fn drop_feedback_background(palette: ThemePalette, light_color: u32, accent_color: u32) -> (color:
    u32)
    ensures
        color == highlight_of(palette, light_color, accent_color),
{
    if palette.uses_custom_controls() {
        blend_colorref(palette.control_background, accent_color, DROP_HIGHLIGHT_ACCENT_PERCENT)
    } else {
        light_color
    }
}

/// The background of a command button while another button is dragged over it.
pub fn command_button_drop_target_background(palette: ThemePalette) -> (color: u32)
    ensures
        color == allowed_highlight(palette),
{
    drop_feedback_background(palette, colorref(226, 241, 255), colorref(44, 128, 190))
}

/// The background of a workspace tree item while another item is dragged over it.
pub fn workspace_tree_drop_target_background(palette: ThemePalette) -> (color: u32)
    ensures
        color == allowed_highlight(palette),
{
    drop_feedback_background(palette, colorref(226, 241, 255), colorref(44, 128, 190))
}

/// The background, text and line colors handed to the workspace tree view.
#[derive(Clone, Copy, Debug, PartialEq, Eq, Structural)]
pub struct TreeViewThemeColors {
    pub background: i64,
    pub text: i64,
    pub line: i64,
}

/// The tree view colors of a palette: its own colors in the custom themes, the system colors
/// otherwise.
pub open spec fn tree_colors_of(palette: ThemePalette) -> TreeViewThemeColors {
    if palette.custom_controls {
        TreeViewThemeColors {
            background: palette.control_background as i64,
            text: palette.control_text as i64,
            line: palette.tree_line as i64,
        }
    } else {
        TreeViewThemeColors {
            background: TREE_VIEW_USE_SYSTEM_COLOR,
            text: TREE_VIEW_USE_SYSTEM_COLOR,
            line: CLR_DEFAULT_COLOR,
        }
    }
}

/// The tree view colors during a drag: only the background changes with the feedback.
pub open spec fn tree_feedback_colors_of(feedback: DropFeedback, palette: ThemePalette) -> TreeViewThemeColors {
    let themed = tree_colors_of(palette);
    TreeViewThemeColors {
        background: match feedback {
            DropFeedback::Normal => themed.background,
            DropFeedback::Allowed => allowed_highlight(palette) as i64,
            DropFeedback::Denied => denied_highlight(palette) as i64,
        },
        ..themed
    }
}

impl TreeViewThemeColors {
    /// The tree view colors of a palette.
    pub fn for_palette(palette: ThemePalette) -> (colors: TreeViewThemeColors)
        ensures
            colors == tree_colors_of(palette),
    {
        if palette.uses_custom_controls() {
            TreeViewThemeColors {
                background: palette.control_background as i64,
                text: palette.control_text as i64,
                line: palette.tree_line as i64,
            }
        } else {
            TreeViewThemeColors {
                background: TREE_VIEW_USE_SYSTEM_COLOR,
                text: TREE_VIEW_USE_SYSTEM_COLOR,
                line: CLR_DEFAULT_COLOR,
            }
        }
    }

    /// The tree view colors while a drag is over the tree.
    pub fn for_drop_feedback(feedback: DropFeedback, palette: ThemePalette) -> (colors:
        TreeViewThemeColors)
        ensures
            colors == tree_feedback_colors_of(feedback, palette),
            feedback == DropFeedback::Normal ==> colors == tree_colors_of(palette),
            colors.text == tree_colors_of(palette).text,
            colors.line == tree_colors_of(palette).line,
    {
        let themed_colors = TreeViewThemeColors::for_palette(palette);
        let background = match feedback {
            DropFeedback::Normal => themed_colors.background,
            DropFeedback::Allowed => drop_feedback_background(
                palette,
                colorref(226, 241, 255),
                colorref(44, 128, 190),
            ) as i64,
            DropFeedback::Denied => drop_feedback_background(
                palette,
                colorref(255, 235, 235),
                colorref(150, 60, 60),
            ) as i64,
        };
        TreeViewThemeColors { background, ..themed_colors }
    }
}


/// The dark themes are exactly the themes that draw their own control colors.
pub proof fn dark_themes_draw_their_own_controls(theme: ViewTheme)
    ensures
        is_dark_theme(theme) == palette_of(theme).custom_controls,
{
}

} // verus!
