//! The main window's layout: the workspace tree on the left, the command tabs on the right, the
//! splitter between them, and the window size and tree width kept in the view settings.

use vstd::prelude::*;

use crate::command_buttons::{fits_i32, max_int, min_int, COMMAND_BUTTON_HORIZONTAL_PADDING,
    MIN_COMMAND_BUTTON_WIDTH,
};
use crate::geometry::{non_negative, ClientSize, Point, RectSpec, WindowSize};
use crate::language::UiLanguage;
use crate::scaling::{clamp_int, dpi_scaled, font_extra, font_size_extra, scale_dimension_for_dpi};
use crate::text::{push_str, string_of};

verus! {

/// The narrowest workspace tree, at 96 DPI.
pub const MIN_TREE_PANEL_WIDTH: i32 = 72;

/// The narrowest command tab panel (one button and its padding), at 96 DPI.
pub const MIN_COMMAND_TABS_PANEL_WIDTH: i32 = 116;

/// The lowest main panels, at 96 DPI.
pub const MIN_MAIN_PANEL_HEIGHT: i32 = 160;

/// The tree width of a new window, at 96 DPI.
pub const DEFAULT_TREE_PANEL_WIDTH: i32 = 160;

/// The interface font used when the configured one is missing.
pub const DEFAULT_FONT_FAMILY: &'static str = "Segoe UI";

/// The margins and gaps of the main window and the width of its workspace tree, in pixels.
#[derive(Clone, Copy, Debug, PartialEq, Eq, Structural)]
pub struct LayoutSpec {
    pub content_margin: i32,
    pub content_top_gap: i32,
    pub panel_gap: i32,
    pub tree_panel_width: i32,
}

/// Where the two main panels stand in the client area.
#[derive(Clone, Copy, Debug, PartialEq, Eq, Structural)]
pub struct MainContentLayout {
    pub tree_panel: RectSpec,
    pub command_tabs_panel: RectSpec,
}

/// The layout for a font size and DPI: margins and gaps grow by a quarter of the font's excess
/// over the default size; the tree starts at its default width.
pub open spec fn layout_for(font_size: int, dpi: int) -> LayoutSpec {
    let grow = font_extra(font_size) / 4;
    LayoutSpec {
        content_margin: dpi_scaled(8 + grow, 96, dpi) as i32,
        content_top_gap: dpi_scaled(6 + grow, 96, dpi) as i32,
        panel_gap: dpi_scaled(10 + grow, 96, dpi) as i32,
        tree_panel_width: dpi_scaled(DEFAULT_TREE_PANEL_WIDTH as int, 96, dpi) as i32,
    }
}

/// The left edge of the command tab panel.
pub open spec fn tabs_left(layout: LayoutSpec) -> int {
    layout.content_margin + non_negative(layout.tree_panel_width as int) + layout.panel_gap
}

/// Whether the panels of `layout` in `client` can be computed in `i32`.
pub open spec fn arrangement_fits(layout: LayoutSpec, client: ClientSize) -> bool {
    &&& fits_i32(tabs_left(layout))
    &&& fits_i32(layout.content_margin + non_negative(layout.tree_panel_width as int))
    &&& fits_i32(client.width - tabs_left(layout))
    &&& fits_i32(client.width - tabs_left(layout) - layout.content_margin)
    &&& fits_i32(client.height - layout.content_top_gap)
    &&& fits_i32(client.height - layout.content_top_gap - layout.content_margin)
}

/// The panels of `layout` in `client`: the tree at the left margin with its width, the tabs after
/// the gap up to the right margin, both from the top gap down to the bottom margin.
pub open spec fn arranged(layout: LayoutSpec, client: ClientSize) -> MainContentLayout {
    let height = non_negative(client.height - layout.content_top_gap - layout.content_margin);
    MainContentLayout {
        tree_panel: RectSpec {
            x: layout.content_margin,
            y: layout.content_top_gap,
            width: non_negative(layout.tree_panel_width as int) as i32,
            height: height as i32,
        },
        command_tabs_panel: RectSpec {
            x: tabs_left(layout) as i32,
            y: layout.content_top_gap,
            width: non_negative(client.width - tabs_left(layout) - layout.content_margin) as i32,
            height: height as i32,
        },
    }
}

impl LayoutSpec {
    /// The layout for a font size at `dpi`.
    pub fn for_font_size_and_dpi(font_size: u16, dpi: u32) -> (layout: LayoutSpec)
        ensures
            layout == layout_for(font_size as int, dpi as int),
    {
        let grow = font_size_extra(font_size) / 4;
        LayoutSpec {
            content_margin: scale_dimension_for_dpi(8 + grow, dpi),
            content_top_gap: scale_dimension_for_dpi(6 + grow, dpi),
            panel_gap: scale_dimension_for_dpi(10 + grow, dpi),
            tree_panel_width: scale_dimension_for_dpi(DEFAULT_TREE_PANEL_WIDTH, dpi),
        }
    }

    /// The layout for a font size at 96 DPI.
    pub fn for_font_size(font_size: u16) -> (layout: LayoutSpec)
        ensures
            layout == layout_for(font_size as int, 96),
    {
        LayoutSpec::for_font_size_and_dpi(font_size, 96)
    }

    /// Places the two main panels in the client area.
    pub fn arrange_main_content(&self, client: ClientSize) -> (layout: MainContentLayout)
        requires
            arrangement_fits(*self, client),
        ensures
            layout == arranged(*self, client),
    {
        let tree_width = if self.tree_panel_width < 0 {
            0
        } else {
            self.tree_panel_width
        };
        let raw_height = client.height - self.content_top_gap - self.content_margin;
        let height = if raw_height < 0 {
            0
        } else {
            raw_height
        };
        let tabs_x = self.content_margin + tree_width + self.panel_gap;
        let raw_width = client.width - tabs_x - self.content_margin;
        let tabs_width = if raw_width < 0 {
            0
        } else {
            raw_width
        };
        MainContentLayout {
            tree_panel: RectSpec {
                x: self.content_margin,
                y: self.content_top_gap,
                width: tree_width,
                height,
            },
            command_tabs_panel: RectSpec {
                x: tabs_x,
                y: self.content_top_gap,
                width: tabs_width,
                height,
            },
        }
    }
}

/// The splitter between the panels: from the tree's right edge to the tabs' left edge, over the
/// full height of both panels.
pub open spec fn splitter_rect(layout: MainContentLayout) -> RectSpec {
    let left = layout.tree_panel.x + layout.tree_panel.width;
    let right = layout.command_tabs_panel.x as int;
    let top = min_int(layout.tree_panel.y as int, layout.command_tabs_panel.y as int);
    let bottom = max_int(
        layout.tree_panel.y + layout.tree_panel.height,
        layout.command_tabs_panel.y + layout.command_tabs_panel.height,
    );
    RectSpec {
        x: left as i32,
        y: top as i32,
        width: non_negative(right - left) as i32,
        height: non_negative(bottom - top) as i32,
    }
}

/// Computes the splitter's hit rectangle.
pub fn main_splitter_hit_rect(layout: MainContentLayout) -> (rect: RectSpec)
    requires
        fits_i32(layout.tree_panel.x + layout.tree_panel.width),
        fits_i32(layout.tree_panel.y + layout.tree_panel.height),
        fits_i32(layout.command_tabs_panel.y + layout.command_tabs_panel.height),
        fits_i32(layout.command_tabs_panel.x - (layout.tree_panel.x + layout.tree_panel.width)),
        fits_i32(
            max_int(
                layout.tree_panel.y + layout.tree_panel.height,
                layout.command_tabs_panel.y + layout.command_tabs_panel.height,
            ) - min_int(layout.tree_panel.y as int, layout.command_tabs_panel.y as int),
        ),
    ensures
        rect == splitter_rect(layout),
{
    let left = layout.tree_panel.x + layout.tree_panel.width;
    let right = layout.command_tabs_panel.x;
    let top = if layout.tree_panel.y < layout.command_tabs_panel.y {
        layout.tree_panel.y
    } else {
        layout.command_tabs_panel.y
    };
    let tree_bottom = layout.tree_panel.y + layout.tree_panel.height;
    let tabs_bottom = layout.command_tabs_panel.y + layout.command_tabs_panel.height;
    let bottom = if tree_bottom > tabs_bottom {
        tree_bottom
    } else {
        tabs_bottom
    };
    let width = right - left;
    let height = bottom - top;
    RectSpec {
        x: left,
        y: top,
        width: if width < 0 {
            0
        } else {
            width
        },
        height: if height < 0 {
            0
        } else {
            height
        },
    }
}

/// The widest tree that still leaves the narrowest tab panel, and never below the narrowest tree.
pub open spec fn widest_tree(layout: LayoutSpec, client: ClientSize, dpi: int) -> int {
    max_int(
        client.width - layout.content_margin * 2 - layout.panel_gap - dpi_scaled(
            MIN_COMMAND_TABS_PANEL_WIDTH as int,
            96,
            dpi,
        ),
        dpi_scaled(MIN_TREE_PANEL_WIDTH as int, 96, dpi),
    )
}

/// Whether the tree width limits can be computed in `i32`.
pub open spec fn tree_limits_fit(layout: LayoutSpec, client: ClientSize, dpi: int) -> bool {
    &&& fits_i32(layout.content_margin * 2)
    &&& fits_i32(client.width - layout.content_margin * 2)
    &&& fits_i32(client.width - layout.content_margin * 2 - layout.panel_gap)
    &&& fits_i32(
        client.width - layout.content_margin * 2 - layout.panel_gap - dpi_scaled(
            MIN_COMMAND_TABS_PANEL_WIDTH as int,
            96,
            dpi,
        ),
    )
}

/// Limits a requested tree width so that both panels keep their narrowest widths.
pub fn clamp_tree_panel_width(layout: LayoutSpec, client: ClientSize, dpi: u32, width: i32) -> (clamped:
    i32)
    requires
        tree_limits_fit(layout, client, dpi as int),
    ensures
        clamped == clamp_int(
            width as int,
            dpi_scaled(MIN_TREE_PANEL_WIDTH as int, 96, dpi as int),
            widest_tree(layout, client, dpi as int),
        ),
{
    let minimum_tree = scale_dimension_for_dpi(MIN_TREE_PANEL_WIDTH, dpi);
    let minimum_tabs = scale_dimension_for_dpi(MIN_COMMAND_TABS_PANEL_WIDTH, dpi);
    let room = client.width - layout.content_margin * 2 - layout.panel_gap - minimum_tabs;
    let maximum_tree = if room > minimum_tree {
        room
    } else {
        minimum_tree
    };
    if width < minimum_tree {
        minimum_tree
    } else if width > maximum_tree {
        maximum_tree
    } else {
        width
    }
}

/// A clamped tree width leaves room for the narrowest tab panel whenever the client area is wide
/// enough for both narrowest panels.
pub proof fn clamped_tree_keeps_tabs_visible(
    layout: LayoutSpec,
    client: ClientSize,
    dpi: int,
    width: int,
)
    requires
        client.width >= layout.content_margin * 2 + layout.panel_gap + dpi_scaled(
            MIN_TREE_PANEL_WIDTH as int,
            96,
            dpi,
        ) + dpi_scaled(MIN_COMMAND_TABS_PANEL_WIDTH as int, 96, dpi),
    ensures
        ({
            let tree = clamp_int(
                width,
                dpi_scaled(MIN_TREE_PANEL_WIDTH as int, 96, dpi),
                widest_tree(layout, client, dpi),
            );
            &&& tree >= dpi_scaled(MIN_TREE_PANEL_WIDTH as int, 96, dpi)
            &&& layout.content_margin * 2 + tree + layout.panel_gap + dpi_scaled(
                MIN_COMMAND_TABS_PANEL_WIDTH as int,
                96,
                dpi,
            ) <= client.width
        }),
{
}

/// The tree width while the splitter is dragged to `point`: the pointer's distance from the left
/// margin, limited as `clamp_tree_panel_width` does.
pub fn splitter_drag_tree_panel_width(
    layout: LayoutSpec,
    client: ClientSize,
    dpi: u32,
    point: Point,
) -> (width: i32)
    requires
        tree_limits_fit(layout, client, dpi as int),
    ensures
        width == clamp_int(
            clamp_int(point.x - layout.content_margin, i32::MIN as int, i32::MAX as int),
            dpi_scaled(MIN_TREE_PANEL_WIDTH as int, 96, dpi as int),
            widest_tree(layout, client, dpi as int),
        ),
{
    let difference: i64 = point.x as i64 - layout.content_margin as i64;
    let requested = if difference < i32::MIN as i64 {
        i32::MIN
    } else if difference > i32::MAX as i64 {
        i32::MAX
    } else {
        difference as i32
    };
    clamp_tree_panel_width(layout, client, dpi, requested)
}

/// The smallest client area that shows both panels at their narrowest and lowest.
pub open spec fn minimum_client_for(layout: LayoutSpec, dpi: int) -> (int, int) {
    (
        layout.content_margin * 2 + dpi_scaled(MIN_TREE_PANEL_WIDTH as int, 96, dpi)
            + layout.panel_gap + dpi_scaled(MIN_COMMAND_TABS_PANEL_WIDTH as int, 96, dpi),
        layout.content_top_gap + dpi_scaled(MIN_MAIN_PANEL_HEIGHT as int, 96, dpi)
            + layout.content_margin,
    )
}

/// Computes the smallest client area that shows both panels.
pub fn minimum_main_client_size(layout: LayoutSpec, dpi: u32) -> (size: ClientSize)
    requires
        fits_i32(layout.content_margin * 2),
        fits_i32(layout.content_margin * 2 + dpi_scaled(MIN_TREE_PANEL_WIDTH as int, 96, dpi as int)),
        fits_i32(
            layout.content_margin * 2 + dpi_scaled(MIN_TREE_PANEL_WIDTH as int, 96, dpi as int)
                + layout.panel_gap,
        ),
        fits_i32(minimum_client_for(layout, dpi as int).0),
        fits_i32(
            layout.content_top_gap + dpi_scaled(MIN_MAIN_PANEL_HEIGHT as int, 96, dpi as int),
        ),
        fits_i32(minimum_client_for(layout, dpi as int).1),
    ensures
        size.width == minimum_client_for(layout, dpi as int).0,
        size.height == minimum_client_for(layout, dpi as int).1,
{
    ClientSize {
        width: layout.content_margin * 2 + scale_dimension_for_dpi(MIN_TREE_PANEL_WIDTH, dpi)
            + layout.panel_gap + scale_dimension_for_dpi(MIN_COMMAND_TABS_PANEL_WIDTH, dpi),
        height: layout.content_top_gap + scale_dimension_for_dpi(MIN_MAIN_PANEL_HEIGHT, dpi)
            + layout.content_margin,
    }
}

/// The view settings that the window layout reads and writes.
#[derive(Clone, Debug)]
pub struct ViewSettings {
    pub font_family: String,
    pub font_size: u16,
    pub theme: String,
    pub window_width: Option<i32>,
    pub window_height: Option<i32>,
    pub tree_panel_width: Option<i32>,
}

impl ViewSettings {
    /// View settings with a font and theme and no saved window layout.
    pub fn new(font_family: &str, font_size: u16, theme: &str) -> (view: ViewSettings)
        ensures
            view.font_family@ == font_family@,
            view.font_size == font_size,
            view.theme@ == theme@,
            view.window_width is None,
            view.window_height is None,
            view.tree_panel_width is None,
    {
        ViewSettings {
            font_family: string_of(font_family),
            font_size,
            theme: string_of(theme),
            window_width: None,
            window_height: None,
            tree_panel_width: None,
        }
    }

    /// The same settings with a saved window layout.
    pub fn with_window_layout(
        self,
        window_width: Option<i32>,
        window_height: Option<i32>,
        tree_panel_width: Option<i32>,
    ) -> (view: ViewSettings)
        ensures
            view.font_family == self.font_family,
            view.font_size == self.font_size,
            view.theme == self.theme,
            view.window_width == window_width,
            view.window_height == window_height,
            view.tree_panel_width == tree_panel_width,
    {
        ViewSettings { window_width, window_height, tree_panel_width, ..self }
    }

    /// Records the window size and tree width.
    pub fn set_window_layout(&mut self, width: i32, height: i32, tree_panel_width: i32)
        ensures
            final(self).font_family == old(self).font_family,
            final(self).font_size == old(self).font_size,
            final(self).theme == old(self).theme,
            final(self).window_width == Some(width),
            final(self).window_height == Some(height),
            final(self).tree_panel_width == Some(tree_panel_width),
    {
        self.window_width = Some(width);
        self.window_height = Some(height);
        self.tree_panel_width = Some(tree_panel_width);
    }
}

/// The window size to open with: the saved size when both sides were saved, else the initial
/// size.
pub fn startup_window_size(view: &ViewSettings, initial_size: WindowSize) -> (size: WindowSize)
    ensures
        size == match (view.window_width, view.window_height) {
            (Some(width), Some(height)) => WindowSize { width, height },
            _ => initial_size,
        },
{
    match (view.window_width, view.window_height) {
        (Some(width), Some(height)) => WindowSize { width, height },
        _ => initial_size,
    }
}

/// The layout to open with: the layout for the font size at `dpi`, with the saved tree width
/// (kept in pixels, not rescaled) when there is one.
pub fn startup_layout(view: &ViewSettings, dpi: u32) -> (layout: LayoutSpec)
    ensures
        layout == (LayoutSpec {
            tree_panel_width: match view.tree_panel_width {
                Some(width) => width,
                None => layout_for(view.font_size as int, dpi as int).tree_panel_width,
            },
            ..layout_for(view.font_size as int, dpi as int)
        }),
{
    let mut layout = LayoutSpec::for_font_size_and_dpi(view.font_size, dpi);
    if let Some(tree_panel_width) = view.tree_panel_width {
        layout.tree_panel_width = tree_panel_width;
    }
    layout
}

/// The view settings to save before closing: the current ones with the window's size and tree
/// width.
pub fn view_settings_with_window_layout(
    current: &ViewSettings,
    window_size: WindowSize,
    tree_panel_width: i32,
) -> (view: ViewSettings)
    ensures
        view.font_family@ == current.font_family@,
        view.font_size == current.font_size,
        view.theme@ == current.theme@,
        view.window_width == Some(window_size.width),
        view.window_height == Some(window_size.height),
        view.tree_panel_width == Some(tree_panel_width),
{
    let mut view = ViewSettings {
        font_family: string_of(current.font_family.as_str()),
        font_size: current.font_size,
        theme: string_of(current.theme.as_str()),
        window_width: current.window_width,
        window_height: current.window_height,
        tree_panel_width: current.tree_panel_width,
    };
    view.set_window_layout(window_size.width, window_size.height, tree_panel_width);
    view
}

/// Saving the window layout and opening with it again restores the same window size and tree
/// width.
pub proof fn saved_window_layout_is_restored(
    view: ViewSettings,
    window_size: WindowSize,
    tree_panel_width: i32,
    initial_size: WindowSize,
    dpi: u32,
)
    requires
        view.window_width == Some(window_size.width),
        view.window_height == Some(window_size.height),
        view.tree_panel_width == Some(tree_panel_width),
    ensures
        (match (view.window_width, view.window_height) {
            (Some(width), Some(height)) => WindowSize { width, height },
            _ => initial_size,
        }) == window_size,
        (match view.tree_panel_width {
            Some(width) => width,
            None => layout_for(view.font_size as int, dpi as int).tree_panel_width,
        }) == tree_panel_width,
{
}

/// The size of a rectangle given by its edges, when both sides are positive.
pub fn size_from_rect(left: i32, top: i32, right: i32, bottom: i32) -> (size: Option<WindowSize>)
    requires
        fits_i32(right - left),
        fits_i32(bottom - top),
    ensures
        size == (if right - left <= 0 || bottom - top <= 0 {
            None
        } else {
            Some(WindowSize { width: (right - left) as i32, height: (bottom - top) as i32 })
        }),
{
    let width = right - left;
    let height = bottom - top;
    if width <= 0 || height <= 0 {
        None
    } else {
        Some(WindowSize { width, height })
    }
}

/// The width and height that a window's frame adds to its client area, never negative.
pub fn non_client_size(window: WindowSize, client: ClientSize) -> (size: (i32, i32))
    requires
        fits_i32(window.width - client.width),
        fits_i32(window.height - client.height),
    ensures
        size == (
            non_negative(window.width - client.width) as i32,
            non_negative(window.height - client.height) as i32,
        ),
{
    let width = window.width - client.width;
    let height = window.height - client.height;
    (if width < 0 {
        0
    } else {
        width
    }, if height < 0 {
        0
    } else {
        height
    })
}

/// The warning shown when the configured interface font is missing.
pub open spec fn missing_font_warning(language: UiLanguage, font_family: Seq<char>) -> Seq<char> {
    match language {
        UiLanguage::Korean => "글꼴을 찾을 수 없어 기본값을 사용합니다: "@ + font_family,
        UiLanguage::English => "Font not found; using the default: "@ + font_family,
    }
}

/// What the startup font check gives: the view settings to use, the warnings to show, and the
/// text that the application records as a restore warning in its state, where its status message
/// shows it.
pub struct StartupFontCheck {
    pub view: ViewSettings,
    pub warnings: Vec<String>,
    pub restore_warning: Option<String>,
}

/// Checks the configured interface font at startup: a missing font is replaced by the default
/// font, with one warning naming the missing font, which is also recorded as the restore warning.
/// `font_available` is whether the configured font is installed.
pub fn validate_startup_font_settings_with(
    view: &ViewSettings,
    language: UiLanguage,
    font_available: bool,
) -> (checked: StartupFontCheck)
    ensures
        checked.view.font_size == view.font_size,
        checked.view.theme@ == view.theme@,
        checked.view.window_width == view.window_width,
        checked.view.window_height == view.window_height,
        checked.view.tree_panel_width == view.tree_panel_width,
        font_available ==> checked.view.font_family@ == view.font_family@ && checked.warnings@.len()
            == 0 && checked.restore_warning is None,
        !font_available ==> {
            &&& checked.view.font_family@ == DEFAULT_FONT_FAMILY@
            &&& checked.warnings@.len() == 1
            &&& checked.warnings@[0]@ == missing_font_warning(language, view.font_family@)
            &&& checked.restore_warning matches Some(recorded) && recorded@ == missing_font_warning(
                language,
                view.font_family@,
            )
        },
{
    let mut normalized = ViewSettings {
        font_family: string_of(view.font_family.as_str()),
        font_size: view.font_size,
        theme: string_of(view.theme.as_str()),
        window_width: view.window_width,
        window_height: view.window_height,
        tree_panel_width: view.tree_panel_width,
    };
    let mut warnings: Vec<String> = Vec::new();
    let mut restore_warning: Option<String> = None;
    if !font_available {
        let mut warning = match language {
            UiLanguage::Korean => string_of("글꼴을 찾을 수 없어 기본값을 사용합니다: "),
            UiLanguage::English => string_of("Font not found; using the default: "),
        };
        push_str(&mut warning, view.font_family.as_str());
        normalized.font_family = string_of(DEFAULT_FONT_FAMILY);
        restore_warning = Some(string_of(warning.as_str()));
        warnings.push(warning);
    }
    StartupFontCheck { view: normalized, warnings, restore_warning }
}

} // verus!
