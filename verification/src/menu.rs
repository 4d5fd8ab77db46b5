//! Menu command IDs and which menu commands are enabled for the current selection.

use vstd::prelude::*;

use crate::language::{UiLanguage, ViewTheme};
use crate::model::{Category, Workspace};
use crate::rules::{
    category_slot, command_button_move_destination, command_tab_move_destination,
    moves_down, root_position, step_destination, tree_root_keyboard_move_destination,
    workspace_category_index, workspace_keyboard_move_destination, group_neighbor,
    CommandButtonMoveDirection, CommandTabMoveDirection, TreeKeyboardMoveDirection,
    TreeRootItemRef,
};

verus! {

pub const MENU_FILE_FONT_ID: u32 = 1000;
pub const MENU_FILE_THEME_ID: u32 = 1001;
pub const MENU_FILE_UI_LANGUAGE_ID: u32 = 1002;
pub const MENU_FILE_LANGUAGE_CONFIG_ID: u32 = 1003;
pub const MENU_FILE_ABOUT_ID: u32 = 1004;
pub const MENU_FILE_CLOSE_ID: u32 = 1005;
pub const MENU_TREE_ADD_ID: u32 = 1100;
pub const MENU_TREE_CATEGORY_ADD_ID: u32 = 1101;
pub const MENU_TREE_EDIT_ID: u32 = 1102;
pub const MENU_TREE_MOVE_UP_ID: u32 = 1103;
pub const MENU_TREE_MOVE_DOWN_ID: u32 = 1104;
pub const MENU_TREE_DELETE_ID: u32 = 1105;
pub const MENU_TABS_ADD_ID: u32 = 1200;
pub const MENU_TABS_RENAME_ID: u32 = 1201;
pub const MENU_TABS_MOVE_LEFT_ID: u32 = 1202;
pub const MENU_TABS_MOVE_RIGHT_ID: u32 = 1203;
pub const MENU_TABS_DELETE_ID: u32 = 1204;
pub const MENU_COMMANDS_EXECUTE_ID: u32 = 1300;
pub const MENU_COMMANDS_ADD_ID: u32 = 1301;
pub const MENU_COMMANDS_EDIT_ID: u32 = 1302;
pub const MENU_COMMANDS_MOVE_PREVIOUS_ID: u32 = 1303;
pub const MENU_COMMANDS_MOVE_NEXT_ID: u32 = 1304;
pub const MENU_COMMANDS_DELETE_ID: u32 = 1305;
pub const MENU_THEME_SYSTEM_ID: u32 = 1410;
pub const MENU_THEME_LIGHT_ID: u32 = 1411;
pub const MENU_THEME_CLASSIC_DARK_ID: u32 = 1412;
pub const MENU_THEME_SEPIA_TEAL_ID: u32 = 1413;
pub const MENU_THEME_GRAPHITE_ID: u32 = 1414;
pub const MENU_THEME_FOREST_ID: u32 = 1415;
pub const MENU_THEME_STEEL_BLUE_ID: u32 = 1416;
pub const MENU_UI_LANGUAGE_KOREAN_ID: u32 = 1430;
pub const MENU_UI_LANGUAGE_ENGLISH_ID: u32 = 1431;

/// The `EnableMenuItem` flags of an enabled item (`MF_BYCOMMAND | MF_ENABLED`).
pub const MENU_ITEM_ENABLED_FLAGS: u32 = 0;

/// The `EnableMenuItem` flags of a grayed item (`MF_BYCOMMAND | MF_GRAYED`).
pub const MENU_ITEM_GRAYED_FLAGS: u32 = 1;

/// The menu command that selects each view theme.
pub open spec fn theme_command(theme: ViewTheme) -> u32 {
    match theme {
        ViewTheme::System => MENU_THEME_SYSTEM_ID,
        ViewTheme::Light => MENU_THEME_LIGHT_ID,
        ViewTheme::ClassicDark => MENU_THEME_CLASSIC_DARK_ID,
        ViewTheme::SepiaTeal => MENU_THEME_SEPIA_TEAL_ID,
        ViewTheme::Graphite => MENU_THEME_GRAPHITE_ID,
        ViewTheme::Forest => MENU_THEME_FOREST_ID,
        ViewTheme::SteelBlue => MENU_THEME_STEEL_BLUE_ID,
    }
}

/// The view theme a menu command selects, if it is a theme command.
pub open spec fn command_theme(command_id: u32) -> Option<ViewTheme> {
    if command_id == MENU_THEME_SYSTEM_ID {
        Some(ViewTheme::System)
    } else if command_id == MENU_THEME_LIGHT_ID {
        Some(ViewTheme::Light)
    } else if command_id == MENU_THEME_CLASSIC_DARK_ID {
        Some(ViewTheme::ClassicDark)
    } else if command_id == MENU_THEME_SEPIA_TEAL_ID {
        Some(ViewTheme::SepiaTeal)
    } else if command_id == MENU_THEME_GRAPHITE_ID {
        Some(ViewTheme::Graphite)
    } else if command_id == MENU_THEME_FOREST_ID {
        Some(ViewTheme::Forest)
    } else if command_id == MENU_THEME_STEEL_BLUE_ID {
        Some(ViewTheme::SteelBlue)
    } else {
        None
    }
}

/// The menu command of a view theme.
pub fn command_for_view_theme(theme: ViewTheme) -> (command_id: u32)
    ensures
        command_id == theme_command(theme),
{
    match theme {
        ViewTheme::System => MENU_THEME_SYSTEM_ID,
        ViewTheme::Light => MENU_THEME_LIGHT_ID,
        ViewTheme::ClassicDark => MENU_THEME_CLASSIC_DARK_ID,
        ViewTheme::SepiaTeal => MENU_THEME_SEPIA_TEAL_ID,
        ViewTheme::Graphite => MENU_THEME_GRAPHITE_ID,
        ViewTheme::Forest => MENU_THEME_FOREST_ID,
        ViewTheme::SteelBlue => MENU_THEME_STEEL_BLUE_ID,
    }
}

/// The view theme of a menu command, if it is a theme command.
pub fn view_theme_for_command(command_id: u32) -> (theme: Option<ViewTheme>)
    ensures
        theme == command_theme(command_id),
{
    if command_id == MENU_THEME_SYSTEM_ID {
        Some(ViewTheme::System)
    } else if command_id == MENU_THEME_LIGHT_ID {
        Some(ViewTheme::Light)
    } else if command_id == MENU_THEME_CLASSIC_DARK_ID {
        Some(ViewTheme::ClassicDark)
    } else if command_id == MENU_THEME_SEPIA_TEAL_ID {
        Some(ViewTheme::SepiaTeal)
    } else if command_id == MENU_THEME_GRAPHITE_ID {
        Some(ViewTheme::Graphite)
    } else if command_id == MENU_THEME_FOREST_ID {
        Some(ViewTheme::Forest)
    } else if command_id == MENU_THEME_STEEL_BLUE_ID {
        Some(ViewTheme::SteelBlue)
    } else {
        None
    }
}

/// Every view theme's menu command leads back to the theme, and every theme command leads back
/// to its own ID.
pub proof fn theme_commands_round_trip(theme: ViewTheme, command_id: u32)
    ensures
        command_theme(theme_command(theme)) == Some(theme),
        command_theme(command_id) matches Some(t) ==> theme_command(t) == command_id,
{
}

/// The menu command that selects each interface language.
pub open spec fn language_command(language: UiLanguage) -> u32 {
    match language {
        UiLanguage::Korean => MENU_UI_LANGUAGE_KOREAN_ID,
        UiLanguage::English => MENU_UI_LANGUAGE_ENGLISH_ID,
    }
}

/// The interface language a menu command selects, if it is a language command.
pub open spec fn command_language(command_id: u32) -> Option<UiLanguage> {
    if command_id == MENU_UI_LANGUAGE_KOREAN_ID {
        Some(UiLanguage::Korean)
    } else if command_id == MENU_UI_LANGUAGE_ENGLISH_ID {
        Some(UiLanguage::English)
    } else {
        None
    }
}

/// The menu command of an interface language.
pub fn command_for_ui_language(language: UiLanguage) -> (command_id: u32)
    ensures
        command_id == language_command(language),
{
    match language {
        UiLanguage::Korean => MENU_UI_LANGUAGE_KOREAN_ID,
        UiLanguage::English => MENU_UI_LANGUAGE_ENGLISH_ID,
    }
}

/// The interface language of a menu command, if it is a language command.
pub fn ui_language_for_command(command_id: u32) -> (language: Option<UiLanguage>)
    ensures
        language == command_language(command_id),
{
    if command_id == MENU_UI_LANGUAGE_KOREAN_ID {
        Some(UiLanguage::Korean)
    } else if command_id == MENU_UI_LANGUAGE_ENGLISH_ID {
        Some(UiLanguage::English)
    } else {
        None
    }
}

/// Every language's menu command leads back to the language, and every language command leads
/// back to its own ID.
pub proof fn language_commands_round_trip(language: UiLanguage, command_id: u32)
    ensures
        command_language(language_command(language)) == Some(language),
        command_language(command_id) matches Some(l) ==> language_command(l) == command_id,
{
}

/// The flags that enable or gray a menu item.
pub fn menu_item_state(enabled: bool) -> (flags: u32)
    ensures
        flags == (if enabled {
            MENU_ITEM_ENABLED_FLAGS
        } else {
            MENU_ITEM_GRAYED_FLAGS
        }),
{
    if enabled {
        MENU_ITEM_ENABLED_FLAGS
    } else {
        MENU_ITEM_GRAYED_FLAGS
    }
}

/// The selected node of the workspace tree.
#[derive(Clone, Copy, Debug, PartialEq, Eq, Structural)]
pub enum TreeNodeSelection {
    Workspace(usize),
    Category(usize),
}

/// Whether a click on a command button is ignored: a command runs in the selected workspace, so
/// nothing runs while a category is selected.
pub fn command_button_click_ignored_for_tree_selection(selection: Option<TreeNodeSelection>) -> (ignored:
    bool)
    ensures
        ignored == (selection matches Some(TreeNodeSelection::Category(_))),
{
    match selection {
        Some(TreeNodeSelection::Category(_)) => true,
        _ => false,
    }
}

/// Which commands of a command button's context menu are enabled.
#[derive(Clone, Copy, Debug, PartialEq, Eq, Structural)]
pub struct CommandButtonContextMenuState {
    pub can_execute: bool,
    pub can_edit: bool,
    pub can_delete: bool,
    pub can_move_previous: bool,
    pub can_move_next: bool,
    pub can_add_command: bool,
}

/// Whether the selected button can move one step (forward when `next`).
pub open spec fn button_can_move(selected_index: Option<usize>, count: int, next: bool) -> bool {
    match selected_index {
        Some(index) => step_destination(index as int, count, next) is Some,
        None => false,
    }
}

fn selected_button_can_move(selected_index: Option<usize>, count: usize, next: bool) -> (can_move:
    bool)
    ensures
        can_move == button_can_move(selected_index, count as int, next),
{
    match selected_index {
        Some(index) => {
            let direction = if next {
                CommandButtonMoveDirection::Next
            } else {
                CommandButtonMoveDirection::Previous
            };
            command_button_move_destination(index, count, direction).is_some()
        },
        None => false,
    }
}

/// The enabled commands of a command button's context menu. Button commands need a selected
/// button in a selected tab; running also needs a workspace rather than a category selected in
/// the tree; adding needs only a selected tab.
pub open spec fn context_menu_state_for(
    has_selected_tab: bool,
    has_selected_button: bool,
    selected_button_index: Option<usize>,
    selected_button_count: int,
    tree_selection: Option<TreeNodeSelection>,
) -> CommandButtonContextMenuState {
    let can_target_button = has_selected_tab && has_selected_button;
    CommandButtonContextMenuState {
        can_execute: can_target_button && !(tree_selection matches Some(
            TreeNodeSelection::Category(_),
        )),
        can_edit: can_target_button,
        can_delete: can_target_button,
        can_move_previous: can_target_button && button_can_move(
            selected_button_index,
            selected_button_count,
            false,
        ),
        can_move_next: can_target_button && button_can_move(
            selected_button_index,
            selected_button_count,
            true,
        ),
        can_add_command: has_selected_tab,
    }
}

/// Computes the enabled commands of a command button's context menu.
pub fn command_button_context_menu_state(
    has_selected_tab: bool,
    has_selected_button: bool,
    selected_button_index: Option<usize>,
    selected_button_count: usize,
    tree_selection: Option<TreeNodeSelection>,
) -> (state: CommandButtonContextMenuState)
    ensures
        state == context_menu_state_for(
            has_selected_tab,
            has_selected_button,
            selected_button_index,
            selected_button_count as int,
            tree_selection,
        ),
{
    let can_target_button = has_selected_tab && has_selected_button;
    CommandButtonContextMenuState {
        can_execute: can_target_button && !command_button_click_ignored_for_tree_selection(
            tree_selection,
        ),
        can_edit: can_target_button,
        can_delete: can_target_button,
        can_move_previous: can_target_button && selected_button_can_move(
            selected_button_index,
            selected_button_count,
            false,
        ),
        can_move_next: can_target_button && selected_button_can_move(
            selected_button_index,
            selected_button_count,
            true,
        ),
        can_add_command: has_selected_tab,
    }
}

/// Which commands of the Commands menu are enabled.
#[derive(Clone, Copy, Debug, PartialEq, Eq, Structural)]
pub struct CommandMenuState {
    pub can_execute: bool,
    pub can_add: bool,
    pub can_edit: bool,
    pub can_delete: bool,
    pub can_move_previous: bool,
    pub can_move_next: bool,
}

/// Computes the enabled commands of the Commands menu, which follow the same rules as the
/// button context menu.
pub fn command_menu_state(
    has_selected_tab: bool,
    has_selected_button: bool,
    selected_button_index: Option<usize>,
    selected_button_count: usize,
    tree_selection: Option<TreeNodeSelection>,
) -> (state: CommandMenuState)
    ensures
        ({
            let context = context_menu_state_for(
                has_selected_tab,
                has_selected_button,
                selected_button_index,
                selected_button_count as int,
                tree_selection,
            );
            state == CommandMenuState {
                can_execute: context.can_execute,
                can_add: context.can_add_command,
                can_edit: context.can_edit,
                can_delete: context.can_delete,
                can_move_previous: context.can_move_previous,
                can_move_next: context.can_move_next,
            }
        }),
{
    let context = command_button_context_menu_state(
        has_selected_tab,
        has_selected_button,
        selected_button_index,
        selected_button_count,
        tree_selection,
    );
    CommandMenuState {
        can_execute: context.can_execute,
        can_add: context.can_add_command,
        can_edit: context.can_edit,
        can_delete: context.can_delete,
        can_move_previous: context.can_move_previous,
        can_move_next: context.can_move_next,
    }
}

/// Which commands of the Tabs menu are enabled.
#[derive(Clone, Copy, Debug, PartialEq, Eq, Structural)]
pub struct TabsMenuState {
    pub can_rename: bool,
    pub can_delete: bool,
    pub can_move_left: bool,
    pub can_move_right: bool,
}

/// Computes the enabled commands of the Tabs menu: renaming and deleting need a selected tab,
/// and a move needs room in its direction.
pub fn tabs_menu_state(selected_index: Option<usize>, tab_count: usize) -> (state: TabsMenuState)
    ensures
        state.can_rename == selected_index is Some,
        state.can_delete == selected_index is Some,
        state.can_move_left == match selected_index {
            Some(index) => step_destination(index as int, tab_count as int, false) is Some,
            None => false,
        },
        state.can_move_right == match selected_index {
            Some(index) => step_destination(index as int, tab_count as int, true) is Some,
            None => false,
        },
{
    match selected_index {
        Some(index) => TabsMenuState {
            can_rename: true,
            can_delete: true,
            can_move_left: command_tab_move_destination(
                index,
                tab_count,
                CommandTabMoveDirection::Left,
            ).is_some(),
            can_move_right: command_tab_move_destination(
                index,
                tab_count,
                CommandTabMoveDirection::Right,
            ).is_some(),
        },
        None => TabsMenuState {
            can_rename: false,
            can_delete: false,
            can_move_left: false,
            can_move_right: false,
        },
    }
}

/// Whether a tree node can move one step (down when `down`): a workspace in a category moves
/// within its category, any other node moves in the root order.
pub open spec fn tree_node_can_move(
    selection: TreeNodeSelection,
    workspaces: Seq<Workspace>,
    categories: Seq<Category>,
    root_items: Seq<TreeRootItemRef>,
    down: bool,
) -> bool {
    let root_item = match selection {
        TreeNodeSelection::Workspace(index) => TreeRootItemRef::Workspace(index),
        TreeNodeSelection::Category(index) => TreeRootItemRef::Category(index),
    };
    match selection {
        TreeNodeSelection::Workspace(index) => {
            if index >= workspaces.len() {
                false
            } else if category_slot(workspaces[index as int], categories) is Some {
                exists|neighbor: int|
                    #[trigger] group_neighbor(workspaces, categories, index as int, neighbor, down)
            } else {
                match root_position(root_items, root_item) {
                    Some(p) => step_destination(p, root_items.len() as int, down) is Some,
                    None => false,
                }
            }
        },
        TreeNodeSelection::Category(_) => match root_position(root_items, root_item) {
            Some(p) => step_destination(p, root_items.len() as int, down) is Some,
            None => false,
        },
    }
}

fn tree_node_move_possible(
    selection: TreeNodeSelection,
    workspaces: &Vec<Workspace>,
    categories: &Vec<Category>,
    root_items: &Vec<TreeRootItemRef>,
    down: bool,
) -> (possible: bool)
    ensures
        possible == tree_node_can_move(selection, workspaces@, categories@, root_items@, down),
{
    let direction = if down {
        TreeKeyboardMoveDirection::Down
    } else {
        TreeKeyboardMoveDirection::Up
    };
    match selection {
        TreeNodeSelection::Workspace(index) => {
            if index >= workspaces.len() {
                return false;
            }
            if workspace_category_index(&workspaces[index], categories).is_some() {
                let destination = workspace_keyboard_move_destination(
                    workspaces,
                    categories,
                    index,
                    direction,
                );
                match destination {
                    Some(neighbor) => {
                        assert(group_neighbor(
                            workspaces@,
                            categories@,
                            index as int,
                            neighbor as int,
                            down,
                        ));
                        true
                    },
                    None => {
                        assert(moves_down(direction) == down);
                        false
                    },
                }
            } else {
                tree_root_keyboard_move_destination(
                    root_items,
                    TreeRootItemRef::Workspace(index),
                    direction,
                ).is_some()
            }
        },
        TreeNodeSelection::Category(index) => tree_root_keyboard_move_destination(
            root_items,
            TreeRootItemRef::Category(index),
            direction,
        ).is_some(),
    }
}

/// Which commands of the workspace tree menu are enabled.
#[derive(Clone, Copy, Debug, PartialEq, Eq, Structural)]
pub struct TreeMenuState {
    pub can_delete_tree_item: bool,
    pub can_edit_tree_item: bool,
    pub can_move_up: bool,
    pub can_move_down: bool,
}

/// Computes whether the selected tree node can move up and down.
pub fn tree_move_menu_state(
    selection: Option<TreeNodeSelection>,
    workspaces: &Vec<Workspace>,
    categories: &Vec<Category>,
    root_items: &Vec<TreeRootItemRef>,
) -> (state: (bool, bool))
    ensures
        state == match selection {
            Some(node) => (
                tree_node_can_move(node, workspaces@, categories@, root_items@, false),
                tree_node_can_move(node, workspaces@, categories@, root_items@, true),
            ),
            None => (false, false),
        },
{
    match selection {
        Some(node) => (
            tree_node_move_possible(node, workspaces, categories, root_items, false),
            tree_node_move_possible(node, workspaces, categories, root_items, true),
        ),
        None => (false, false),
    }
}

/// Computes the enabled commands of the workspace tree menu: editing and deleting need a
/// selected node, and moves follow `tree_move_menu_state`.
pub fn tree_menu_state(
    selection: Option<TreeNodeSelection>,
    workspaces: &Vec<Workspace>,
    categories: &Vec<Category>,
    root_items: &Vec<TreeRootItemRef>,
) -> (state: TreeMenuState)
    ensures
        state.can_delete_tree_item == selection is Some,
        state.can_edit_tree_item == selection is Some,
        (state.can_move_up, state.can_move_down) == match selection {
            Some(node) => (
                tree_node_can_move(node, workspaces@, categories@, root_items@, false),
                tree_node_can_move(node, workspaces@, categories@, root_items@, true),
            ),
            None => (false, false),
        },
{
    let (can_move_up, can_move_down) = tree_move_menu_state(
        selection,
        workspaces,
        categories,
        root_items,
    );
    TreeMenuState {
        can_delete_tree_item: selection.is_some(),
        can_edit_tree_item: selection.is_some(),
        can_move_up,
        can_move_down,
    }
}

} // verus!
