use j3devhelper::language::{UiLanguage, ViewTheme};
use j3devhelper::menu::{
    command_button_click_ignored_for_tree_selection, command_button_context_menu_state,
    command_for_ui_language, command_for_view_theme, command_menu_state, tabs_menu_state,
    tree_menu_state, tree_move_menu_state, ui_language_for_command, view_theme_for_command,
    CommandButtonContextMenuState, TreeNodeSelection,
};
use j3devhelper::model::{Category, Workspace};
use j3devhelper::rules::{
    command_button_drop_destination, command_button_move_destination,
    command_tab_move_destination, tree_root_drop_destination,
    tree_root_keyboard_move_destination, workspace_belongs_to_category, workspace_category_index,
    workspace_keyboard_move_destination, workspace_tree_drop_destination,
    workspace_tree_visible_group_drop_destination, CommandButtonMoveDirection,
    CommandTabMoveDirection, TreeKeyboardMoveDirection, TreeRootItemRef,
    WorkspaceTreeDropTarget,
};
use j3devhelper::tree::{
    capture_tree_view_snapshot, category_index_from_tree_lparam, category_tree_lparam,
    tree_view_snapshot_has_same_shape, workspace_index_from_tree_lparam, workspace_tree_groups,
    workspace_tree_lparam,
};

fn workspace(path: &str, name: &str, category: Option<&str>) -> Workspace {
    Workspace::new(path, name, "Rust")
        .expect("workspace should be valid")
        .with_category(category.map(|c| c.to_owned()))
}

fn backend_workspaces() -> (Vec<Workspace>, Vec<Category>) {
    let categories = vec![Category::new("Backend").expect("category should be valid")];
    let workspaces = vec![
        workspace("C:\\projects\\api", "api", Some("Backend")),
        workspace("C:\\projects\\root-a", "root-a", None),
        workspace("C:\\projects\\worker", "worker", Some("Backend")),
        workspace("C:\\projects\\root-b", "root-b", None),
    ];
    (workspaces, categories)
}

#[test]
fn workspace_tree_drop_destination_accounts_for_removed_source() {
    assert_eq!(
        workspace_tree_drop_destination(
            1,
            WorkspaceTreeDropTarget::Workspace {
                index: 3,
                insert_after: false,
            },
            4,
        ),
        Some(2)
    );
    assert_eq!(
        workspace_tree_drop_destination(
            3,
            WorkspaceTreeDropTarget::Workspace {
                index: 1,
                insert_after: true,
            },
            4,
        ),
        Some(2)
    );
}

#[test]
fn workspace_tree_drop_destination_ignores_noop_targets() {
    assert_eq!(
        workspace_tree_drop_destination(
            1,
            WorkspaceTreeDropTarget::Workspace {
                index: 2,
                insert_after: false,
            },
            4,
        ),
        None
    );
    assert_eq!(
        workspace_tree_drop_destination(
            1,
            WorkspaceTreeDropTarget::Workspace {
                index: 1,
                insert_after: true,
            },
            4,
        ),
        None
    );
}

#[test]
fn workspace_tree_drop_destination_ignores_category_targets() {
    assert_eq!(
        workspace_tree_drop_destination(0, WorkspaceTreeDropTarget::Category { index: 0 }, 2),
        None
    );
}

#[test]
fn workspace_tree_visible_group_drop_destination_allows_same_group_targets() {
    let (workspaces, categories) = backend_workspaces();

    assert_eq!(
        workspace_tree_visible_group_drop_destination(
            &workspaces,
            &categories,
            0,
            WorkspaceTreeDropTarget::Workspace {
                index: 2,
                insert_after: true,
            },
        ),
        Some(2)
    );
    assert_eq!(
        workspace_tree_visible_group_drop_destination(
            &workspaces,
            &categories,
            1,
            WorkspaceTreeDropTarget::Workspace {
                index: 3,
                insert_after: true,
            },
        ),
        Some(3)
    );
}

#[test]
fn workspace_tree_visible_group_drop_destination_ignores_cross_group_targets() {
    let categories = vec![
        Category::new("Backend").expect("category should be valid"),
        Category::new("Frontend").expect("category should be valid"),
    ];
    let workspaces = vec![
        workspace("C:\\projects\\api", "api", Some("Backend")),
        workspace("C:\\projects\\root", "root", None),
        workspace("C:\\projects\\web", "web", Some("Frontend")),
    ];

    assert_eq!(
        workspace_tree_visible_group_drop_destination(
            &workspaces,
            &categories,
            0,
            WorkspaceTreeDropTarget::Workspace {
                index: 1,
                insert_after: false,
            },
        ),
        None
    );
    assert_eq!(
        workspace_tree_visible_group_drop_destination(
            &workspaces,
            &categories,
            1,
            WorkspaceTreeDropTarget::Workspace {
                index: 0,
                insert_after: true,
            },
        ),
        None
    );
    assert_eq!(
        workspace_tree_visible_group_drop_destination(
            &workspaces,
            &categories,
            0,
            WorkspaceTreeDropTarget::Workspace {
                index: 2,
                insert_after: true,
            },
        ),
        None
    );
}

#[test]
fn keyboard_workspace_move_uses_visible_group_order() {
    let (workspaces, categories) = backend_workspaces();

    assert_eq!(
        workspace_keyboard_move_destination(
            &workspaces,
            &categories,
            2,
            TreeKeyboardMoveDirection::Up,
        ),
        Some(0)
    );
    assert_eq!(
        workspace_keyboard_move_destination(
            &workspaces,
            &categories,
            1,
            TreeKeyboardMoveDirection::Down,
        ),
        Some(3)
    );
}

#[test]
fn keyboard_workspace_move_ignores_group_boundaries() {
    let categories = vec![Category::new("Backend").expect("category should be valid")];
    let workspaces = vec![
        workspace("C:\\projects\\api", "api", Some("Backend")),
        workspace("C:\\projects\\root", "root", None),
    ];

    assert_eq!(
        workspace_keyboard_move_destination(
            &workspaces,
            &categories,
            0,
            TreeKeyboardMoveDirection::Up,
        ),
        None
    );
    assert_eq!(
        workspace_keyboard_move_destination(
            &workspaces,
            &categories,
            1,
            TreeKeyboardMoveDirection::Down,
        ),
        None
    );
}

#[test]
fn keyboard_root_move_uses_mixed_tree_order() {
    let root_items = vec![
        TreeRootItemRef::Category(0),
        TreeRootItemRef::Workspace(0),
        TreeRootItemRef::Workspace(1),
        TreeRootItemRef::Category(1),
    ];

    assert_eq!(
        tree_root_keyboard_move_destination(
            &root_items,
            TreeRootItemRef::Workspace(0),
            TreeKeyboardMoveDirection::Up,
        ),
        Some(0),
    );
    assert_eq!(
        tree_root_keyboard_move_destination(
            &root_items,
            TreeRootItemRef::Workspace(1),
            TreeKeyboardMoveDirection::Down,
        ),
        Some(3),
    );
}

#[test]
fn keyboard_root_move_ignores_boundaries() {
    let root_items = vec![TreeRootItemRef::Category(0), TreeRootItemRef::Workspace(0)];

    assert_eq!(
        tree_root_keyboard_move_destination(
            &root_items,
            TreeRootItemRef::Category(0),
            TreeKeyboardMoveDirection::Up,
        ),
        None,
    );
    assert_eq!(
        tree_root_keyboard_move_destination(
            &root_items,
            TreeRootItemRef::Workspace(0),
            TreeKeyboardMoveDirection::Down,
        ),
        None,
    );
    assert_eq!(
        tree_root_keyboard_move_destination(
            &root_items,
            TreeRootItemRef::Category(2),
            TreeKeyboardMoveDirection::Up,
        ),
        None,
    );
}

#[test]
fn root_drop_destination_accounts_for_removed_source() {
    let root_items = vec![
        TreeRootItemRef::Category(0),
        TreeRootItemRef::Workspace(0),
        TreeRootItemRef::Workspace(1),
        TreeRootItemRef::Category(1),
    ];

    assert_eq!(
        tree_root_drop_destination(
            &root_items,
            TreeRootItemRef::Workspace(0),
            TreeRootItemRef::Category(1),
            false,
        ),
        Some(2),
    );
    assert_eq!(
        tree_root_drop_destination(
            &root_items,
            TreeRootItemRef::Category(1),
            TreeRootItemRef::Workspace(0),
            true,
        ),
        Some(2),
    );
}

#[test]
fn command_button_drop_destination_uses_target_position() {
    assert_eq!(command_button_drop_destination(0, 2, 4), Some(2));
    assert_eq!(command_button_drop_destination(3, 1, 4), Some(1));
}

#[test]
fn command_button_drop_destination_ignores_invalid_or_same_targets() {
    assert_eq!(command_button_drop_destination(1, 1, 4), None);
    assert_eq!(command_button_drop_destination(4, 1, 4), None);
    assert_eq!(command_button_drop_destination(1, 4, 4), None);
    assert_eq!(command_button_drop_destination(0, 1, 1), None);
}

#[test]
fn command_button_click_ignores_category_tree_selection() {
    assert!(command_button_click_ignored_for_tree_selection(Some(
        TreeNodeSelection::Category(0)
    )));
    assert!(!command_button_click_ignored_for_tree_selection(Some(
        TreeNodeSelection::Workspace(0)
    )));
    assert!(!command_button_click_ignored_for_tree_selection(None));
}

#[test]
fn command_button_context_menu_state_enables_selected_button_actions() {
    assert_eq!(
        command_button_context_menu_state(
            true,
            true,
            Some(1),
            3,
            Some(TreeNodeSelection::Workspace(0))
        ),
        CommandButtonContextMenuState {
            can_execute: true,
            can_edit: true,
            can_delete: true,
            can_move_previous: true,
            can_move_next: true,
            can_add_command: true,
        }
    );
}

#[test]
fn command_button_context_menu_state_disables_execute_for_category_selection() {
    let state = command_button_context_menu_state(
        true,
        true,
        Some(1),
        3,
        Some(TreeNodeSelection::Category(0)),
    );

    assert!(!state.can_execute);
    assert!(state.can_edit);
    assert!(state.can_delete);
    assert!(state.can_move_previous);
    assert!(state.can_move_next);
    assert!(state.can_add_command);
}

#[test]
fn command_button_context_menu_state_disables_button_actions_without_button() {
    assert_eq!(
        command_button_context_menu_state(true, false, None, 0, None),
        CommandButtonContextMenuState {
            can_execute: false,
            can_edit: false,
            can_delete: false,
            can_move_previous: false,
            can_move_next: false,
            can_add_command: true,
        }
    );
}

#[test]
fn command_button_move_destination_moves_one_step_vertically() {
    assert_eq!(
        command_button_move_destination(1, 3, CommandButtonMoveDirection::Previous),
        Some(0)
    );
    assert_eq!(
        command_button_move_destination(1, 3, CommandButtonMoveDirection::Next),
        Some(2)
    );
}

#[test]
fn command_button_move_destination_ignores_edges_and_invalid_indices() {
    assert_eq!(
        command_button_move_destination(0, 3, CommandButtonMoveDirection::Previous),
        None
    );
    assert_eq!(
        command_button_move_destination(2, 3, CommandButtonMoveDirection::Next),
        None
    );
    assert_eq!(
        command_button_move_destination(3, 3, CommandButtonMoveDirection::Previous),
        None
    );
    assert_eq!(
        command_button_move_destination(0, 1, CommandButtonMoveDirection::Next),
        None
    );
}

#[test]
fn command_tab_move_destination_moves_one_step_horizontally() {
    assert_eq!(
        command_tab_move_destination(1, 3, CommandTabMoveDirection::Left),
        Some(0)
    );
    assert_eq!(
        command_tab_move_destination(1, 3, CommandTabMoveDirection::Right),
        Some(2)
    );
}

#[test]
fn command_tab_move_destination_ignores_edges_and_invalid_indices() {
    assert_eq!(command_tab_move_destination(0, 3, CommandTabMoveDirection::Left), None);
    assert_eq!(command_tab_move_destination(2, 3, CommandTabMoveDirection::Right), None);
    assert_eq!(command_tab_move_destination(3, 3, CommandTabMoveDirection::Left), None);
    assert_eq!(command_tab_move_destination(0, 1, CommandTabMoveDirection::Right), None);
}

#[test]
fn theme_menu_commands_round_trip_all_view_themes() {
    for theme in ViewTheme::options().iter().copied() {
        let command = command_for_view_theme(theme);
        assert_eq!(view_theme_for_command(command), Some(theme));
    }
}

#[test]
fn language_menu_commands_round_trip_and_reject_other_ids() {
    for language in UiLanguage::options().iter().copied() {
        let command = command_for_ui_language(language);
        assert_eq!(ui_language_for_command(command), Some(language));
    }
    assert_eq!(command_for_ui_language(UiLanguage::Korean), 1430);
    assert_eq!(command_for_view_theme(ViewTheme::SteelBlue), 1416);
    assert_eq!(ui_language_for_command(1000), None);
    assert_eq!(view_theme_for_command(1430), None);
}

#[test]
fn tree_item_lparam_separates_categories_from_workspaces() {
    let workspace_lparam = workspace_tree_lparam(0).expect("workspace lparam should fit");
    let category_lparam = category_tree_lparam(0).expect("category lparam should fit");

    assert_eq!(workspace_index_from_tree_lparam(workspace_lparam), Some(0));
    assert_eq!(workspace_index_from_tree_lparam(category_lparam), None);
    assert_eq!(category_index_from_tree_lparam(category_lparam), Some(0));
    assert_eq!(category_index_from_tree_lparam(workspace_lparam), None);
    assert!(category_lparam < 0);
}

#[test]
fn tree_item_lparam_limits_and_extremes() {
    assert_eq!(category_tree_lparam(4), Some(-5));
    assert_eq!(category_index_from_tree_lparam(-5), Some(4));
    assert_eq!(category_tree_lparam(isize::MAX as usize), None);
    assert_eq!(workspace_tree_lparam(isize::MAX as usize), Some(isize::MAX));
    assert_eq!(workspace_tree_lparam(usize::MAX), None);
    assert_eq!(category_index_from_tree_lparam(isize::MIN), None);
}

#[test]
fn category_membership_uses_the_first_matching_category() {
    let categories = vec![
        Category::new("Backend").expect("category should be valid"),
        Category::new("Backend").expect("category should be valid"),
        Category::new("Tools").expect("category should be valid"),
    ];
    let tool = workspace("C:\\tools", "tools", Some("Tools"));
    let orphan = workspace("C:\\orphan", "orphan", Some("Missing"));
    let backend = workspace("C:\\api", "api", Some("Backend"));
    assert_eq!(workspace_category_index(&tool, &categories), Some(2));
    assert_eq!(workspace_category_index(&backend, &categories), Some(0));
    assert_eq!(workspace_category_index(&orphan, &categories), None);
    assert!(workspace_belongs_to_category(&tool, &categories[2]));
    assert!(!workspace_belongs_to_category(&orphan, &categories[0]));
}

#[test]
fn tree_groups_list_each_category_members_in_order() {
    let (workspaces, categories) = backend_workspaces();
    let groups = workspace_tree_groups(&workspaces, &categories);
    assert_eq!(groups.category_workspace_indexes, vec![vec![0, 2]]);
}

#[test]
fn snapshot_matches_the_tree_it_was_taken_from() {
    let (workspaces, categories) = backend_workspaces();
    let root_items = vec![
        TreeRootItemRef::Category(0),
        TreeRootItemRef::Workspace(1),
        TreeRootItemRef::Workspace(3),
    ];
    let snapshot = capture_tree_view_snapshot(&root_items, &categories, &workspaces);
    assert!(tree_view_snapshot_has_same_shape(&snapshot, &root_items, &categories, &workspaces));

    let mut moved = workspaces.clone();
    moved[1] = moved[1].clone().with_category(Some("Backend".to_owned()));
    assert!(!tree_view_snapshot_has_same_shape(&snapshot, &root_items, &categories, &moved));
    let reordered = vec![root_items[1], root_items[0], root_items[2]];
    assert!(!tree_view_snapshot_has_same_shape(&snapshot, &reordered, &categories, &workspaces));
}

#[test]
fn menu_states_follow_selection() {
    let (workspaces, categories) = backend_workspaces();
    let root_items = vec![
        TreeRootItemRef::Category(0),
        TreeRootItemRef::Workspace(1),
        TreeRootItemRef::Workspace(3),
    ];
    assert_eq!(
        tree_move_menu_state(None, &workspaces, &categories, &root_items),
        (false, false)
    );
    assert_eq!(
        tree_move_menu_state(
            Some(TreeNodeSelection::Workspace(0)),
            &workspaces,
            &categories,
            &root_items
        ),
        (false, true)
    );
    assert_eq!(
        tree_move_menu_state(
            Some(TreeNodeSelection::Workspace(1)),
            &workspaces,
            &categories,
            &root_items
        ),
        (true, true)
    );
    assert_eq!(
        tree_move_menu_state(
            Some(TreeNodeSelection::Category(0)),
            &workspaces,
            &categories,
            &root_items
        ),
        (false, true)
    );
    let state = tree_menu_state(
        Some(TreeNodeSelection::Workspace(3)),
        &workspaces,
        &categories,
        &root_items,
    );
    assert!(state.can_delete_tree_item && state.can_edit_tree_item);
    assert!(state.can_move_up && !state.can_move_down);

    let tabs = tabs_menu_state(Some(0), 2);
    assert!(tabs.can_rename && tabs.can_delete && !tabs.can_move_left && tabs.can_move_right);
    let none = tabs_menu_state(None, 2);
    assert!(!none.can_rename && !none.can_move_right);

    let commands = command_menu_state(true, true, Some(0), 2, None);
    assert!(commands.can_execute && commands.can_add && !commands.can_move_previous);
    assert!(commands.can_move_next);
}

#[test]
fn a_step_back_undoes_a_step() {
    for count in 1..6usize {
        for index in 0..count {
            if let Some(next) =
                command_button_move_destination(index, count, CommandButtonMoveDirection::Next)
            {
                assert_eq!(
                    command_button_move_destination(next, count, CommandButtonMoveDirection::Previous),
                    Some(index)
                );
            }
            if let Some(left) = command_tab_move_destination(index, count, CommandTabMoveDirection::Left)
            {
                assert_eq!(
                    command_tab_move_destination(left, count, CommandTabMoveDirection::Right),
                    Some(index)
                );
            }
        }
    }
}
