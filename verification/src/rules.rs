//! Where workspaces, categories, command tabs and command buttons go when they are moved with the
//! keyboard or dropped after a drag.
//!
//! The workspace tree shows categories and top-level workspaces in one mixed root order; each
//! category shows the workspaces whose category name matches it. A workspace whose category
//! names no listed category is shown at the top level. Workspaces are moved within the group they
//! are shown in.

use vstd::prelude::*;

use crate::model::{Category, Workspace};
use crate::text::text_equals;

verus! {

/// An entry of the workspace tree's top level.
#[derive(Clone, Copy, Debug, PartialEq, Eq, Structural)]
pub enum TreeRootItemRef {
    Category(usize),
    Workspace(usize),
}

/// A keyboard move in the workspace tree.
#[derive(Clone, Copy, Debug, PartialEq, Eq, Structural)]
pub enum TreeKeyboardMoveDirection {
    Up,
    Down,
}

/// Whether a keyboard move goes down the tree.
pub open spec fn moves_down(direction: TreeKeyboardMoveDirection) -> bool {
    direction == TreeKeyboardMoveDirection::Down
}

/// A move of a command button in its tab.
#[derive(Clone, Copy, Debug, PartialEq, Eq, Structural)]
pub enum CommandButtonMoveDirection {
    Previous,
    Next,
}

/// A move of a command tab among the tabs.
#[derive(Clone, Copy, Debug, PartialEq, Eq, Structural)]
pub enum CommandTabMoveDirection {
    Left,
    Right,
}

/// The tree item a dragged workspace is dropped on: before or after a workspace, or into a
/// category.
#[derive(Clone, Copy, Debug, PartialEq, Eq, Structural)]
pub enum WorkspaceTreeDropTarget {
    Workspace { index: usize, insert_after: bool },
    Category { index: usize },
}

/// The index one step from `index` in a list of `count` items, if that step stays in the list.
pub open spec fn step_destination(index: int, count: int, forward: bool) -> Option<usize> {
    if forward {
        if 0 <= index && index + 1 < count {
            Some((index + 1) as usize)
        } else {
            None
        }
    } else {
        if 0 < index < count {
            Some((index - 1) as usize)
        } else {
            None
        }
    }
}

/// A one-step move is undone by a one-step move the other way: a command button moved to the
/// next place and then to the previous one (or a tab moved right, then left) is back where it
/// started.
pub proof fn step_back_undoes_step(index: usize, count: usize, forward: bool)
    requires
        step_destination(index as int, count as int, forward) is Some,
    ensures
        step_destination(
            step_destination(index as int, count as int, forward)->0 as int,
            count as int,
            !forward,
        ) == Some(index),
{
}

fn one_step(index: usize, count: usize, forward: bool) -> (destination: Option<usize>)
    ensures
        destination == step_destination(index as int, count as int, forward),
{
    if forward {
        if count > 0 && index < count - 1 {
            Some(index + 1)
        } else {
            None
        }
    } else {
        if index > 0 && index < count {
            Some(index - 1)
        } else {
            None
        }
    }
}

/// Where a command button moves one step towards the start or the end of its tab.
pub fn command_button_move_destination(
    index: usize,
    count: usize,
    direction: CommandButtonMoveDirection,
) -> (destination: Option<usize>)
    ensures
        destination == step_destination(
            index as int,
            count as int,
            direction == CommandButtonMoveDirection::Next,
        ),
{
    one_step(index, count, direction == CommandButtonMoveDirection::Next)
}

/// Where a command tab moves one step to the left or the right.
pub fn command_tab_move_destination(
    index: usize,
    count: usize,
    direction: CommandTabMoveDirection,
) -> (destination: Option<usize>)
    ensures
        destination == step_destination(
            index as int,
            count as int,
            direction == CommandTabMoveDirection::Right,
        ),
{
    one_step(index, count, direction == CommandTabMoveDirection::Right)
}

/// Where a command button dragged onto another button of the same tab goes: to that button's
/// place.
pub fn command_button_drop_destination(source_index: usize, target_index: usize, count: usize) -> (destination:
    Option<usize>)
    ensures
        destination == (if source_index < count && target_index < count && source_index
            != target_index {
            Some(target_index)
        } else {
            None
        }),
{
    if source_index < count && target_index < count && source_index != target_index {
        Some(target_index)
    } else {
        None
    }
}

/// Where an item at `source` goes when it is dropped before (or after) the item at `target` of
/// the same list, counted in the list without the item; `None` when it would not move.
pub open spec fn insertion_destination(source: int, target: int, insert_after: bool) -> Option<usize> {
    let position = if insert_after {
        target + 1
    } else {
        target
    };
    let destination = if position > source {
        position - 1
    } else {
        position
    };
    if destination == source {
        None
    } else {
        Some(destination as usize)
    }
}

fn insertion_index(source: usize, target: usize, insert_after: bool) -> (destination: Option<usize>)
    requires
        target < usize::MAX,
    ensures
        destination == insertion_destination(source as int, target as int, insert_after),
{
    let position = if insert_after {
        target + 1
    } else {
        target
    };
    let destination = if position > source {
        position - 1
    } else {
        position
    };
    if destination == source {
        None
    } else {
        Some(destination)
    }
}

/// Dropping an item next to a target and moving it there puts it right before (or right after)
/// the target.
#[verifier::spinoff_prover]
#[verifier::rlimit(30)]
pub proof fn dropped_item_lands_next_to_target<T>(
    items: Seq<T>,
    source: int,
    target: int,
    insert_after: bool,
)
    requires
        items.len() <= usize::MAX,
        0 <= source < items.len(),
        0 <= target < items.len(),
        insertion_destination(source, target, insert_after) is Some,
    ensures
        ({
            let destination = insertion_destination(source, target, insert_after)->0 as int;
            let moved = items.remove(source).insert(destination, items[source]);
            &&& moved.len() == items.len()
            &&& moved[destination] == items[source]
            &&& insert_after ==> moved[destination - 1] == items[target]
            &&& !insert_after ==> moved[destination + 1] == items[target]
        }),
{
    let position = if insert_after {
        target + 1
    } else {
        target
    };
    let destination = if position > source {
        position - 1
    } else {
        position
    };
    assert(insertion_destination(source, target, insert_after) == Some(destination as usize));
    assert(destination != source);
    let removed = items.remove(source);
    items.remove_ensures(source);
    assert(0 <= destination <= removed.len());
    removed.insert_ensures(destination, items[source]);
    let moved = removed.insert(destination, items[source]);
    if insert_after {
        assert(destination >= 1);
        assert(moved[destination - 1] == removed[destination - 1]);
        if target >= source {
            assert(removed[target - 1] == items[target]);
        } else {
            assert(removed[target] == items[target]);
        }
    } else {
        assert(destination < removed.len());
        assert(moved[destination + 1] == removed[destination]);
        if target > source {
            assert(removed[target - 1] == items[target]);
        } else {
            assert(removed[target] == items[target]);
        }
    }
}

/// Where a workspace dropped before or after another workspace goes, among `count` workspaces.
/// A drop on a category gives no position.
pub fn workspace_tree_drop_destination(
    source_index: usize,
    target: WorkspaceTreeDropTarget,
    count: usize,
) -> (destination: Option<usize>)
    ensures
        destination == match target {
            WorkspaceTreeDropTarget::Workspace { index, insert_after } => {
                if source_index < count && index < count {
                    insertion_destination(source_index as int, index as int, insert_after)
                } else {
                    None
                }
            },
            WorkspaceTreeDropTarget::Category { .. } => None,
        },
{
    match target {
        WorkspaceTreeDropTarget::Workspace { index, insert_after } => {
            if source_index < count && index < count {
                insertion_index(source_index, index, insert_after)
            } else {
                None
            }
        },
        WorkspaceTreeDropTarget::Category { .. } => None,
    }
}

/// Whether `workspace` is placed in `category`.
pub open spec fn belongs_to(workspace: Workspace, category: Category) -> bool {
    match workspace.category {
        Some(name) => name@ == category.name@,
        None => false,
    }
}

/// Whether `index` is the first category of the list that holds `workspace`.
pub open spec fn is_first_category(workspace: Workspace, categories: Seq<Category>, index: int) -> bool {
    &&& 0 <= index < categories.len()
    &&& belongs_to(workspace, categories[index])
    &&& forall|k: int| 0 <= k < index ==> !belongs_to(workspace, #[trigger] categories[k])
}

/// The first listed category that holds `workspace`, or `None` when it is shown at the top
/// level.
pub open spec fn category_slot(workspace: Workspace, categories: Seq<Category>) -> Option<int> {
    if exists|index: int| is_first_category(workspace, categories, index) {
        Some(choose|index: int| is_first_category(workspace, categories, index))
    } else {
        None
    }
}

proof fn lemma_first_category_unique(
    workspace: Workspace,
    categories: Seq<Category>,
    a: int,
    b: int,
)
    requires
        is_first_category(workspace, categories, a),
        is_first_category(workspace, categories, b),
    ensures
        a == b,
{
    if a < b {
        assert(!belongs_to(workspace, categories[a]));
    } else if b < a {
        assert(!belongs_to(workspace, categories[b]));
    }
}

/// Whether `workspace` is placed in `category`.
pub fn workspace_belongs_to_category(workspace: &Workspace, category: &Category) -> (belongs: bool)
    ensures
        belongs == belongs_to(*workspace, *category),
{
    match &workspace.category {
        Some(name) => text_equals(name.as_str(), category.name.as_str()),
        None => false,
    }
}

/// The index of the first listed category that holds `workspace`.
pub fn workspace_category_index(workspace: &Workspace, categories: &Vec<Category>) -> (index: Option<
    usize,
>)
    ensures
        match index {
            Some(i) => category_slot(*workspace, categories@) == Some(i as int),
            None => category_slot(*workspace, categories@) is None,
        },
{
    let mut k: usize = 0;
    while k < categories.len()
        invariant
            k <= categories.len(),
            forall|j: int| 0 <= j < k ==> !belongs_to(*workspace, #[trigger] categories@[j]),
        decreases categories.len() - k,
    {
        if workspace_belongs_to_category(workspace, &categories[k]) {
            proof {
                assert(is_first_category(*workspace, categories@, k as int));
                let chosen = choose|index: int| is_first_category(*workspace, categories@, index);
                lemma_first_category_unique(*workspace, categories@, chosen, k as int);
            }
            return Some(k);
        }
        k = k + 1;
    }
    proof {
        assert forall|index: int| !is_first_category(*workspace, categories@, index) by {
            if 0 <= index < categories.len() {
                assert(!belongs_to(*workspace, categories@[index]));
            }
        }
    }
    None
}

/// Whether the workspaces at `a` and `b` are shown in the same group: the same category, or both
/// at the top level.
pub open spec fn same_group(workspaces: Seq<Workspace>, categories: Seq<Category>, a: int, b: int) -> bool {
    category_slot(workspaces[a], categories) == category_slot(workspaces[b], categories)
}

/// Whether `neighbor` is the nearest workspace of `index`'s group above it (or below it, when
/// `down`).
pub open spec fn group_neighbor(
    workspaces: Seq<Workspace>,
    categories: Seq<Category>,
    index: int,
    neighbor: int,
    down: bool,
) -> bool {
    if down {
        &&& index < neighbor < workspaces.len()
        &&& same_group(workspaces, categories, index, neighbor)
        &&& forall|k: int|
            index < k < neighbor ==> !#[trigger] same_group(workspaces, categories, index, k)
    } else {
        &&& 0 <= neighbor < index
        &&& same_group(workspaces, categories, index, neighbor)
        &&& forall|k: int|
            neighbor < k < index ==> !#[trigger] same_group(workspaces, categories, index, k)
    }
}

fn category_slots(workspaces: &Vec<Workspace>, categories: &Vec<Category>) -> (slots: Vec<
    Option<usize>,
>)
    ensures
        slots@.len() == workspaces@.len(),
        forall|i: int|
            0 <= i < workspaces@.len() ==> match #[trigger] slots@[i] {
                Some(s) => category_slot(workspaces@[i], categories@) == Some(s as int),
                None => category_slot(workspaces@[i], categories@) is None,
            },
{
    let mut slots: Vec<Option<usize>> = Vec::new();
    let mut i: usize = 0;
    while i < workspaces.len()
        invariant
            i <= workspaces.len(),
            slots@.len() == i,
            forall|j: int|
                0 <= j < i ==> match #[trigger] slots@[j] {
                    Some(s) => category_slot(workspaces@[j], categories@) == Some(s as int),
                    None => category_slot(workspaces@[j], categories@) is None,
                },
        decreases workspaces.len() - i,
    {
        slots.push(workspace_category_index(&workspaces[i], categories));
        i = i + 1;
    }
    slots
}

fn same_slot(a: Option<usize>, b: Option<usize>) -> (same: bool)
    ensures
        same == (a == b),
{
    match (a, b) {
        (Some(x), Some(y)) => x == y,
        (None, None) => true,
        _ => false,
    }
}

/// Where a workspace moves one step up or down within the group it is shown in: to the place of
/// the nearest workspace of the same group in that direction.
pub fn workspace_keyboard_move_destination(
    workspaces: &Vec<Workspace>,
    categories: &Vec<Category>,
    index: usize,
    direction: TreeKeyboardMoveDirection,
) -> (destination: Option<usize>)
    ensures
        index >= workspaces@.len() ==> destination is None,
        destination matches Some(j) ==> group_neighbor(
            workspaces@,
            categories@,
            index as int,
            j as int,
            moves_down(direction),
        ),
        destination is None && index < workspaces@.len() ==> forall|j: int|
            !#[trigger] group_neighbor(
                workspaces@,
                categories@,
                index as int,
                j,
                moves_down(direction),
            ),
{
    if index >= workspaces.len() {
        return None;
    }
    let slots = category_slots(workspaces, categories);
    let own = slots[index];
    let ghost ws = workspaces@;
    let ghost cats = categories@;
    match direction {
        TreeKeyboardMoveDirection::Down => {
            let mut k: usize = index + 1;
            while k < workspaces.len()
                invariant
                    direction == TreeKeyboardMoveDirection::Down,
                    index < k <= workspaces.len(),
                    slots@.len() == workspaces@.len(),
                    own == slots@[index as int],
                    ws == workspaces@,
                    cats == categories@,
                    forall|i: int|
                        0 <= i < workspaces@.len() ==> match #[trigger] slots@[i] {
                            Some(s) => category_slot(ws[i], cats) == Some(s as int),
                            None => category_slot(ws[i], cats) is None,
                        },
                    forall|j: int| index < j < k ==> !#[trigger] same_group(ws, cats, index as int, j),
                decreases workspaces.len() - k,
            {
                if same_slot(slots[k], own) {
                    assert(same_group(ws, cats, index as int, k as int)) by {
                        let _ = slots@[k as int];
                        let _ = slots@[index as int];
                    }
                    assert(group_neighbor(ws, cats, index as int, k as int, true));
                    return Some(k);
                }
                assert(!same_group(ws, cats, index as int, k as int));
                k = k + 1;
            }
            None
        },
        TreeKeyboardMoveDirection::Up => {
            let mut k: usize = index;
            while k > 0
                invariant
                    direction == TreeKeyboardMoveDirection::Up,
                    k <= index < workspaces.len(),
                    slots@.len() == workspaces@.len(),
                    own == slots@[index as int],
                    ws == workspaces@,
                    cats == categories@,
                    forall|i: int|
                        0 <= i < workspaces@.len() ==> match #[trigger] slots@[i] {
                            Some(s) => category_slot(ws[i], cats) == Some(s as int),
                            None => category_slot(ws[i], cats) is None,
                        },
                    forall|j: int| k <= j < index ==> !#[trigger] same_group(ws, cats, index as int, j),
                decreases k,
            {
                let candidate = k - 1;
                if same_slot(slots[candidate], own) {
                    assert(same_group(ws, cats, index as int, candidate as int)) by {
                        let _ = slots@[candidate as int];
                        let _ = slots@[index as int];
                    }
                    assert(group_neighbor(ws, cats, index as int, candidate as int, false));
                    return Some(candidate);
                }
                assert(!same_group(ws, cats, index as int, candidate as int));
                k = candidate;
            }
            None
        },
    }
}

/// Where a workspace dropped before or after another workspace of the same group goes; a drop
/// on a workspace of another group, or on a category, gives no position.
pub fn workspace_tree_visible_group_drop_destination(
    workspaces: &Vec<Workspace>,
    categories: &Vec<Category>,
    source_index: usize,
    target: WorkspaceTreeDropTarget,
) -> (destination: Option<usize>)
    ensures
        destination == match target {
            WorkspaceTreeDropTarget::Workspace { index, insert_after } => {
                if source_index < workspaces@.len() && index < workspaces@.len() && same_group(
                    workspaces@,
                    categories@,
                    source_index as int,
                    index as int,
                ) {
                    insertion_destination(source_index as int, index as int, insert_after)
                } else {
                    None
                }
            },
            WorkspaceTreeDropTarget::Category { .. } => None,
        },
{
    match target {
        WorkspaceTreeDropTarget::Workspace { index, insert_after } => {
            if source_index >= workspaces.len() || index >= workspaces.len() {
                return None;
            }
            let source_slot = workspace_category_index(&workspaces[source_index], categories);
            let target_slot = workspace_category_index(&workspaces[index], categories);
            if !same_slot(source_slot, target_slot) {
                return None;
            }
            workspace_tree_drop_destination(source_index, target, workspaces.len())
        },
        WorkspaceTreeDropTarget::Category { .. } => None,
    }
}

/// Whether `position` is the first place of `item` in the root order.
pub open spec fn is_first_position(
    items: Seq<TreeRootItemRef>,
    item: TreeRootItemRef,
    position: int,
) -> bool {
    &&& 0 <= position < items.len()
    &&& items[position] == item
    &&& forall|k: int| 0 <= k < position ==> #[trigger] items[k] != item
}

/// The place of `item` in the root order, if it is there.
pub open spec fn root_position(items: Seq<TreeRootItemRef>, item: TreeRootItemRef) -> Option<int> {
    if exists|position: int| is_first_position(items, item, position) {
        Some(choose|position: int| is_first_position(items, item, position))
    } else {
        None
    }
}

proof fn lemma_first_position_unique(
    items: Seq<TreeRootItemRef>,
    item: TreeRootItemRef,
    a: int,
    b: int,
)
    requires
        is_first_position(items, item, a),
        is_first_position(items, item, b),
    ensures
        a == b,
{
    if a < b {
        assert(items[a] != item);
    } else if b < a {
        assert(items[b] != item);
    }
}

fn root_item_position(items: &Vec<TreeRootItemRef>, item: TreeRootItemRef) -> (position: Option<
    usize,
>)
    ensures
        position matches Some(p) ==> p < items@.len() && p < usize::MAX,
        match position {
            Some(p) => root_position(items@, item) == Some(p as int),
            None => root_position(items@, item) is None,
        },
{
    let mut k: usize = 0;
    while k < items.len()
        invariant
            k <= items.len(),
            forall|j: int| 0 <= j < k ==> #[trigger] items@[j] != item,
        decreases items.len() - k,
    {
        if items[k] == item {
            proof {
                assert(is_first_position(items@, item, k as int));
                let chosen = choose|position: int| is_first_position(items@, item, position);
                lemma_first_position_unique(items@, item, chosen, k as int);
            }
            return Some(k);
        }
        k = k + 1;
    }
    proof {
        assert forall|position: int| !is_first_position(items@, item, position) by {
            if 0 <= position < items.len() {
                assert(items@[position] != item);
            }
        }
    }
    None
}

/// Where a top-level item moves one step up or down in the root order.
pub fn tree_root_keyboard_move_destination(
    root_items: &Vec<TreeRootItemRef>,
    item: TreeRootItemRef,
    direction: TreeKeyboardMoveDirection,
) -> (destination: Option<usize>)
    ensures
        destination == match root_position(root_items@, item) {
            Some(p) => step_destination(
                p,
                root_items@.len() as int,
                direction == TreeKeyboardMoveDirection::Down,
            ),
            None => None,
        },
{
    match root_item_position(root_items, item) {
        Some(position) => one_step(
            position,
            root_items.len(),
            direction == TreeKeyboardMoveDirection::Down,
        ),
        None => None,
    }
}

/// Where a top-level item dropped before or after another top-level item goes in the root order.
pub fn tree_root_drop_destination(
    root_items: &Vec<TreeRootItemRef>,
    source: TreeRootItemRef,
    target: TreeRootItemRef,
    insert_after: bool,
) -> (destination: Option<usize>)
    ensures
        destination == match (root_position(root_items@, source), root_position(
            root_items@,
            target,
        )) {
            (Some(s), Some(t)) => insertion_destination(s, t, insert_after),
            _ => None,
        },
{
    let source_position = root_item_position(root_items, source);
    let target_position = root_item_position(root_items, target);
    match (source_position, target_position) {
        (Some(s), Some(t)) => insertion_index(s, t, insert_after),
        _ => None,
    }
}

/// What dropping a dragged workspace on the tree does.
#[derive(Clone, Copy, Debug, PartialEq, Eq, Structural)]
pub enum WorkspaceTreeDropStep {
    /// Nothing moves; the dragged workspace is selected again.
    Reselect { workspace: usize },
    /// Moves workspace `from` to place `to` of the workspace list, within its category.
    MoveWorkspace { from: usize, to: usize },
    /// Moves the top-level `item` to place `to` of the tree's top-level order.
    MoveRootItem { item: TreeRootItemRef, to: usize },
    /// Puts `workspace` into `category`.
    MoveToCategory { workspace: usize, category: usize },
}

/// The step for dropping workspace `source` on `target`. No target, or one that moves nothing,
/// gives `Reselect`. A category that does not hold the workspace yet takes it. On a workspace,
/// two top-level workspaces are reordered in the tree's top-level order, mixed with the
/// categories; other workspaces move within their shared category.
pub open spec fn workspace_tree_drop_step_spec(
    workspaces: Seq<Workspace>,
    categories: Seq<Category>,
    root_items: Seq<TreeRootItemRef>,
    source: usize,
    target: Option<WorkspaceTreeDropTarget>,
) -> WorkspaceTreeDropStep {
    let reselect = WorkspaceTreeDropStep::Reselect { workspace: source };
    match target {
        None => reselect,
        Some(WorkspaceTreeDropTarget::Category { index }) => {
            if source < workspaces.len() && index < categories.len() && !belongs_to(
                workspaces[source as int],
                categories[index as int],
            ) {
                WorkspaceTreeDropStep::MoveToCategory { workspace: source, category: index }
            } else {
                reselect
            }
        },
        Some(WorkspaceTreeDropTarget::Workspace { index, insert_after }) => {
            if !(source < workspaces.len() && index < workspaces.len()) {
                reselect
            } else if category_slot(workspaces[source as int], categories) is None && category_slot(
                workspaces[index as int],
                categories,
            ) is None {
                match (
                    root_position(root_items, TreeRootItemRef::Workspace(source)),
                    root_position(root_items, TreeRootItemRef::Workspace(index)),
                ) {
                    (Some(s), Some(t)) => match insertion_destination(s, t, insert_after) {
                        Some(to) => WorkspaceTreeDropStep::MoveRootItem {
                            item: TreeRootItemRef::Workspace(source),
                            to,
                        },
                        None => reselect,
                    },
                    _ => reselect,
                }
            } else if same_group(workspaces, categories, source as int, index as int) {
                match insertion_destination(source as int, index as int, insert_after) {
                    Some(to) => WorkspaceTreeDropStep::MoveWorkspace { from: source, to },
                    None => reselect,
                }
            } else {
                reselect
            }
        },
    }
}

/// Decides what dropping workspace `source` on `target` does.
pub fn workspace_tree_drop_step(
    workspaces: &Vec<Workspace>,
    categories: &Vec<Category>,
    root_items: &Vec<TreeRootItemRef>,
    source_index: usize,
    target: Option<WorkspaceTreeDropTarget>,
) -> (step: WorkspaceTreeDropStep)
    ensures
        step == workspace_tree_drop_step_spec(
            workspaces@,
            categories@,
            root_items@,
            source_index,
            target,
        ),
{
    let reselect = WorkspaceTreeDropStep::Reselect { workspace: source_index };
    match target {
        None => reselect,
        Some(WorkspaceTreeDropTarget::Category { index }) => {
            if source_index < workspaces.len() && index < categories.len()
                && !workspace_belongs_to_category(&workspaces[source_index], &categories[index]) {
                WorkspaceTreeDropStep::MoveToCategory { workspace: source_index, category: index }
            } else {
                reselect
            }
        },
        Some(WorkspaceTreeDropTarget::Workspace { index, insert_after }) => {
            if !(source_index < workspaces.len() && index < workspaces.len()) {
                return reselect;
            }
            let source_slot = workspace_category_index(&workspaces[source_index], categories);
            let target_slot = workspace_category_index(&workspaces[index], categories);
            if source_slot.is_none() && target_slot.is_none() {
                match tree_root_drop_destination(
                    root_items,
                    TreeRootItemRef::Workspace(source_index),
                    TreeRootItemRef::Workspace(index),
                    insert_after,
                ) {
                    Some(to) => WorkspaceTreeDropStep::MoveRootItem {
                        item: TreeRootItemRef::Workspace(source_index),
                        to,
                    },
                    None => reselect,
                }
            } else {
                let t = WorkspaceTreeDropTarget::Workspace { index, insert_after };
                match workspace_tree_visible_group_drop_destination(
                    workspaces,
                    categories,
                    source_index,
                    t,
                ) {
                    Some(to) => WorkspaceTreeDropStep::MoveWorkspace { from: source_index, to },
                    None => reselect,
                }
            }
        },
    }
}

/// Dropping a workspace before (or after) another one moves it right next to that one: for two
/// top-level workspaces, moving the dragged one to the returned place of the top-level order puts
/// it immediately before the target (immediately after it when `insert_after`); for workspaces of
/// one category, the same holds in the workspace list.
pub proof fn dropped_workspace_lands_next_to_target(
    workspaces: Seq<Workspace>,
    categories: Seq<Category>,
    root_items: Seq<TreeRootItemRef>,
    source: usize,
    index: usize,
    insert_after: bool,
)
    requires
        workspaces.len() <= usize::MAX,
        root_items.len() <= usize::MAX,
    ensures
        match workspace_tree_drop_step_spec(
            workspaces,
            categories,
            root_items,
            source,
            Some(WorkspaceTreeDropTarget::Workspace { index, insert_after }),
        ) {
            WorkspaceTreeDropStep::MoveRootItem { item, to } => {
                &&& item == TreeRootItemRef::Workspace(source)
                &&& root_position(root_items, item) is Some
                &&& ({
                    let from = root_position(root_items, item)->0;
                    let moved = root_items.remove(from).insert(to as int, item);
                    &&& moved.len() == root_items.len()
                    &&& moved[to as int] == item
                    &&& !insert_after ==> moved[to + 1] == TreeRootItemRef::Workspace(index)
                    &&& insert_after ==> moved[to - 1] == TreeRootItemRef::Workspace(index)
                })
            },
            WorkspaceTreeDropStep::MoveWorkspace { from, to } => {
                let moved = workspaces.remove(from as int).insert(to as int, workspaces[from as int]);
                &&& from == source
                &&& moved.len() == workspaces.len()
                &&& moved[to as int] == workspaces[source as int]
                &&& !insert_after ==> moved[to + 1] == workspaces[index as int]
                &&& insert_after ==> moved[to - 1] == workspaces[index as int]
            },
            _ => true,
        },
{
    let step = workspace_tree_drop_step_spec(
        workspaces,
        categories,
        root_items,
        source,
        Some(WorkspaceTreeDropTarget::Workspace { index, insert_after }),
    );
    if source < workspaces.len() && index < workspaces.len() {
        if category_slot(workspaces[source as int], categories) is None && category_slot(
            workspaces[index as int],
            categories,
        ) is None {
            let item = TreeRootItemRef::Workspace(source);
            let target = TreeRootItemRef::Workspace(index);
            match (root_position(root_items, item), root_position(root_items, target)) {
                (Some(s), Some(t)) => {
                    if insertion_destination(s, t, insert_after) is Some {
                        let cs = choose|position: int| is_first_position(root_items, item, position);
                        let ct = choose|position: int|
                            is_first_position(root_items, target, position);
                        assert(cs == s);
                        assert(ct == t);
                        assert(root_items[s] == item);
                        assert(root_items[t] == target);
                        dropped_item_lands_next_to_target(root_items, s, t, insert_after);
                    }
                },
                _ => {},
            }
        } else if same_group(workspaces, categories, source as int, index as int) {
            if insertion_destination(source as int, index as int, insert_after) is Some {
                dropped_item_lands_next_to_target(
                    workspaces,
                    source as int,
                    index as int,
                    insert_after,
                );
            }
        }
    }
}

} // verus!
