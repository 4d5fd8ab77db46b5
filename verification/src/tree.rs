//! The workspace tree view's bookkeeping: how its items name workspaces and categories, which
//! workspaces each category shows, and when the tree must be rebuilt rather than relabelled.

use vstd::prelude::*;

use crate::execution::opt_string_view;
use crate::model::{Category, Workspace};
use crate::rules::{category_slot, workspace_category_index, TreeRootItemRef};
use crate::text::text_equals;

verus! {

/// The item data of the tree item of workspace `index`: the index itself.
pub open spec fn workspace_item_data(index: int) -> Option<isize> {
    if index <= isize::MAX {
        Some(index as isize)
    } else {
        None
    }
}

/// The item data of the tree item of category `index`: `-(index + 1)`, always negative.
pub open spec fn category_item_data(index: int) -> Option<isize> {
    if index < isize::MAX {
        Some((-(index + 1)) as isize)
    } else {
        None
    }
}

/// The workspace named by item data, if any.
pub open spec fn workspace_of_item_data(data: int) -> Option<usize> {
    if data >= 0 {
        Some(data as usize)
    } else {
        None
    }
}

/// The category named by item data, if any.
pub open spec fn category_of_item_data(data: int) -> Option<usize> {
    if isize::MIN < data < 0 {
        Some((-data - 1) as usize)
    } else {
        None
    }
}

/// The item data of workspace `index`'s tree item.
pub fn workspace_tree_lparam(index: usize) -> (data: Option<isize>)
    ensures
        data == workspace_item_data(index as int),
{
    if index <= isize::MAX as usize {
        Some(index as isize)
    } else {
        None
    }
}

/// The item data of category `index`'s tree item.
pub fn category_tree_lparam(index: usize) -> (data: Option<isize>)
    ensures
        data == category_item_data(index as int),
{
    if index < isize::MAX as usize {
        let value = index as isize;
        Some(-(value + 1))
    } else {
        None
    }
}

/// The workspace a tree item's data names.
pub fn workspace_index_from_tree_lparam(data: isize) -> (index: Option<usize>)
    ensures
        index == workspace_of_item_data(data as int),
{
    if data < 0 {
        None
    } else {
        Some(data as usize)
    }
}

/// The category a tree item's data names.
pub fn category_index_from_tree_lparam(data: isize) -> (index: Option<usize>)
    ensures
        index == category_of_item_data(data as int),
{
    if data >= 0 || data == isize::MIN {
        None
    } else {
        Some((-data - 1) as usize)
    }
}

/// Item data leads back to the workspace or category it was made for, and never to the other
/// kind: workspace data is never negative and category data always is.
pub proof fn tree_item_data_round_trip(index: int)
    requires
        0 <= index <= usize::MAX,
    ensures
        workspace_item_data(index) matches Some(data) ==> data >= 0 && workspace_of_item_data(
            data as int,
        ) == Some(index as usize) && category_of_item_data(data as int) is None,
        category_item_data(index) matches Some(data) ==> data < 0 && category_of_item_data(
            data as int,
        ) == Some(index as usize) && workspace_of_item_data(data as int) is None,
{
}

/// The workspaces each category shows, by index, in list order.
pub struct WorkspaceTreeGroups {
    pub category_workspace_indexes: Vec<Vec<usize>>,
}

/// Whether `groups` lists, for each category, exactly the workspaces it shows, in increasing
/// order.
pub open spec fn groups_match(
    groups: Seq<Seq<usize>>,
    workspaces: Seq<Workspace>,
    categories: Seq<Category>,
) -> bool {
    &&& groups.len() == categories.len()
    &&& forall|c: int, k: int|
        0 <= c < groups.len() && 0 <= k < groups[c].len() ==> {
            &&& #[trigger] groups[c][k] < workspaces.len()
            &&& category_slot(workspaces[groups[c][k] as int], categories) == Some(c)
        }
    &&& forall|c: int, k1: int, k2: int|
        0 <= c < groups.len() && 0 <= k1 < k2 < groups[c].len() ==> #[trigger] groups[c][k1]
            < #[trigger] groups[c][k2]
    &&& forall|i: int|
        0 <= i < workspaces.len() && #[trigger] category_slot(workspaces[i], categories) is Some
            ==> groups[category_slot(workspaces[i], categories)->0].contains(i as usize)
}

/// Collects the workspaces each category shows.
pub fn workspace_tree_groups(workspaces: &Vec<Workspace>, categories: &Vec<Category>) -> (groups:
    WorkspaceTreeGroups)
    ensures
        groups_match(
            groups.category_workspace_indexes@.map_values(|v: Vec<usize>| v@),
            workspaces@,
            categories@,
        ),
{
    let mut slots: Vec<Option<usize>> = Vec::new();
    let mut i: usize = 0;
    while i < workspaces.len()
        invariant
            i <= workspaces.len(),
            slots@.len() == i,
            forall|j: int|
                0 <= j < i ==> match #[trigger] slots@[j] {
                    Some(s) => category_slot(workspaces@[j], categories@) == Some(s as int),
                    None => category_slot(workspaces@[j], categories@) is None,
                },
        decreases workspaces.len() - i,
    {
        slots.push(workspace_category_index(&workspaces[i], categories));
        i = i + 1;
    }
    let ghost ws = workspaces@;
    let ghost cats = categories@;
    let mut groups: Vec<Vec<usize>> = Vec::new();
    let mut c: usize = 0;
    while c < categories.len()
        invariant
            c <= categories.len(),
            groups@.len() == c,
            slots@.len() == ws.len(),
            ws == workspaces@,
            cats == categories@,
            forall|j: int|
                0 <= j < ws.len() ==> match #[trigger] slots@[j] {
                    Some(s) => category_slot(ws[j], cats) == Some(s as int),
                    None => category_slot(ws[j], cats) is None,
                },
            forall|g: int, k: int|
                0 <= g < c && 0 <= k < groups@[g]@.len() ==> {
                    &&& #[trigger] groups@[g]@[k] < ws.len()
                    &&& category_slot(ws[groups@[g]@[k] as int], cats) == Some(g)
                },
            forall|g: int, k1: int, k2: int|
                0 <= g < c && 0 <= k1 < k2 < groups@[g]@.len() ==> #[trigger] groups@[g]@[k1]
                    < #[trigger] groups@[g]@[k2],
            forall|j: int|
                0 <= j < ws.len() && #[trigger] category_slot(ws[j], cats) is Some
                    && category_slot(ws[j], cats)->0 < c ==> groups@[category_slot(
                    ws[j],
                    cats,
                )->0]@.contains(j as usize),
        decreases categories.len() - c,
    {
        let mut members: Vec<usize> = Vec::new();
        let mut j: usize = 0;
        while j < workspaces.len()
            invariant
                j <= workspaces.len(),
                c < categories.len(),
                slots@.len() == ws.len(),
                ws == workspaces@,
                cats == categories@,
                forall|x: int|
                    0 <= x < ws.len() ==> match #[trigger] slots@[x] {
                        Some(s) => category_slot(ws[x], cats) == Some(s as int),
                        None => category_slot(ws[x], cats) is None,
                    },
                forall|k: int|
                    0 <= k < members@.len() ==> {
                        &&& #[trigger] members@[k] < j
                        &&& category_slot(ws[members@[k] as int], cats) == Some(c as int)
                    },
                forall|k1: int, k2: int|
                    0 <= k1 < k2 < members@.len() ==> #[trigger] members@[k1]
                        < #[trigger] members@[k2],
                forall|x: int|
                    0 <= x < j && #[trigger] category_slot(ws[x], cats) == Some(c as int)
                        ==> members@.contains(x as usize),
            decreases workspaces.len() - j,
        {
            let member = match slots[j] {
                Some(s) => s == c,
                None => false,
            };
            proof {
                let _ = slots@[j as int];
            }
            if member {
                let ghost before = members@;
                members.push(j);
                proof {
                    assert(members@ == before.push(j));
                    assert forall|x: int|
                        0 <= x < j + 1 && #[trigger] category_slot(ws[x], cats) == Some(
                            c as int,
                        ) implies members@.contains(x as usize) by {
                        if x == j {
                            assert(members@[members@.len() - 1] == x as usize);
                        } else {
                            assert(before.contains(x as usize));
                            let w = choose|w: int| 0 <= w < before.len() && before[w] == x as usize;
                            assert(members@[w] == x as usize);
                        }
                    }
                }
            }
            j = j + 1;
        }
        groups.push(members);
        proof {
            assert(groups@[c as int]@ == members@);
        }
        c = c + 1;
    }
    proof {
        let viewed = groups@.map_values(|v: Vec<usize>| v@);
        assert forall|g: int| 0 <= g < viewed.len() implies #[trigger] viewed[g] == groups@[g]@ by {
        }
    }
    WorkspaceTreeGroups { category_workspace_indexes: groups }
}

/// What the tree showed when it was last built: the root order, the category names and each
/// workspace's category name.
pub struct TreeViewSnapshot {
    pub root_items: Vec<TreeRootItemRef>,
    pub category_names: Vec<String>,
    pub workspace_categories: Vec<Option<String>>,
}

/// Whether a snapshot records exactly this tree shape.
pub open spec fn snapshot_matches(
    snapshot: TreeViewSnapshot,
    root_items: Seq<TreeRootItemRef>,
    categories: Seq<Category>,
    workspaces: Seq<Workspace>,
) -> bool {
    &&& snapshot.root_items@ == root_items
    &&& snapshot.category_names@.len() == categories.len()
    &&& snapshot.workspace_categories@.len() == workspaces.len()
    &&& forall|i: int|
        0 <= i < categories.len() ==> #[trigger] snapshot.category_names@[i]@ == categories[i].name@
    &&& forall|i: int|
        0 <= i < workspaces.len() ==> opt_string_view(#[trigger] snapshot.workspace_categories@[i])
            == opt_string_view(workspaces[i].category)
}

fn option_text_equals(left: &Option<String>, right: &Option<String>) -> (equal: bool)
    ensures
        equal == (opt_string_view(*left) == opt_string_view(*right)),
{
    match (left, right) {
        (Some(a), Some(b)) => text_equals(a.as_str(), b.as_str()),
        (None, None) => true,
        _ => false,
    }
}

/// Whether the tree still has the shape recorded in `snapshot`, so that relabelling its items is
/// enough.
pub fn tree_view_snapshot_has_same_shape(
    snapshot: &TreeViewSnapshot,
    root_items: &Vec<TreeRootItemRef>,
    categories: &Vec<Category>,
    workspaces: &Vec<Workspace>,
) -> (same: bool)
    ensures
        same == snapshot_matches(*snapshot, root_items@, categories@, workspaces@),
{
    if snapshot.root_items.len() != root_items.len() || snapshot.category_names.len()
        != categories.len() || snapshot.workspace_categories.len() != workspaces.len() {
        return false;
    }
    let mut i: usize = 0;
    while i < root_items.len()
        invariant
            i <= root_items.len(),
            snapshot.root_items@.len() == root_items@.len(),
            forall|k: int| 0 <= k < i ==> snapshot.root_items@[k] == root_items@[k],
        decreases root_items.len() - i,
    {
        if snapshot.root_items[i] != root_items[i] {
            return false;
        }
        i = i + 1;
    }
    assert(snapshot.root_items@ =~= root_items@);
    let mut i: usize = 0;
    while i < categories.len()
        invariant
            i <= categories.len(),
            snapshot.category_names@.len() == categories@.len(),
            forall|k: int|
                0 <= k < i ==> #[trigger] snapshot.category_names@[k]@ == categories@[k].name@,
        decreases categories.len() - i,
    {
        if !text_equals(snapshot.category_names[i].as_str(), categories[i].name.as_str()) {
            return false;
        }
        i = i + 1;
    }
    let mut i: usize = 0;
    while i < workspaces.len()
        invariant
            i <= workspaces.len(),
            snapshot.workspace_categories@.len() == workspaces@.len(),
            forall|k: int|
                0 <= k < i ==> opt_string_view(#[trigger] snapshot.workspace_categories@[k])
                    == opt_string_view(workspaces@[k].category),
        decreases workspaces.len() - i,
    {
        if !option_text_equals(&snapshot.workspace_categories[i], &workspaces[i].category) {
            return false;
        }
        i = i + 1;
    }
    true
}

/// Records the tree's current shape; the record matches the shape it was taken from.
pub fn capture_tree_view_snapshot(
    root_items: &Vec<TreeRootItemRef>,
    categories: &Vec<Category>,
    workspaces: &Vec<Workspace>,
) -> (snapshot: TreeViewSnapshot)
    ensures
        snapshot_matches(snapshot, root_items@, categories@, workspaces@),
{
    let mut items: Vec<TreeRootItemRef> = Vec::new();
    let mut i: usize = 0;
    while i < root_items.len()
        invariant
            i <= root_items.len(),
            items@ == root_items@.subrange(0, i as int),
        decreases root_items.len() - i,
    {
        items.push(root_items[i]);
        i = i + 1;
    }
    assert(items@ =~= root_items@);
    let mut names: Vec<String> = Vec::new();
    let mut i: usize = 0;
    while i < categories.len()
        invariant
            i <= categories.len(),
            names@.len() == i,
            forall|k: int| 0 <= k < i ==> #[trigger] names@[k]@ == categories@[k].name@,
        decreases categories.len() - i,
    {
        names.push(categories[i].name.clone());
        i = i + 1;
    }
    let mut workspace_categories: Vec<Option<String>> = Vec::new();
    let mut i: usize = 0;
    while i < workspaces.len()
        invariant
            i <= workspaces.len(),
            workspace_categories@.len() == i,
            forall|k: int|
                0 <= k < i ==> opt_string_view(#[trigger] workspace_categories@[k])
                    == opt_string_view(workspaces@[k].category),
        decreases workspaces.len() - i,
    {
        let category = match &workspaces[i].category {
            Some(name) => Some(name.clone()),
            None => None,
        };
        workspace_categories.push(category);
        i = i + 1;
    }
    TreeViewSnapshot { root_items: items, category_names: names, workspace_categories }
}

} // verus!
