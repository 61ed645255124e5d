//! The static application menu.
//!
//! Built exactly once at startup, before any window is shown, and immutable
//! thereafter: four top-level groups whose items carry the stable command
//! identifiers that the dispatcher keys on. The front end translates this
//! tree one-to-one into the host window system's native menu.

use vstd::prelude::*;
use crate::command::{command_of, CommandId};

verus! {

/// One node of the menu tree: an actionable item with its command identifier
/// and localized label, a separator, or a labelled submenu.
#[derive(Debug)]
pub enum MenuNode {
    Item { id: String, label: String },
    Separator,
    Submenu { label: String, entries: Vec<MenuNode> },
}

/// The direct entries of a submenu node; empty for other nodes.
pub open spec fn submenu_entries(n: MenuNode) -> Seq<MenuNode> {
    match n {
        MenuNode::Submenu { entries, .. } => entries@,
        _ => Seq::<MenuNode>::empty(),
    }
}

/// The command identifier of an item node; empty for other nodes.
pub open spec fn item_id(n: MenuNode) -> Seq<char> {
    match n {
        MenuNode::Item { id, .. } => id@,
        _ => Seq::<char>::empty(),
    }
}

/// The node is an item carrying exactly this identifier and label.
pub open spec fn is_item(n: MenuNode, id: Seq<char>, label: Seq<char>) -> bool {
    match n {
        MenuNode::Item { id: i, label: l } => i@ == id && l@ == label,
        _ => false,
    }
}

/// Some item of some top-level group carries the identifier `id`.
pub open spec fn tree_has_id(groups: Seq<MenuNode>, id: Seq<char>) -> bool {
    exists|g: int, k: int|
        0 <= g < groups.len() && 0 <= k < submenu_entries(groups[g]).len() && (#[trigger] submenu_entries(
            groups[g],
        )[k]) is Item && item_id(submenu_entries(groups[g])[k]) == id
}

/// The file group: preferences, a separator, quit.
pub open spec fn file_group_shape(n: MenuNode) -> bool {
    match n {
        MenuNode::Submenu { label, entries } => {
            &&& label@ == "文件"@
            &&& entries@.len() == 3
            &&& is_item(entries@[0], "preferences"@, "偏好设置"@)
            &&& entries@[1] is Separator
            &&& is_item(entries@[2], "quit"@, "退出"@)
        },
        _ => false,
    }
}

/// The edit group: copy, paste, cut, a separator, select-all.
pub open spec fn edit_group_shape(n: MenuNode) -> bool {
    match n {
        MenuNode::Submenu { label, entries } => {
            &&& label@ == "编辑"@
            &&& entries@.len() == 5
            &&& is_item(entries@[0], "copy"@, "复制"@)
            &&& is_item(entries@[1], "paste"@, "粘贴"@)
            &&& is_item(entries@[2], "cut"@, "剪切"@)
            &&& entries@[3] is Separator
            &&& is_item(entries@[4], "selectAll"@, "全选"@)
        },
        _ => false,
    }
}

/// The view group: fullscreen, reload, a separator, devtools.
pub open spec fn view_group_shape(n: MenuNode) -> bool {
    match n {
        MenuNode::Submenu { label, entries } => {
            &&& label@ == "视图"@
            &&& entries@.len() == 4
            &&& is_item(entries@[0], "fullscreen"@, "全屏"@)
            &&& is_item(entries@[1], "reload"@, "重新加载"@)
            &&& entries@[2] is Separator
            &&& is_item(entries@[3], "devtools"@, "开发者工具"@)
        },
        _ => false,
    }
}

/// The help group: about, documentation.
pub open spec fn help_group_shape(n: MenuNode) -> bool {
    match n {
        MenuNode::Submenu { label, entries } => {
            &&& label@ == "帮助"@
            &&& entries@.len() == 2
            &&& is_item(entries@[0], "about"@, "关于"@)
            &&& is_item(entries@[1], "documentation"@, "文档"@)
        },
        _ => false,
    }
}

/// The whole application menu: file, edit, view and help groups, in order.
pub open spec fn menu_shape(groups: Seq<MenuNode>) -> bool {
    &&& groups.len() == 4
    &&& file_group_shape(groups[0])
    &&& edit_group_shape(groups[1])
    &&& view_group_shape(groups[2])
    &&& help_group_shape(groups[3])
}

/// Builds the immutable application menu tree.
pub fn build_menu() -> (groups: Vec<MenuNode>)
    ensures
        menu_shape(groups@),
{
    let mut file_entries: Vec<MenuNode> = Vec::new();
    file_entries.push(MenuNode::Item { id: "preferences".to_owned(), label: "偏好设置".to_owned() });
    file_entries.push(MenuNode::Separator);
    file_entries.push(MenuNode::Item { id: "quit".to_owned(), label: "退出".to_owned() });

    let mut edit_entries: Vec<MenuNode> = Vec::new();
    edit_entries.push(MenuNode::Item { id: "copy".to_owned(), label: "复制".to_owned() });
    edit_entries.push(MenuNode::Item { id: "paste".to_owned(), label: "粘贴".to_owned() });
    edit_entries.push(MenuNode::Item { id: "cut".to_owned(), label: "剪切".to_owned() });
    edit_entries.push(MenuNode::Separator);
    edit_entries.push(MenuNode::Item { id: "selectAll".to_owned(), label: "全选".to_owned() });

    let mut view_entries: Vec<MenuNode> = Vec::new();
    view_entries.push(MenuNode::Item { id: "fullscreen".to_owned(), label: "全屏".to_owned() });
    view_entries.push(MenuNode::Item { id: "reload".to_owned(), label: "重新加载".to_owned() });
    view_entries.push(MenuNode::Separator);
    view_entries.push(MenuNode::Item { id: "devtools".to_owned(), label: "开发者工具".to_owned() });

    let mut help_entries: Vec<MenuNode> = Vec::new();
    help_entries.push(MenuNode::Item { id: "about".to_owned(), label: "关于".to_owned() });
    help_entries.push(MenuNode::Item { id: "documentation".to_owned(), label: "文档".to_owned() });

    let mut groups: Vec<MenuNode> = Vec::new();
    groups.push(MenuNode::Submenu { label: "文件".to_owned(), entries: file_entries });
    groups.push(MenuNode::Submenu { label: "编辑".to_owned(), entries: edit_entries });
    groups.push(MenuNode::Submenu { label: "视图".to_owned(), entries: view_entries });
    groups.push(MenuNode::Submenu { label: "帮助".to_owned(), entries: help_entries });
    groups
}

/// Table completeness: every command identifier carried by an item of the
/// application menu parses to a known command, so the dispatcher reaches a
/// dispatch arm of its own for it rather than the unknown-identifier default.
pub proof fn lemma_menu_commands_known(groups: Seq<MenuNode>, id: Seq<char>)
    requires
        menu_shape(groups),
        tree_has_id(groups, id),
    ensures
        command_of(id) != CommandId::Unknown,
{
    let (g, k) = choose|g: int, k: int|
        0 <= g < groups.len() && 0 <= k < submenu_entries(groups[g]).len() && (#[trigger] submenu_entries(
            groups[g],
        )[k]) is Item && item_id(submenu_entries(groups[g])[k]) == id;
    assert(g == 0 || g == 1 || g == 2 || g == 3);
}

/// No two items of the application menu share a command identifier.
pub proof fn lemma_menu_ids_distinct(groups: Seq<MenuNode>, g1: int, k1: int, g2: int, k2: int)
    requires
        menu_shape(groups),
        0 <= g1 < groups.len(),
        0 <= k1 < submenu_entries(groups[g1]).len(),
        0 <= g2 < groups.len(),
        0 <= k2 < submenu_entries(groups[g2]).len(),
        submenu_entries(groups[g1])[k1] is Item,
        submenu_entries(groups[g2])[k2] is Item,
        !(g1 == g2 && k1 == k2),
    ensures
        item_id(submenu_entries(groups[g1])[k1]) != item_id(submenu_entries(groups[g2])[k2]),
{
    reveal_strlit("preferences");
    reveal_strlit("quit");
    reveal_strlit("copy");
    reveal_strlit("paste");
    reveal_strlit("cut");
    reveal_strlit("selectAll");
    reveal_strlit("fullscreen");
    reveal_strlit("reload");
    reveal_strlit("devtools");
    reveal_strlit("about");
    reveal_strlit("documentation");
    assert("preferences"@.len() == 11);
    assert("quit"@.len() == 4);
    assert("copy"@.len() == 4);
    assert("paste"@.len() == 5);
    assert("cut"@.len() == 3);
    assert("selectAll"@.len() == 9);
    assert("fullscreen"@.len() == 10);
    assert("reload"@.len() == 6);
    assert("devtools"@.len() == 8);
    assert("about"@.len() == 5);
    assert("documentation"@.len() == 13);
    assert("quit"@ != "copy"@) by {
        assert("quit"@[0] != "copy"@[0]);
    }
    assert("paste"@ != "about"@) by {
        assert("paste"@[0] != "about"@[0]);
    }
    assert(g1 == 0 || g1 == 1 || g1 == 2 || g1 == 3);
    assert(g2 == 0 || g2 == 1 || g2 == 2 || g2 == 3);
}

} // verus!
