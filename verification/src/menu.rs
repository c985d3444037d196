//! The native application menu, described as a tree of plain values.
//!
//! The tree is built once and handed to the host, which creates the native
//! items from it. Nothing here touches the host's menu runtime.

use vstd::prelude::*;

verus! {

/// A menu entry whose behaviour the host runtime implements by itself.
#[derive(Clone, Copy, Debug, PartialEq, Eq, Structural)]
pub enum PredefinedKind {
    Quit,
    Undo,
    Redo,
    Cut,
    Copy,
    Paste,
    SelectAll,
}

/// A node of the menu tree.
#[derive(Debug, PartialEq, Eq)]
pub enum MenuNode {
    /// An entry of the application's own, reported to the router by `id`.
    ActionItem { id: String, label: String, enabled: bool },
    /// A line between two groups of entries.
    Separator,
    /// An entry handled by the host runtime.
    Predefined { kind: PredefinedKind },
    /// A labelled container of further nodes, in display order.
    Submenu { label: String, enabled: bool, children: Vec<MenuNode> },
}

/// The mathematical value of a [`MenuNode`].
pub enum MenuTree {
    ActionItem { id: Seq<char>, label: Seq<char>, enabled: bool },
    Separator,
    Predefined { kind: PredefinedKind },
    Submenu { label: Seq<char>, enabled: bool, children: Seq<MenuTree> },
}

impl View for MenuNode {
    type V = MenuTree;

    open spec fn view(&self) -> MenuTree
        decreases self,
    {
        match self {
            MenuNode::ActionItem { id, label, enabled } => MenuTree::ActionItem {
                id: id@,
                label: label@,
                enabled: *enabled,
            },
            MenuNode::Separator => MenuTree::Separator,
            MenuNode::Predefined { kind } => MenuTree::Predefined { kind: *kind },
            MenuNode::Submenu { label, enabled, children } => MenuTree::Submenu {
                label: label@,
                enabled: *enabled,
                children: Seq::new(
                    children@.len(),
                    |i: int|
                        if 0 <= i < children@.len() {
                            children@[i]@
                        } else {
                            MenuTree::Separator
                        },
                ),
            },
        }
    }
}

/// The identifier under which the "About Sumo" entry reports its activation.
pub open spec fn about_id() -> Seq<char> {
    "about_sumo"@
}

/// A predefined entry, as a tree.
pub open spec fn predefined(kind: PredefinedKind) -> MenuTree {
    MenuTree::Predefined { kind }
}

/// The "Sumo" submenu: the About entry, a separator, and Quit.
pub open spec fn sumo_submenu() -> MenuTree {
    MenuTree::Submenu {
        label: "Sumo"@,
        enabled: true,
        children: seq![
            MenuTree::ActionItem { id: about_id(), label: "About Sumo"@, enabled: true },
            MenuTree::Separator,
            predefined(PredefinedKind::Quit),
        ],
    }
}

/// The "Edit" submenu: Undo and Redo, a separator, then the clipboard entries.
pub open spec fn edit_submenu() -> MenuTree {
    MenuTree::Submenu {
        label: "Edit"@,
        enabled: true,
        children: seq![
            predefined(PredefinedKind::Undo),
            predefined(PredefinedKind::Redo),
            MenuTree::Separator,
            predefined(PredefinedKind::Cut),
            predefined(PredefinedKind::Copy),
            predefined(PredefinedKind::Paste),
            predefined(PredefinedKind::SelectAll),
        ],
    }
}

/// The whole application menu: an unlabelled container that holds the "Sumo"
/// submenu and then the "Edit" submenu.
pub open spec fn app_menu() -> MenuTree {
    MenuTree::Submenu {
        label: Seq::<char>::empty(),
        enabled: true,
        children: seq![sumo_submenu(), edit_submenu()],
    }
}

/// Tells whether `tree` holds, at any depth, an entry of the application's
/// own that reports under `id`.
pub open spec fn has_action(tree: MenuTree, id: Seq<char>) -> bool
    decreases tree,
{
    match tree {
        MenuTree::ActionItem { id: own, .. } => own == id,
        MenuTree::Submenu { children, .. } => exists|k: int|
            0 <= k < children.len() && has_action(#[trigger] children[k], id),
        _ => false,
    }
}

proof fn lemma_sumo_submenu_actions(id: Seq<char>)
    ensures
        has_action(sumo_submenu(), id) <==> id == about_id(),
{
    let kids = sumo_submenu()->children;
    assert(has_action(kids[0], id) <==> id == about_id());
    assert(!has_action(kids[1], id));
    assert(!has_action(kids[2], id));
}

proof fn lemma_edit_submenu_actions(id: Seq<char>)
    ensures
        !has_action(edit_submenu(), id),
{
    let kids = edit_submenu()->children;
    assert(forall|k: int| 0 <= k < kids.len() ==> !has_action(#[trigger] kids[k], id));
}

/// The only entry of the application's own in the application menu is the
/// About entry.
pub proof fn lemma_app_menu_actions(id: Seq<char>)
    ensures
        has_action(app_menu(), id) <==> id == about_id(),
{
    let kids = app_menu()->children;
    lemma_sumo_submenu_actions(id);
    lemma_edit_submenu_actions(id);
    assert(kids[0] == sumo_submenu());
    assert(kids[1] == edit_submenu());
}

/// The view of a submenu, from the views of its parts.
proof fn lemma_submenu_view(node: MenuNode, kids: Seq<MenuTree>)
    requires
        node is Submenu,
        kids.len() == node->children@.len(),
        forall|i: int| 0 <= i < kids.len() ==> kids[i] == (#[trigger] node->children@[i])@,
    ensures
        node@ == (MenuTree::Submenu {
            label: node->Submenu_label@,
            enabled: node->Submenu_enabled,
            children: kids,
        }),
{
    assert(node@->children =~= kids);
}

fn predefined_item(kind: PredefinedKind) -> (node: MenuNode)
    ensures
        node@ == predefined(kind),
{
    MenuNode::Predefined { kind }
}

fn build_sumo_submenu() -> (node: MenuNode)
    ensures
        node@ == sumo_submenu(),
{
    let about = MenuNode::ActionItem {
        id: "about_sumo".to_owned(),
        label: "About Sumo".to_owned(),
        enabled: true,
    };
    let mut children: Vec<MenuNode> = Vec::new();
    children.push(about);
    children.push(MenuNode::Separator);
    children.push(predefined_item(PredefinedKind::Quit));
    let node = MenuNode::Submenu { label: "Sumo".to_owned(), enabled: true, children };
    proof {
        lemma_submenu_view(node, sumo_submenu()->children);
    }
    node
}

fn build_edit_submenu() -> (node: MenuNode)
    ensures
        node@ == edit_submenu(),
{
    let mut children: Vec<MenuNode> = Vec::new();
    children.push(predefined_item(PredefinedKind::Undo));
    children.push(predefined_item(PredefinedKind::Redo));
    children.push(MenuNode::Separator);
    children.push(predefined_item(PredefinedKind::Cut));
    children.push(predefined_item(PredefinedKind::Copy));
    children.push(predefined_item(PredefinedKind::Paste));
    children.push(predefined_item(PredefinedKind::SelectAll));
    let node = MenuNode::Submenu { label: "Edit".to_owned(), enabled: true, children };
    proof {
        lemma_submenu_view(node, edit_submenu()->children);
    }
    node
}

/// Builds the application menu. The result is the same tree on every call.
pub fn build_menu() -> (menu: MenuNode)
    ensures
        menu@ == app_menu(),
{
    let mut children: Vec<MenuNode> = Vec::new();
    children.push(build_sumo_submenu());
    children.push(build_edit_submenu());
    let menu = MenuNode::Submenu { label: String::new(), enabled: true, children };
    proof {
        lemma_submenu_view(menu, app_menu()->children);
    }
    menu
}

} // verus!
