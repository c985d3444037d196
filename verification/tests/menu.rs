use sumo_shell::menu::{build_menu, MenuNode, PredefinedKind};

fn children_of(node: &MenuNode) -> &Vec<MenuNode> {
    match node {
        MenuNode::Submenu { children, .. } => children,
        other => panic!("not a submenu: {:?}", other),
    }
}

fn label_of(node: &MenuNode) -> &str {
    match node {
        MenuNode::Submenu { label, .. } => label,
        other => panic!("not a submenu: {:?}", other),
    }
}

fn predefined(kind: PredefinedKind) -> MenuNode {
    MenuNode::Predefined { kind }
}

#[test]
fn menu_has_two_top_level_submenus_in_order() {
    let menu = build_menu();
    let top = children_of(&menu);
    assert_eq!(top.len(), 2);
    assert_eq!(label_of(&top[0]), "Sumo");
    assert_eq!(label_of(&top[1]), "Edit");
}

#[test]
fn top_level_container_is_enabled_and_unlabelled() {
    match build_menu() {
        MenuNode::Submenu { label, enabled, .. } => {
            assert_eq!(label, "");
            assert!(enabled);
        }
        other => panic!("not a submenu: {:?}", other),
    }
}

#[test]
fn sumo_submenu_holds_about_separator_quit() {
    let menu = build_menu();
    let sumo = &children_of(&menu)[0];
    let expected = vec![
        MenuNode::ActionItem {
            id: "about_sumo".to_string(),
            label: "About Sumo".to_string(),
            enabled: true,
        },
        MenuNode::Separator,
        predefined(PredefinedKind::Quit),
    ];
    assert_eq!(children_of(sumo), &expected);
}

#[test]
fn edit_submenu_holds_the_seven_entries_in_order() {
    let menu = build_menu();
    let edit = &children_of(&menu)[1];
    let expected = vec![
        predefined(PredefinedKind::Undo),
        predefined(PredefinedKind::Redo),
        MenuNode::Separator,
        predefined(PredefinedKind::Cut),
        predefined(PredefinedKind::Copy),
        predefined(PredefinedKind::Paste),
        predefined(PredefinedKind::SelectAll),
    ];
    assert_eq!(children_of(edit), &expected);
}

#[test]
fn both_submenus_are_enabled() {
    let menu = build_menu();
    for node in children_of(&menu) {
        match node {
            MenuNode::Submenu { enabled, .. } => assert!(*enabled),
            other => panic!("not a submenu: {:?}", other),
        }
    }
}

#[test]
fn whole_menu_tree() {
    let expected = MenuNode::Submenu {
        label: String::new(),
        enabled: true,
        children: vec![
            MenuNode::Submenu {
                label: "Sumo".to_string(),
                enabled: true,
                children: vec![
                    MenuNode::ActionItem {
                        id: "about_sumo".to_string(),
                        label: "About Sumo".to_string(),
                        enabled: true,
                    },
                    MenuNode::Separator,
                    predefined(PredefinedKind::Quit),
                ],
            },
            MenuNode::Submenu {
                label: "Edit".to_string(),
                enabled: true,
                children: vec![
                    predefined(PredefinedKind::Undo),
                    predefined(PredefinedKind::Redo),
                    MenuNode::Separator,
                    predefined(PredefinedKind::Cut),
                    predefined(PredefinedKind::Copy),
                    predefined(PredefinedKind::Paste),
                    predefined(PredefinedKind::SelectAll),
                ],
            },
        ],
    };
    assert_eq!(build_menu(), expected);
}

#[test]
fn menu_is_the_same_on_every_call() {
    assert_eq!(build_menu(), build_menu());
}

fn action_ids(node: &MenuNode, out: &mut Vec<String>) {
    match node {
        MenuNode::ActionItem { id, .. } => out.push(id.clone()),
        MenuNode::Submenu { children, .. } => {
            for child in children {
                action_ids(child, out);
            }
        }
        _ => {}
    }
}

#[test]
fn about_is_the_only_entry_of_the_application() {
    let mut ids = Vec::new();
    action_ids(&build_menu(), &mut ids);
    assert_eq!(ids, vec!["about_sumo".to_string()]);
}
