use sumo_shell::menu::{build_menu, MenuNode};
use sumo_shell::router::{on_menu_event, resolve, same_text, MenuCommand, MenuEvent};

fn event(id: &str) -> MenuEvent {
    MenuEvent { id: id.to_string() }
}

#[test]
fn about_event_reaches_the_about_handler() {
    assert_eq!(on_menu_event(&event("about_sumo")), MenuCommand::About);
}

#[test]
fn about_handler_leaves_one_line() {
    assert_eq!(on_menu_event(&event("about_sumo")).notice(), Some("About Sumo clicked"));
}

#[test]
fn every_about_event_is_routed() {
    let mut handled = 0;
    for _ in 0..3 {
        if on_menu_event(&event("about_sumo")) == MenuCommand::About {
            handled += 1;
        }
    }
    assert_eq!(handled, 3);
}

#[test]
fn predefined_identifiers_are_passed_over() {
    for id in ["quit", "undo", "redo", "cut", "copy", "paste", "select_all"] {
        assert_eq!(on_menu_event(&event(id)), MenuCommand::Unrecognized);
        assert_eq!(on_menu_event(&event(id)).notice(), None);
    }
}

#[test]
fn unknown_identifiers_are_passed_over() {
    for id in ["", "nonexistent", "about", "about_sumo ", " about_sumo", "ABOUT_SUMO", "about_sumo\0", "about-sumo", "about_sumoo", "äbout_sumo"] {
        assert_eq!(on_menu_event(&event(id)), MenuCommand::Unrecognized);
        assert_eq!(resolve(id), MenuCommand::Unrecognized);
    }
}

#[test]
fn unrecognized_command_leaves_no_line() {
    assert_eq!(MenuCommand::Unrecognized.notice(), None);
}

#[test]
fn resolve_knows_the_about_identifier() {
    assert_eq!(resolve("about_sumo"), MenuCommand::About);
}

#[test]
fn same_text_on_equal_strings() {
    assert!(same_text("", ""));
    assert!(same_text("about_sumo", "about_sumo"));
    assert!(same_text("héllo wörld", "héllo wörld"));
}

#[test]
fn same_text_on_different_strings() {
    assert!(!same_text("", "a"));
    assert!(!same_text("a", ""));
    assert!(!same_text("abc", "abd"));
    assert!(!same_text("abc", "abcd"));
    assert!(!same_text("xbc", "abc"));
    assert!(!same_text("é", "e"));
    assert!(!same_text("é", "è"));
}

fn check_actions(node: &MenuNode) {
    match node {
        MenuNode::ActionItem { id, .. } => {
            assert_ne!(resolve(id), MenuCommand::Unrecognized);
        }
        MenuNode::Submenu { children, .. } => {
            for child in children {
                check_actions(child);
            }
        }
        _ => {}
    }
}

#[test]
fn router_knows_every_action_of_the_menu() {
    check_actions(&build_menu());
}
