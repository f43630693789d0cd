use input_viz_key::registry::{Registry, Visibility};
use input_viz_key::tray::{
    apply_action, handle_menu_event, parse_menu_id, MenuAction, Notification,
};

#[test]
fn parse_recognizes_fixed_identifiers() {
    assert_eq!(parse_menu_id("show"), Some(MenuAction::Show));
    assert_eq!(parse_menu_id("hide"), Some(MenuAction::Hide));
    assert_eq!(parse_menu_id("quit"), Some(MenuAction::Quit));
}

#[test]
fn parse_ignores_unknown_identifiers() {
    assert_eq!(parse_menu_id(""), None);
    assert_eq!(parse_menu_id("Show"), None);
    assert_eq!(parse_menu_id("restart"), None);
    assert_eq!(parse_menu_id("quit "), None);
}

#[test]
fn show_then_hide_leaves_overlays_hidden() {
    let mut reg = Registry::new();
    reg.create("main".to_string());
    reg.create("A".to_string());
    reg.create("B".to_string());
    let e1 = apply_action(&mut reg, MenuAction::Show);
    let e2 = apply_action(&mut reg, MenuAction::Hide);
    assert_eq!(reg.visibility_of(&"A".to_string()), Some(Visibility::Hidden));
    assert_eq!(reg.visibility_of(&"B".to_string()), Some(Visibility::Hidden));
    // the primary window saw exactly one shown, then one hidden notification
    assert_eq!(e1.notify, Some(Notification::SurfaceShown));
    assert_eq!(e2.notify, Some(Notification::SurfaceHidden));
    assert_eq!(e1.show_labels, vec!["A".to_string(), "B".to_string()]);
    assert!(e1.hide_labels.is_empty());
    assert_eq!(e2.hide_labels, vec!["A".to_string(), "B".to_string()]);
    assert!(e2.show_labels.is_empty());
}

#[test]
fn no_primary_means_no_notification() {
    let mut reg = Registry::new();
    reg.create("A".to_string());
    let e = apply_action(&mut reg, MenuAction::Show);
    assert_eq!(e.notify, None);
    assert_eq!(e.show_labels, vec!["A".to_string()]);
}

#[test]
fn quit_commands_termination_in_any_state() {
    let mut empty = Registry::new();
    let e = apply_action(&mut empty, MenuAction::Quit);
    assert!(e.quit);
    assert!(e.show_labels.is_empty());
    assert!(e.hide_labels.is_empty());
    assert_eq!(e.notify, None);

    let mut busy = Registry::new();
    busy.create("main".to_string());
    busy.create("A".to_string());
    apply_action(&mut busy, MenuAction::Show);
    let e2 = apply_action(&mut busy, MenuAction::Quit);
    assert!(e2.quit);
    // quit changes no window state
    assert_eq!(busy.len(), 2);
    assert_eq!(busy.visibility_of(&"A".to_string()), Some(Visibility::Visible));
}

#[test]
fn only_quit_commands_termination() {
    let mut reg = Registry::new();
    reg.create("A".to_string());
    assert!(!apply_action(&mut reg, MenuAction::Show).quit);
    assert!(!apply_action(&mut reg, MenuAction::Hide).quit);
}

#[test]
fn menu_event_dispatches_by_identifier() {
    let mut reg = Registry::new();
    reg.create("A".to_string());
    let e = handle_menu_event(&mut reg, "show");
    assert_eq!(reg.visibility_of(&"A".to_string()), Some(Visibility::Visible));
    assert_eq!(e.show_labels, vec!["A".to_string()]);
    let e2 = handle_menu_event(&mut reg, "quit");
    assert!(e2.quit);
}

#[test]
fn unknown_menu_event_is_ignored() {
    let mut reg = Registry::new();
    reg.create("A".to_string());
    handle_menu_event(&mut reg, "show");
    let e = handle_menu_event(&mut reg, "frobnicate");
    assert!(!e.quit);
    assert_eq!(e.notify, None);
    assert!(e.show_labels.is_empty());
    assert!(e.hide_labels.is_empty());
    // the registry is untouched
    assert_eq!(reg.len(), 1);
    assert_eq!(reg.visibility_of(&"A".to_string()), Some(Visibility::Visible));
}
