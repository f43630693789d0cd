use input_viz_key::registry::{CreateOutcome, Registry, Visibility};
use input_viz_key::tray::{apply_action, MenuAction};

#[test]
fn create_registers_hidden() {
    let mut reg = Registry::new();
    assert_eq!(reg.len(), 0);
    let outcome = reg.create("A".to_string());
    assert!(matches!(outcome, CreateOutcome::Created(_)));
    assert_eq!(reg.len(), 1);
    assert!(reg.contains(&"A".to_string()));
    assert_eq!(reg.visibility_of(&"A".to_string()), Some(Visibility::Hidden));
}

#[test]
fn create_twice_registers_once() {
    let mut reg = Registry::new();
    let first = reg.create("A".to_string());
    assert!(matches!(first, CreateOutcome::Created(_)));
    let second = reg.create("A".to_string());
    assert_eq!(second, CreateOutcome::AlreadyRegistered);
    assert_eq!(reg.len(), 1);
}

#[test]
fn descriptor_is_fixed_by_label() {
    let mut reg = Registry::new();
    let outcome = reg.create("board".to_string());
    let d = match outcome {
        CreateOutcome::Created(d) => d,
        CreateOutcome::AlreadyRegistered => panic!("label was fresh"),
    };
    assert_eq!(d.label, "board".to_string());
    assert_eq!(d.route, "index.html#board".to_string());
    assert_eq!(d.geometry.x, 0);
    assert_eq!(d.geometry.y, 0);
    assert_eq!(d.geometry.width, 1);
    assert_eq!(d.geometry.height, 1);
    assert!(!d.chrome.decorated);
    assert!(d.chrome.transparent);
    assert!(d.chrome.always_on_top);
    assert!(d.chrome.skip_taskbar);
    assert!(!d.chrome.resizable);
    assert!(!d.chrome.closable);
    assert!(!d.chrome.minimizable);
    assert!(!d.chrome.maximizable);
    assert!(!d.chrome.focusable);
    assert!(!d.chrome.shadowed);
    assert!(!d.chrome.initially_visible);
}

#[test]
fn created_window_stays_hidden_until_show() {
    let mut reg = Registry::new();
    reg.create("A".to_string());
    assert_eq!(reg.visibility_of(&"A".to_string()), Some(Visibility::Hidden));
    apply_action(&mut reg, MenuAction::Hide);
    assert_eq!(reg.visibility_of(&"A".to_string()), Some(Visibility::Hidden));
    apply_action(&mut reg, MenuAction::Quit);
    assert_eq!(reg.visibility_of(&"A".to_string()), Some(Visibility::Hidden));
    reg.create("B".to_string());
    assert_eq!(reg.visibility_of(&"A".to_string()), Some(Visibility::Hidden));
    apply_action(&mut reg, MenuAction::Show);
    assert_eq!(reg.visibility_of(&"A".to_string()), Some(Visibility::Visible));
}

#[test]
fn lookup_of_unknown_label_is_none() {
    let mut reg = Registry::new();
    reg.create("A".to_string());
    assert_eq!(reg.visibility_of(&"B".to_string()), None);
    assert!(!reg.contains(&"B".to_string()));
}

#[test]
fn scenario_show_hide_recreate() {
    let mut reg = Registry::new();
    reg.create("A".to_string());
    reg.create("B".to_string());
    apply_action(&mut reg, MenuAction::Show);
    assert_eq!(reg.visibility_of(&"A".to_string()), Some(Visibility::Visible));
    assert_eq!(reg.visibility_of(&"B".to_string()), Some(Visibility::Visible));
    apply_action(&mut reg, MenuAction::Hide);
    assert_eq!(reg.visibility_of(&"A".to_string()), Some(Visibility::Hidden));
    assert_eq!(reg.visibility_of(&"B".to_string()), Some(Visibility::Hidden));
    let again = reg.create("A".to_string());
    assert_eq!(again, CreateOutcome::AlreadyRegistered);
    assert_eq!(reg.len(), 2);
}

#[test]
fn primary_window_is_never_toggled_directly() {
    let mut reg = Registry::new();
    reg.create("main".to_string());
    reg.create("A".to_string());
    let e = apply_action(&mut reg, MenuAction::Show);
    assert_eq!(reg.visibility_of(&"A".to_string()), Some(Visibility::Visible));
    // the primary window keeps its own state; it is only notified
    assert_eq!(reg.visibility_of(&"main".to_string()), Some(Visibility::Hidden));
    assert_eq!(e.show_labels, vec!["A".to_string()]);
}

#[test]
fn has_primary_tracks_main_label() {
    let mut reg = Registry::new();
    assert!(!reg.has_primary());
    reg.create("overlay".to_string());
    assert!(!reg.has_primary());
    reg.create("main".to_string());
    assert!(reg.has_primary());
}

#[test]
fn labels_come_in_registry_order() {
    let mut reg = Registry::new();
    reg.create("main".to_string());
    reg.create("A".to_string());
    reg.create("B".to_string());
    reg.create("A".to_string());
    assert_eq!(
        reg.labels(),
        vec!["main".to_string(), "A".to_string(), "B".to_string()]
    );
}
