use input_viz_key::broadcast::{
    broadcast_plan, input_event_channel, notification_channel, Delivery,
};
use input_viz_key::events::InputEvent;
use input_viz_key::registry::Registry;
use input_viz_key::tray::Notification;

#[test]
fn channel_names_are_fixed() {
    assert_eq!(input_event_channel(), "input-event");
    assert_eq!(notification_channel(&Notification::SurfaceShown), "show-ui");
    assert_eq!(notification_channel(&Notification::SurfaceHidden), "hide-ui");
}

#[test]
fn plan_covers_every_tracked_window_in_order() {
    let mut reg = Registry::new();
    reg.create("main".to_string());
    reg.create("A".to_string());
    reg.create("B".to_string());
    let ev = InputEvent::KeyDown(42);
    let plan = broadcast_plan(&reg, ev);
    assert_eq!(
        plan,
        vec![
            Delivery { target: "main".to_string(), event: ev },
            Delivery { target: "A".to_string(), event: ev },
            Delivery { target: "B".to_string(), event: ev },
        ]
    );
}

#[test]
fn plan_for_empty_registry_is_empty() {
    let reg = Registry::new();
    let plan = broadcast_plan(&reg, InputEvent::ButtonUp(1));
    assert!(plan.is_empty());
}
