use input_viz_key::events::{normalize, normalize_events, InputEvent, RawEvent};

#[test]
fn normalize_drops_motion() {
    assert_eq!(normalize(&RawEvent::MouseMove), None);
}

#[test]
fn normalize_forwards_each_kind() {
    assert_eq!(normalize(&RawEvent::KeyDown(120)), Some(InputEvent::KeyDown(120)));
    assert_eq!(normalize(&RawEvent::KeyUp(120)), Some(InputEvent::KeyUp(120)));
    assert_eq!(normalize(&RawEvent::ButtonDown(1)), Some(InputEvent::ButtonDown(1)));
    assert_eq!(normalize(&RawEvent::ButtonUp(2)), Some(InputEvent::ButtonUp(2)));
    assert_eq!(
        normalize(&RawEvent::Scroll { delta_x: -3, delta_y: 7 }),
        Some(InputEvent::Scroll { delta_x: -3, delta_y: 7 })
    );
}

#[test]
fn stream_scenario() {
    // 120 is the key code this build uses for 'x'; 1 is the left button.
    let raw = vec![
        RawEvent::MouseMove,
        RawEvent::KeyDown(120),
        RawEvent::MouseMove,
        RawEvent::ButtonDown(1),
    ];
    let out = normalize_events(&raw);
    assert_eq!(out, vec![InputEvent::KeyDown(120), InputEvent::ButtonDown(1)]);
}

#[test]
fn stream_keeps_relative_order() {
    let raw = vec![
        RawEvent::MouseMove,
        RawEvent::KeyDown(10),
        RawEvent::KeyUp(10),
        RawEvent::MouseMove,
        RawEvent::MouseMove,
        RawEvent::Scroll { delta_x: 0, delta_y: -1 },
        RawEvent::ButtonDown(3),
        RawEvent::MouseMove,
        RawEvent::ButtonUp(3),
    ];
    let out = normalize_events(&raw);
    assert_eq!(
        out,
        vec![
            InputEvent::KeyDown(10),
            InputEvent::KeyUp(10),
            InputEvent::Scroll { delta_x: 0, delta_y: -1 },
            InputEvent::ButtonDown(3),
            InputEvent::ButtonUp(3),
        ]
    );
}

#[test]
fn stream_of_motion_only_is_empty() {
    let raw = vec![RawEvent::MouseMove, RawEvent::MouseMove, RawEvent::MouseMove];
    assert_eq!(normalize_events(&raw), vec![]);
}

#[test]
fn empty_stream_stays_empty() {
    assert_eq!(normalize_events(&vec![]), vec![]);
}
