use vass::editor::{knob_drag_scale, DragButton, EditorState};

#[test]
fn editor_starts_closed_with_default_size() {
    let e = EditorState::new();
    assert_eq!(e.size(), (400, 400));
    assert_eq!(e.position(), (0, 0));
    assert!(!e.is_open());
    assert!(!e.idle());
}

#[test]
fn editor_open_and_close() {
    let mut e = EditorState::with_size((640, 480));
    assert!(!e.open(false));
    assert!(e.open(true));
    assert!(e.is_open());
    assert!(e.idle());
    assert!(e.open(false));
    e.close();
    assert!(!e.is_open());
    assert_eq!(e.size(), (640, 480));
}

#[test]
fn knob_scale_by_button() {
    assert_eq!(knob_drag_scale(DragButton::Left), 1);
    assert_eq!(knob_drag_scale(DragButton::Right), 5);
    assert_eq!(knob_drag_scale(DragButton::Middle), 5);
    assert_eq!(knob_drag_scale(DragButton::Other(4)), 5);
}
