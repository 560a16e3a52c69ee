use stroke_canvas::camera::CameraController;
use stroke_canvas::input::{CursorAction, InputState, Key, DOUBLE_PRESS_WINDOW_NS};

#[test]
fn new_input_state_holds_nothing() {
    let s = InputState::new();
    assert!(!s.is_space_pressed);
    assert!(!s.is_ctrl_pressed);
    assert!(!s.is_shift_pressed);
    assert!(!s.is_dragging);
    assert_eq!(s.last_space_press_time, None);
}

#[test]
fn double_press_window_is_exclusive() {
    let mut s = InputState::new();
    const MS: u64 = 1_000_000;
    assert!(!s.is_double_press_at(1000 * MS));
    s.last_space_press_time = Some(1000 * MS);
    assert_eq!(DOUBLE_PRESS_WINDOW_NS, 300 * MS);
    assert!(s.is_double_press_at(1000 * MS));
    assert!(s.is_double_press_at(1300 * MS - 1));
    assert!(!s.is_double_press_at(1300 * MS));
    assert!(!s.is_double_press_at(5000 * MS));
}

#[test]
fn clock_reading_earlier_counts_as_no_time_elapsed() {
    let mut s = InputState::new();
    s.last_space_press_time = Some(1_000_000_000);
    assert!(s.is_double_press_at(10));
}

#[test]
fn cursor_action_follows_drag_and_space() {
    let mut s = InputState::new();
    assert_eq!(s.cursor_action(), CursorAction::Hover);
    s.is_space_pressed = true;
    assert_eq!(s.cursor_action(), CursorAction::Hover);
    s.is_dragging = true;
    assert_eq!(s.cursor_action(), CursorAction::Pan);
    s.is_space_pressed = false;
    assert_eq!(s.cursor_action(), CursorAction::Draw);
}

#[test]
fn camera_keys_set_their_direction() {
    let mut c = CameraController::new();
    assert!(c.handle_key(Key::KeyW, true));
    assert!(c.is_forward_pressed);
    assert!(c.handle_key(Key::ArrowLeft, true));
    assert!(c.is_left_pressed);
    assert!(c.handle_key(Key::KeyS, true));
    assert!(c.is_backward_pressed);
    assert!(c.handle_key(Key::ArrowRight, true));
    assert!(c.is_right_pressed);
    assert!(c.handle_key(Key::ArrowUp, false));
    assert!(!c.is_forward_pressed);
    assert!(c.is_left_pressed && c.is_backward_pressed && c.is_right_pressed);
    assert!(c.handle_key(Key::KeyA, false));
    assert!(c.handle_key(Key::ArrowDown, false));
    assert!(c.handle_key(Key::KeyD, false));
    assert_eq!(c, CameraController::new());
}

#[test]
fn other_keys_are_not_camera_keys() {
    let mut c = CameraController::new();
    c.is_left_pressed = true;
    let before = c;
    for k in [Key::Escape, Key::Space, Key::KeyZ, Key::ShiftLeft, Key::ControlRight, Key::Other] {
        assert!(!c.handle_key(k, true));
        assert_eq!(c, before);
    }
}

#[test]
fn movement_axes_cancel_opposite_keys() {
    let mut c = CameraController::new();
    assert_eq!(c.movement_axes(), (0, 0));
    c.is_forward_pressed = true;
    assert_eq!(c.movement_axes(), (1, 0));
    c.is_backward_pressed = true;
    assert_eq!(c.movement_axes(), (0, 0));
    c.is_left_pressed = true;
    assert_eq!(c.movement_axes(), (0, -1));
    c.is_forward_pressed = false;
    assert_eq!(c.movement_axes(), (-1, -1));
    c.is_right_pressed = true;
    assert_eq!(c.movement_axes(), (-1, 0));
}
