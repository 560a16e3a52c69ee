use stroke_canvas::editor::{Editor, KeyOutcome};
use stroke_canvas::history::StrokeHistory;
use stroke_canvas::input::{CursorAction, Key};

const MS: u64 = 1_000_000;

#[test]
fn undo_and_redo_move_strokes_between_stacks() {
    let mut h: StrokeHistory<u32> = StrokeHistory::new();
    assert!(!h.undo());
    assert!(!h.redo());
    h.commit(1);
    h.commit(2);
    h.commit(3);
    assert!(h.undo());
    assert!(h.undo());
    assert_eq!(h.strokes, vec![1]);
    assert_eq!(h.undo_stack, vec![3, 2]);
    assert!(h.redo());
    assert_eq!(h.strokes, vec![1, 2]);
    assert_eq!(h.undo_stack, vec![3]);
    assert!(h.redo());
    assert!(!h.redo());
    assert_eq!(h.strokes, vec![1, 2, 3]);
    assert!(h.undo_stack.is_empty());
}

#[test]
fn commit_discards_what_was_undone() {
    let mut h: StrokeHistory<u32> = StrokeHistory::new();
    h.commit(1);
    h.commit(2);
    assert!(h.undo());
    h.commit(9);
    assert_eq!(h.strokes, vec![1, 9]);
    assert!(h.undo_stack.is_empty());
    assert!(!h.redo());
}

#[test]
fn current_stroke_is_taken_once() {
    let mut h: StrokeHistory<u32> = StrokeHistory::new();
    h.begin_stroke(4);
    h.begin_stroke(5);
    assert_eq!(h.current_stroke, Some(5));
    assert_eq!(h.take_current_stroke(), Some(5));
    assert_eq!(h.take_current_stroke(), None);
    assert!(h.strokes.is_empty());
}

#[test]
fn escape_toggles_debug_mode() {
    let mut e: Editor<u32> = Editor::new(640, 480);
    assert_eq!(e.handle_key(Key::Escape, true, 0), KeyOutcome::DebugToggled);
    assert!(e.debug_mode);
    assert_eq!(e.handle_key(Key::Escape, false, 0), KeyOutcome::Camera(false));
    assert!(e.debug_mode);
    assert_eq!(e.handle_key(Key::Escape, true, 0), KeyOutcome::DebugToggled);
    assert!(!e.debug_mode);
}

#[test]
fn space_double_press_resets_zoom() {
    let mut e: Editor<u32> = Editor::new(640, 480);
    assert_eq!(e.handle_key(Key::Space, true, 1000 * MS), KeyOutcome::Nothing);
    assert!(e.input.is_space_pressed);
    assert_eq!(e.input.last_space_press_time, Some(1000 * MS));
    // a key repeat while held changes nothing
    assert_eq!(e.handle_key(Key::Space, true, 1100 * MS), KeyOutcome::Nothing);
    assert_eq!(e.input.last_space_press_time, Some(1000 * MS));
    assert_eq!(e.handle_key(Key::Space, false, 1150 * MS), KeyOutcome::Nothing);
    assert!(!e.input.is_space_pressed);
    assert_eq!(e.handle_key(Key::Space, true, 1200 * MS), KeyOutcome::ZoomReset);
    assert_eq!(e.input.last_space_press_time, None);
    assert_eq!(e.handle_key(Key::Space, false, 1210 * MS), KeyOutcome::Nothing);
    assert_eq!(e.handle_key(Key::Space, true, 1220 * MS), KeyOutcome::Nothing);
    assert_eq!(e.input.last_space_press_time, Some(1220 * MS));
}

#[test]
fn slow_second_press_is_not_a_double_press() {
    let mut e: Editor<u32> = Editor::new(640, 480);
    e.handle_key(Key::Space, true, 0 * MS);
    e.handle_key(Key::Space, false, 100 * MS);
    assert_eq!(e.handle_key(Key::Space, true, 300 * MS), KeyOutcome::Nothing);
    assert_eq!(e.input.last_space_press_time, Some(300 * MS));
}

#[test]
fn ctrl_z_undoes_and_ctrl_shift_z_redoes() {
    let mut e: Editor<u32> = Editor::new(640, 480);
    e.commit_stroke(7);
    e.commit_stroke(8);
    assert_eq!(e.handle_key(Key::KeyZ, true, 0), KeyOutcome::Nothing);
    assert_eq!(e.history.strokes, vec![7, 8]);
    assert_eq!(e.handle_key(Key::ControlLeft, true, 0), KeyOutcome::Nothing);
    assert_eq!(e.handle_key(Key::KeyZ, true, 0), KeyOutcome::Undone);
    assert_eq!(e.handle_key(Key::KeyZ, true, 0), KeyOutcome::Undone);
    assert_eq!(e.handle_key(Key::KeyZ, true, 0), KeyOutcome::Nothing);
    assert!(e.history.strokes.is_empty());
    assert_eq!(e.handle_key(Key::ShiftRight, true, 0), KeyOutcome::Nothing);
    assert_eq!(e.handle_key(Key::KeyZ, true, 0), KeyOutcome::Redone);
    assert_eq!(e.history.strokes, vec![7]);
    assert_eq!(e.handle_key(Key::KeyZ, false, 0), KeyOutcome::Camera(false));
    assert_eq!(e.handle_key(Key::KeyZ, true, 0), KeyOutcome::Redone);
    assert_eq!(e.handle_key(Key::KeyZ, true, 0), KeyOutcome::Nothing);
    assert_eq!(e.history.strokes, vec![7, 8]);
    assert_eq!(e.handle_key(Key::ControlRight, false, 0), KeyOutcome::Nothing);
    assert!(!e.input.is_ctrl_pressed);
    assert_eq!(e.handle_key(Key::ShiftLeft, false, 0), KeyOutcome::Nothing);
    assert!(!e.input.is_shift_pressed);
}

#[test]
fn movement_keys_reach_the_camera() {
    let mut e: Editor<u32> = Editor::new(640, 480);
    assert_eq!(e.handle_key(Key::KeyD, true, 0), KeyOutcome::Camera(true));
    assert!(e.controller.is_right_pressed);
    assert_eq!(e.handle_key(Key::Other, true, 0), KeyOutcome::Camera(false));
}

#[test]
fn drag_starts_and_ends_a_stroke() {
    let mut e: Editor<u32> = Editor::new(640, 480);
    assert_eq!(e.cursor_action(), CursorAction::Hover);
    e.begin_drag(5);
    assert!(e.input.is_dragging);
    assert_eq!(e.cursor_action(), CursorAction::Draw);
    assert_eq!(e.history.current_stroke, Some(5));
    assert_eq!(e.end_drag(), Some(5));
    assert!(!e.input.is_dragging);
    assert_eq!(e.end_drag(), None);
    e.commit_stroke(5);
    assert_eq!(e.history.strokes, vec![5]);
}

#[test]
fn resize_ignores_an_empty_window() {
    let mut e: Editor<u32> = Editor::new(640, 480);
    assert!(!e.is_surface_configured);
    assert_eq!((e.surface_width, e.surface_height), (640, 480));
    assert!(!e.resize(0, 600));
    assert!(!e.resize(800, 0));
    assert!(!e.is_surface_configured);
    assert_eq!((e.surface_width, e.surface_height), (640, 480));
    assert!(e.resize(800, 600));
    assert!(e.is_surface_configured);
    assert_eq!((e.surface_width, e.surface_height), (800, 600));
    assert!(!e.resize(0, 0));
    assert_eq!((e.surface_width, e.surface_height), (800, 600));
}
