use vstd::prelude::*;

use crate::camera::{controller_after_key, direction_of, idle_controller, CameraController};
use crate::history::{
    lemma_redo_keeps_timeline, lemma_redo_reverts_undo, lemma_undo_keeps_timeline, redone, timeline, undone,
    StrokeHistory,
};
use crate::input::{
    cursor_action_of, initial_input, is_double_press, CursorAction, InputState, Key,
    DOUBLE_PRESS_WINDOW_NS,
};

verus! {

/// What the application has to do after a key event.
#[derive(Clone, Copy, Debug, PartialEq, Eq, Structural)]
pub enum KeyOutcome {
    /// Nothing beyond the state change.
    Nothing,
    /// Debug drawing was switched on or off.
    DebugToggled,
    /// A double press of space: the zoom goes back to 1.
    ZoomReset,
    /// A stroke was taken back: clear the interpolated points and rebuild.
    Undone,
    /// A stroke was restored: rebuild.
    Redone,
    /// The key went to the camera controller; `true` when it is a movement
    /// key.
    Camera(bool),
}

/// The state of the canvas, abstracted from the strokes' contents.
pub struct EditorModel<T> {
    pub debug_mode: bool,
    pub input: InputState,
    pub controller: CameraController,
    pub strokes: Seq<T>,
    pub current_stroke: Option<T>,
    pub undo_stack: Seq<T>,
    pub surface_width: u32,
    pub surface_height: u32,
    pub is_surface_configured: bool,
}

/// The canvas: debug switch, input state, camera keys, surface size and the
/// stroke history.
pub struct Editor<T> {
    pub debug_mode: bool,
    pub input: InputState,
    pub controller: CameraController,
    pub history: StrokeHistory<T>,
    pub surface_width: u32,
    pub surface_height: u32,
    pub is_surface_configured: bool,
}

impl<T> View for Editor<T> {
    type V = EditorModel<T>;

    open spec fn view(&self) -> EditorModel<T> {
        EditorModel {
            debug_mode: self.debug_mode,
            input: self.input,
            controller: self.controller,
            strokes: self.history.strokes@,
            current_stroke: self.history.current_stroke,
            undo_stack: self.history.undo_stack@,
            surface_width: self.surface_width,
            surface_height: self.surface_height,
            is_surface_configured: self.is_surface_configured,
        }
    }
}

pub open spec fn is_ctrl_key(key: Key) -> bool {
    key == Key::ControlLeft || key == Key::ControlRight
}

pub open spec fn is_shift_key(key: Key) -> bool {
    key == Key::ShiftLeft || key == Key::ShiftRight
}

/// `m` with its input state replaced.
pub open spec fn with_input<T>(m: EditorModel<T>, input: InputState) -> EditorModel<T> {
    EditorModel { input, ..m }
}

/// A press of space: ignored while space is held; otherwise it marks space
/// held and either completes a double press (zoom reset, the press time is
/// forgotten) or records its time.
pub open spec fn space_press<T>(m: EditorModel<T>, now: u64) -> (EditorModel<T>, KeyOutcome) {
    if m.input.is_space_pressed {
        (m, KeyOutcome::Nothing)
    } else if is_double_press(m.input.last_space_press_time, now) {
        (
            with_input(m, InputState { is_space_pressed: true, last_space_press_time: None, ..m.input }),
            KeyOutcome::ZoomReset,
        )
    } else {
        (
            with_input(m, InputState { is_space_pressed: true, last_space_press_time: Some(now), ..m.input }),
            KeyOutcome::Nothing,
        )
    }
}

/// A press of Z: nothing without Ctrl; with Ctrl an undo, with Ctrl and
/// Shift a redo.
pub open spec fn z_press<T>(m: EditorModel<T>) -> (EditorModel<T>, KeyOutcome) {
    if !m.input.is_ctrl_pressed {
        (m, KeyOutcome::Nothing)
    } else if !m.input.is_shift_pressed {
        let h = undone(m.strokes, m.undo_stack);
        (
            EditorModel { strokes: h.0, undo_stack: h.1, ..m },
            if m.strokes.len() > 0 { KeyOutcome::Undone } else { KeyOutcome::Nothing },
        )
    } else {
        let h = redone(m.strokes, m.undo_stack);
        (
            EditorModel { strokes: h.0, undo_stack: h.1, ..m },
            if m.undo_stack.len() > 0 { KeyOutcome::Redone } else { KeyOutcome::Nothing },
        )
    }
}

/// The canvas after a key event at time `now`, and what the application
/// has to do.
pub open spec fn key_step<T>(m: EditorModel<T>, key: Key, pressed: bool, now: u64) -> (EditorModel<T>, KeyOutcome) {
    if key == Key::Escape && pressed {
        (EditorModel { debug_mode: !m.debug_mode, ..m }, KeyOutcome::DebugToggled)
    } else if key == Key::Space && pressed {
        space_press(m, now)
    } else if key == Key::Space {
        (with_input(m, InputState { is_space_pressed: false, ..m.input }), KeyOutcome::Nothing)
    } else if is_ctrl_key(key) {
        (with_input(m, InputState { is_ctrl_pressed: pressed, ..m.input }), KeyOutcome::Nothing)
    } else if is_shift_key(key) {
        (with_input(m, InputState { is_shift_pressed: pressed, ..m.input }), KeyOutcome::Nothing)
    } else if key == Key::KeyZ && pressed {
        z_press(m)
    } else {
        (
            EditorModel { controller: controller_after_key(m.controller, key, pressed), ..m },
            KeyOutcome::Camera(direction_of(key) is Some),
        )
    }
}

impl<T> Editor<T> {
    /// A fresh canvas for a window of `width` by `height`: debug drawing
    /// off, nothing held, no strokes, the surface not yet configured.
    pub fn new(width: u32, height: u32) -> (e: Self)
        ensures
            !e@.debug_mode,
            e@.input == initial_input(),
            e@.controller == idle_controller(),
            e@.strokes == Seq::<T>::empty(),
            e@.current_stroke is None,
            e@.undo_stack == Seq::<T>::empty(),
            e@.surface_width == width,
            e@.surface_height == height,
            !e@.is_surface_configured,
    {
        Editor {
            debug_mode: false,
            input: InputState::new(),
            controller: CameraController::new(),
            history: StrokeHistory::new(),
            surface_width: width,
            surface_height: height,
            is_surface_configured: false,
        }
    }

    /// Handles a key press (`is_pressed`) or release at time `now_ns`.
    pub fn handle_key(&mut self, code: Key, is_pressed: bool, now_ns: u64) -> (outcome: KeyOutcome)
        ensures
            (final(self)@, outcome) == key_step(old(self)@, code, is_pressed, now_ns),
    {
        match code {
            Key::Escape if is_pressed => {
                self.debug_mode = !self.debug_mode;
                KeyOutcome::DebugToggled
            },
            Key::Space if is_pressed => {
                if !self.input.is_space_pressed {
                    self.input.is_space_pressed = true;
                    if self.input.is_double_press_at(now_ns) {
                        self.input.last_space_press_time = None;
                        KeyOutcome::ZoomReset
                    } else {
                        self.input.last_space_press_time = Some(now_ns);
                        KeyOutcome::Nothing
                    }
                } else {
                    KeyOutcome::Nothing
                }
            },
            Key::Space => {
                self.input.is_space_pressed = false;
                KeyOutcome::Nothing
            },
            Key::ControlLeft | Key::ControlRight => {
                self.input.is_ctrl_pressed = is_pressed;
                KeyOutcome::Nothing
            },
            Key::ShiftLeft | Key::ShiftRight => {
                self.input.is_shift_pressed = is_pressed;
                KeyOutcome::Nothing
            },
            Key::KeyZ if is_pressed => {
                if !self.input.is_ctrl_pressed {
                    KeyOutcome::Nothing
                } else if !self.input.is_shift_pressed {
                    if self.history.undo() {
                        KeyOutcome::Undone
                    } else {
                        KeyOutcome::Nothing
                    }
                } else {
                    if self.history.redo() {
                        KeyOutcome::Redone
                    } else {
                        KeyOutcome::Nothing
                    }
                }
            },
            _ => {
                let handled = self.controller.handle_key(code, is_pressed);
                KeyOutcome::Camera(handled)
            },
        }
    }

    /// The left button went down: a drag starts with `stroke` as the
    /// stroke being drawn (replacing any unfinished one).
    pub fn begin_drag(&mut self, stroke: T)
        ensures
            final(self)@ == press_step(old(self)@, stroke),
    {
        self.input.is_dragging = true;
        self.history.begin_stroke(stroke);
    }

    /// The left button went up: the drag ends and the stroke being drawn,
    /// if any, is handed back to be finished and committed.
    pub fn end_drag(&mut self) -> (stroke: Option<T>)
        ensures
            (final(self)@, stroke) == release_step(old(self)@),
    {
        self.input.is_dragging = false;
        self.history.take_current_stroke()
    }

    /// Adds a finished stroke; nothing undone can be redone afterwards.
    pub fn commit_stroke(&mut self, stroke: T)
        ensures
            final(self)@ == commit_step(old(self)@, stroke),
    {
        self.history.commit(stroke);
    }

    /// What a cursor movement does now.
    pub fn cursor_action(&self) -> (a: CursorAction)
        ensures
            a == cursor_action_of(self@.input),
    {
        self.input.cursor_action()
    }

    /// A new window size. A size with a zero side is ignored; any other
    /// is recorded and marks the surface configured. Returns whether the
    /// surface has to be configured anew.
    pub fn resize(&mut self, width: u32, height: u32) -> (reconfigure: bool)
        ensures
            reconfigure == (width > 0 && height > 0),
            final(self)@ == resize_step(old(self)@, width, height),
    {
        if width > 0 && height > 0 {
            self.surface_width = width;
            self.surface_height = height;
            self.is_surface_configured = true;
            true
        } else {
            false
        }
    }
}

pub open spec fn press_step<T>(m: EditorModel<T>, stroke: T) -> EditorModel<T> {
    EditorModel {
        input: InputState { is_dragging: true, ..m.input },
        current_stroke: Some(stroke),
        ..m
    }
}

pub open spec fn release_step<T>(m: EditorModel<T>) -> (EditorModel<T>, Option<T>) {
    (
        EditorModel { input: InputState { is_dragging: false, ..m.input }, current_stroke: None, ..m },
        m.current_stroke,
    )
}

pub open spec fn commit_step<T>(m: EditorModel<T>, stroke: T) -> EditorModel<T> {
    EditorModel { strokes: m.strokes.push(stroke), undo_stack: Seq::empty(), ..m }
}

pub open spec fn resize_step<T>(m: EditorModel<T>, width: u32, height: u32) -> EditorModel<T> {
    if width > 0 && height > 0 {
        EditorModel {
            surface_width: width,
            surface_height: height,
            is_surface_configured: true,
            ..m
        }
    } else {
        m
    }
}

/// Pressing space, releasing it and pressing it again within the double
/// press window resets the zoom, provided the first press did not itself
/// complete a double press; the press after that starts over.
pub proof fn lemma_double_press_resets_zoom<T>(m: EditorModel<T>, t1: u64, t2: u64, t3: u64)
    requires
        !m.input.is_space_pressed,
        !is_double_press(m.input.last_space_press_time, t1),
        t1 <= t2,
        t2 - t1 < DOUBLE_PRESS_WINDOW_NS,
    ensures
        ({
            let (m1, o1) = key_step(m, Key::Space, true, t1);
            let (m2, o2) = key_step(m1, Key::Space, false, t2);
            let (m3, o3) = key_step(m2, Key::Space, true, t2);
            let (m4, o4) = key_step(m3, Key::Space, false, t3);
            let (m5, o5) = key_step(m4, Key::Space, true, t3);
            &&& o1 == KeyOutcome::Nothing
            &&& o3 == KeyOutcome::ZoomReset
            &&& m3.input.last_space_press_time is None
            &&& o5 == KeyOutcome::Nothing
            &&& m5.input.last_space_press_time == Some(t3)
        }),
{
}

/// A repeated press while space is held changes nothing.
pub proof fn lemma_held_space_is_ignored<T>(m: EditorModel<T>, now: u64)
    requires
        m.input.is_space_pressed,
    ensures
        key_step(m, Key::Space, true, now) == (m, KeyOutcome::Nothing),
{
}

/// Without Ctrl, Z changes nothing.
pub proof fn lemma_z_needs_ctrl<T>(m: EditorModel<T>, now: u64)
    requires
        !m.input.is_ctrl_pressed,
    ensures
        key_step(m, Key::KeyZ, true, now) == (m, KeyOutcome::Nothing),
{
}

/// Ctrl+Z, then Shift down, then Ctrl+Shift+Z gives back the strokes and
/// the undo stack as they were.
pub proof fn lemma_undo_then_redo_keys<T>(m: EditorModel<T>, now: u64)
    requires
        m.input.is_ctrl_pressed,
        !m.input.is_shift_pressed,
        m.strokes.len() > 0,
    ensures
        ({
            let (m1, o1) = key_step(m, Key::KeyZ, true, now);
            let (m2, o2) = key_step(m1, Key::ShiftLeft, true, now);
            let (m3, o3) = key_step(m2, Key::KeyZ, true, now);
            &&& o1 == KeyOutcome::Undone
            &&& o3 == KeyOutcome::Redone
            &&& m3.strokes == m.strokes
            &&& m3.undo_stack == m.undo_stack
        }),
{
    lemma_redo_reverts_undo(m.strokes, m.undo_stack);
}

/// Escape pressed twice leaves the canvas as it was.
pub proof fn lemma_escape_twice_restores<T>(m: EditorModel<T>, t1: u64, t2: u64)
    ensures
        key_step(key_step(m, Key::Escape, true, t1).0, Key::Escape, true, t2).0 == m,
{
}

/// A movement key changes only the camera controller and reports itself
/// handled; every other field of the canvas stays.
pub proof fn lemma_movement_key_only_moves_camera<T>(m: EditorModel<T>, key: Key, pressed: bool, now: u64)
    requires
        direction_of(key) is Some,
    ensures
        key_step(m, key, pressed, now) == (
            EditorModel { controller: controller_after_key(m.controller, key, pressed), ..m },
            KeyOutcome::Camera(true),
        ),
{
}

/// No key event loses, adds or reorders a stroke: the timeline of drawn
/// strokes stays the same, and only Ctrl+Z (with or without Shift) moves
/// strokes between the two stacks.
pub proof fn lemma_keys_keep_timeline<T>(m: EditorModel<T>, key: Key, pressed: bool, now: u64)
    ensures
        timeline(key_step(m, key, pressed, now).0.strokes, key_step(m, key, pressed, now).0.undo_stack)
            == timeline(m.strokes, m.undo_stack),
        !(key == Key::KeyZ && pressed && m.input.is_ctrl_pressed) ==> key_step(m, key, pressed, now).0.strokes
            == m.strokes && key_step(m, key, pressed, now).0.undo_stack == m.undo_stack,
{
    lemma_undo_keeps_timeline(m.strokes, m.undo_stack);
    lemma_redo_keeps_timeline(m.strokes, m.undo_stack);
}

/// Ending a drag hands back the stroke its start began, and the canvas is
/// left with no stroke being drawn and no drag.
pub proof fn lemma_drag_returns_its_stroke<T>(m: EditorModel<T>, stroke: T)
    ensures
        release_step(press_step(m, stroke)).1 == Some(stroke),
        release_step(press_step(m, stroke)).0.current_stroke is None,
        !release_step(press_step(m, stroke)).0.input.is_dragging,
        release_step(press_step(m, stroke)).0.strokes == m.strokes,
        release_step(press_step(m, stroke)).0.undo_stack == m.undo_stack,
{
}

/// Committing a stroke appends it to the strokes and leaves nothing to
/// redo: Ctrl+Shift+Z right after a commit changes nothing.
pub proof fn lemma_commit_leaves_nothing_to_redo<T>(m: EditorModel<T>, stroke: T, now: u64)
    requires
        m.input.is_ctrl_pressed,
        m.input.is_shift_pressed,
    ensures
        commit_step(m, stroke).strokes == m.strokes.push(stroke),
        commit_step(m, stroke).undo_stack.len() == 0,
        key_step(commit_step(m, stroke), Key::KeyZ, true, now) == (commit_step(m, stroke), KeyOutcome::Nothing),
        key_step(commit_step(m, stroke), Key::KeyZ, true, now).0.strokes == m.strokes.push(stroke),
{
}

} // verus!
