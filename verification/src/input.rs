use vstd::prelude::*;

verus! {

/// The keys the canvas reacts to. Every other key is `Other`.
#[derive(Clone, Copy, Debug, PartialEq, Eq, Structural)]
pub enum Key {
    Escape,
    Space,
    ControlLeft,
    ControlRight,
    ShiftLeft,
    ShiftRight,
    KeyZ,
    KeyW,
    KeyA,
    KeyS,
    KeyD,
    ArrowUp,
    ArrowDown,
    ArrowLeft,
    ArrowRight,
    Other,
}

/// Two presses of the space bar closer than this many nanoseconds (300
/// milliseconds) form a double press.
pub const DOUBLE_PRESS_WINDOW_NS: u64 = 300_000_000;

/// Modifier and button state of the pointer and keyboard.
///
/// Times are nanoseconds on a monotonic clock chosen by the caller.
#[derive(Clone, Copy, Debug, PartialEq, Eq, Structural)]
pub struct InputState {
    pub is_space_pressed: bool,
    pub is_ctrl_pressed: bool,
    pub is_shift_pressed: bool,
    pub is_dragging: bool,
    pub last_space_press_time: Option<u64>,
}

/// Nanoseconds from `earlier` to `now`; zero when the clock reads an
/// earlier time than `earlier`, as a monotonic clock's elapsed time does.
pub open spec fn elapsed_ns(earlier: u64, now: u64) -> int {
    if now >= earlier {
        now - earlier
    } else {
        0
    }
}

/// Whether a press at `now` follows the previous one closely enough to form
/// a double press.
pub open spec fn is_double_press(last: Option<u64>, now: u64) -> bool {
    match last {
        Some(t) => elapsed_ns(t, now) < DOUBLE_PRESS_WINDOW_NS,
        None => false,
    }
}

/// What a cursor movement does.
#[derive(Clone, Copy, Debug, PartialEq, Eq, Structural)]
pub enum CursorAction {
    /// Move the camera by the cursor's displacement.
    Pan,
    /// Extend the stroke being drawn.
    Draw,
    /// Only remember the position.
    Hover,
}

pub open spec fn cursor_action_of(s: InputState) -> CursorAction {
    if s.is_dragging && s.is_space_pressed {
        CursorAction::Pan
    } else if s.is_dragging {
        CursorAction::Draw
    } else {
        CursorAction::Hover
    }
}

/// No key held, no drag, no earlier space press.
pub open spec fn initial_input() -> InputState {
    InputState {
        is_space_pressed: false,
        is_ctrl_pressed: false,
        is_shift_pressed: false,
        is_dragging: false,
        last_space_press_time: None,
    }
}

impl InputState {
    /// No key held, no drag, no earlier space press.
    pub fn new() -> (s: Self)
        ensures
            s == initial_input(),
    {
        InputState {
            is_space_pressed: false,
            is_ctrl_pressed: false,
            is_shift_pressed: false,
            is_dragging: false,
            last_space_press_time: None,
        }
    }

    /// Whether a space press at `now_ns` completes a double press.
    pub fn is_double_press_at(&self, now_ns: u64) -> (b: bool)
        ensures
            b == is_double_press(self.last_space_press_time, now_ns),
    {
        match self.last_space_press_time {
            Some(t) => {
                let elapsed: u64 = if now_ns >= t {
                    now_ns - t
                } else {
                    0
                };
                elapsed < DOUBLE_PRESS_WINDOW_NS
            },
            None => false,
        }
    }

    /// What a cursor movement does in this state: pan while dragging with
    /// space held, draw while dragging otherwise, and nothing else when no
    /// button is held.
    pub fn cursor_action(&self) -> (a: CursorAction)
        ensures
            a == cursor_action_of(*self),
    {
        if self.is_dragging && self.is_space_pressed {
            CursorAction::Pan
        } else if self.is_dragging {
            CursorAction::Draw
        } else {
            CursorAction::Hover
        }
    }
}

} // verus!
