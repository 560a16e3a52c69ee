use vstd::prelude::*;

use crate::input::Key;

verus! {

/// A direction of camera movement.
#[derive(Clone, Copy, Debug, PartialEq, Eq, Structural)]
pub enum Direction {
    Forward,
    Backward,
    Left,
    Right,
}

/// The movement direction a key drives: WASD and the arrow keys.
pub open spec fn direction_of(key: Key) -> Option<Direction> {
    match key {
        Key::KeyW | Key::ArrowUp => Some(Direction::Forward),
        Key::KeyA | Key::ArrowLeft => Some(Direction::Left),
        Key::KeyS | Key::ArrowDown => Some(Direction::Backward),
        Key::KeyD | Key::ArrowRight => Some(Direction::Right),
        _ => None,
    }
}

/// Which movement keys are held.
#[derive(Clone, Copy, Debug, PartialEq, Eq, Structural)]
pub struct CameraController {
    pub is_forward_pressed: bool,
    pub is_backward_pressed: bool,
    pub is_left_pressed: bool,
    pub is_right_pressed: bool,
}

/// `c` with the flag of direction `d` set to `pressed`.
pub open spec fn with_direction(c: CameraController, d: Direction, pressed: bool) -> CameraController {
    match d {
        Direction::Forward => CameraController { is_forward_pressed: pressed, ..c },
        Direction::Backward => CameraController { is_backward_pressed: pressed, ..c },
        Direction::Left => CameraController { is_left_pressed: pressed, ..c },
        Direction::Right => CameraController { is_right_pressed: pressed, ..c },
    }
}

/// The controller after a key event: a movement key sets its flag, any other
/// key leaves the controller as it was.
pub open spec fn controller_after_key(c: CameraController, key: Key, pressed: bool) -> CameraController {
    match direction_of(key) {
        Some(d) => with_direction(c, d, pressed),
        None => c,
    }
}

/// The signed amount of movement along the camera's up vector (`.0`) and
/// along its side vector (`.1`): each is one held key minus the opposite one.
pub open spec fn axes_of(c: CameraController) -> (int, int) {
    (
        (if c.is_forward_pressed { 1int } else { 0int }) - (if c.is_backward_pressed { 1int } else { 0int }),
        (if c.is_right_pressed { 1int } else { 0int }) - (if c.is_left_pressed { 1int } else { 0int }),
    )
}

/// No movement key held.
pub open spec fn idle_controller() -> CameraController {
    CameraController {
        is_forward_pressed: false,
        is_backward_pressed: false,
        is_left_pressed: false,
        is_right_pressed: false,
    }
}

impl CameraController {
    /// No movement key held.
    pub fn new() -> (c: Self)
        ensures
            c == idle_controller(),
    {
        CameraController {
            is_forward_pressed: false,
            is_backward_pressed: false,
            is_left_pressed: false,
            is_right_pressed: false,
        }
    }

    /// Records a key press or release. Returns whether the key is a
    /// movement key; only that key's direction changes.
    pub fn handle_key(&mut self, code: Key, is_pressed: bool) -> (handled: bool)
        ensures
            handled == direction_of(code) is Some,
            *final(self) == controller_after_key(*old(self), code, is_pressed),
    {
        match code {
            Key::KeyW | Key::ArrowUp => {
                self.is_forward_pressed = is_pressed;
                true
            },
            Key::KeyA | Key::ArrowLeft => {
                self.is_left_pressed = is_pressed;
                true
            },
            Key::KeyS | Key::ArrowDown => {
                self.is_backward_pressed = is_pressed;
                true
            },
            Key::KeyD | Key::ArrowRight => {
                self.is_right_pressed = is_pressed;
                true
            },
            _ => false,
        }
    }

    /// The direction of movement in camera axes, each component in -1..=1:
    /// forward minus backward along the up vector, right minus left along
    /// the side vector.
    pub fn movement_axes(&self) -> (axes: (i8, i8))
        ensures
            axes.0 as int == axes_of(*self).0,
            axes.1 as int == axes_of(*self).1,
    {
        let mut up: i8 = 0;
        let mut side: i8 = 0;
        if self.is_forward_pressed {
            up = up + 1;
        }
        if self.is_backward_pressed {
            up = up - 1;
        }
        if self.is_left_pressed {
            side = side - 1;
        }
        if self.is_right_pressed {
            side = side + 1;
        }
        (up, side)
    }
}

/// Each movement key sets the flag of its own direction and no other: W
/// and Up drive forward, S and Down backward, A and Left left, D and Right
/// right; every other key changes nothing.
pub proof fn lemma_keys_set_their_own_flag(c: CameraController, key: Key, pressed: bool)
    ensures
        controller_after_key(c, key, pressed).is_forward_pressed == (if key == Key::KeyW || key
            == Key::ArrowUp {
            pressed
        } else {
            c.is_forward_pressed
        }),
        controller_after_key(c, key, pressed).is_backward_pressed == (if key == Key::KeyS || key
            == Key::ArrowDown {
            pressed
        } else {
            c.is_backward_pressed
        }),
        controller_after_key(c, key, pressed).is_left_pressed == (if key == Key::KeyA || key
            == Key::ArrowLeft {
            pressed
        } else {
            c.is_left_pressed
        }),
        controller_after_key(c, key, pressed).is_right_pressed == (if key == Key::KeyD || key
            == Key::ArrowRight {
            pressed
        } else {
            c.is_right_pressed
        }),
        (direction_of(key) is Some) <==> (key == Key::KeyW || key == Key::ArrowUp || key == Key::KeyS
            || key == Key::ArrowDown || key == Key::KeyA || key == Key::ArrowLeft || key == Key::KeyD
            || key == Key::ArrowRight),
{
}

/// Pressing a movement key moves the camera that way: a left key lowers
/// the side axis by one unless left was already held, a right key raises
/// it; a forward key raises the up axis, a backward key lowers it; the
/// other axis stays.
pub proof fn lemma_pressing_moves_that_way(c: CameraController, key: Key)
    ensures
        (key == Key::KeyA || key == Key::ArrowLeft) ==> axes_of(controller_after_key(c, key, true))
            == (axes_of(c).0, axes_of(c).1 - (if c.is_left_pressed { 0int } else { 1int })),
        (key == Key::KeyD || key == Key::ArrowRight) ==> axes_of(controller_after_key(c, key, true))
            == (axes_of(c).0, axes_of(c).1 + (if c.is_right_pressed { 0int } else { 1int })),
        (key == Key::KeyW || key == Key::ArrowUp) ==> axes_of(controller_after_key(c, key, true))
            == (axes_of(c).0 + (if c.is_forward_pressed { 0int } else { 1int }), axes_of(c).1),
        (key == Key::KeyS || key == Key::ArrowDown) ==> axes_of(controller_after_key(c, key, true))
            == (axes_of(c).0 - (if c.is_backward_pressed { 0int } else { 1int }), axes_of(c).1),
{
}

} // verus!
