//! Keyboard state for moving the cubes.
use vstd::prelude::*;

verus! {

/// A physical key, as far as movement cares about it.
#[derive(Clone, Copy, Debug, PartialEq, Eq, Structural)]
pub enum KeyCode {
    KeyW,
    KeyA,
    KeyS,
    KeyD,
    ArrowUp,
    ArrowLeft,
    ArrowDown,
    ArrowRight,
    /// Any other key, or a key the platform could not identify.
    Other,
}

/// One of the four movement directions.
#[derive(Clone, Copy, Debug, PartialEq, Eq, Structural)]
pub enum Direction {
    Up,
    Down,
    Left,
    Right,
}

/// The direction a physical key steers: WASD and the arrow keys.
pub open spec fn key_direction(k: KeyCode) -> Option<Direction> {
    match k {
        KeyCode::KeyW | KeyCode::ArrowUp => Some(Direction::Up),
        KeyCode::KeyA | KeyCode::ArrowLeft => Some(Direction::Left),
        KeyCode::KeyS | KeyCode::ArrowDown => Some(Direction::Down),
        KeyCode::KeyD | KeyCode::ArrowRight => Some(Direction::Right),
        KeyCode::Other => None,
    }
}

/// Which of the four movement directions are held down.
#[derive(Clone, Copy, Debug, PartialEq, Eq, Structural)]
pub struct Controller {
    pub is_up_pressed: bool,
    pub is_down_pressed: bool,
    pub is_left_pressed: bool,
    pub is_right_pressed: bool,
}

/// Spec value of a `bool` as 0 or 1.
pub open spec fn flag(b: bool) -> int {
    if b {
        1
    } else {
        0
    }
}

impl Controller {
    /// Whether direction `d` is held.
    pub open spec fn pressed(&self, d: Direction) -> bool {
        match d {
            Direction::Up => self.is_up_pressed,
            Direction::Down => self.is_down_pressed,
            Direction::Left => self.is_left_pressed,
            Direction::Right => self.is_right_pressed,
        }
    }

    /// The controller with direction `d` set to `down`, the others kept.
    pub open spec fn with_pressed(self, d: Direction, down: bool) -> Controller {
        match d {
            Direction::Up => Controller { is_up_pressed: down, ..self },
            Direction::Down => Controller { is_down_pressed: down, ..self },
            Direction::Left => Controller { is_left_pressed: down, ..self },
            Direction::Right => Controller { is_right_pressed: down, ..self },
        }
    }

    /// The state after a key with physical code `key` went down (`down`) or up.
    pub open spec fn after_key(self, key: KeyCode, down: bool) -> Controller {
        match key_direction(key) {
            Some(d) => self.with_pressed(d, down),
            None => self,
        }
    }

    /// A controller with no key held.
    pub fn new() -> (c: Controller)
        ensures
            !c.is_up_pressed,
            !c.is_down_pressed,
            !c.is_left_pressed,
            !c.is_right_pressed,
    {
        Controller {
            is_up_pressed: false,
            is_down_pressed: false,
            is_left_pressed: false,
            is_right_pressed: false,
        }
    }

    /// Records that the key with physical code `key` went down (`down`) or
    /// up. Returns whether the key is a movement key, that is whether the
    /// controller took the event.
    pub fn process_key(&mut self, key: KeyCode, down: bool) -> (taken: bool)
        ensures
            taken == key_direction(key).is_some(),
            *final(self) == old(self).after_key(key, down),
    {
        match key {
            KeyCode::KeyW | KeyCode::ArrowUp => {
                self.is_up_pressed = down;
                true
            },
            KeyCode::KeyA | KeyCode::ArrowLeft => {
                self.is_left_pressed = down;
                true
            },
            KeyCode::KeyS | KeyCode::ArrowDown => {
                self.is_down_pressed = down;
                true
            },
            KeyCode::KeyD | KeyCode::ArrowRight => {
                self.is_right_pressed = down;
                true
            },
            KeyCode::Other => false,
        }
    }

    /// The unnormalised step for one frame on the ground plane: `x` grows to
    /// the right, `z` grows forward (up). Opposite keys cancel.
    pub fn move_direction(&self) -> (r: (i8, i8))
        ensures
            r.0 == flag(self.is_right_pressed) - flag(self.is_left_pressed),
            r.1 == flag(self.is_up_pressed) - flag(self.is_down_pressed),
    {
        let mut x: i8 = 0;
        let mut z: i8 = 0;
        if self.is_up_pressed {
            z = z + 1;
        }
        if self.is_down_pressed {
            z = z - 1;
        }
        if self.is_left_pressed {
            x = x - 1;
        }
        if self.is_right_pressed {
            x = x + 1;
        }
        (x, z)
    }
}

impl Default for Controller {
    /// A controller with no key held.
    fn default() -> (c: Controller)
        ensures
            !c.is_up_pressed,
            !c.is_down_pressed,
            !c.is_left_pressed,
            !c.is_right_pressed,
    {
        Controller::new()
    }
}

} // verus!
