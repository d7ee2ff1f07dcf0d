use vstd::prelude::*;

verus! {

/// The keys that steer the camera; every other key is `Other`.
#[derive(Clone, Copy, Debug, PartialEq, Eq, Structural)]
pub enum Key {
    Up,
    Down,
    Left,
    Right,
    J,
    K,
    R,
    E,
    Other,
}

/// A direction in which a held key accelerates the camera, relative to its heading.
#[derive(Clone, Copy, Debug, PartialEq, Eq, Structural)]
pub enum Push {
    Forward,
    Backward,
    /// A quarter turn anticlockwise from the heading.
    Rightward,
    /// A quarter turn clockwise from the heading.
    Leftward,
    Upward,
    Downward,
}

/// A step of rotation of the camera around the vertical axis.
#[derive(Clone, Copy, Debug, PartialEq, Eq, Structural)]
pub enum Turn {
    /// A positive step.
    Anticlockwise,
    /// A negative step.
    Clockwise,
}

/// The acceleration that a held key asks for: the arrows move in the ground plane,
/// `J` and `K` up and down.
pub fn push_for_held_key(key: Key) -> (r: Option<Push>)
    ensures
        r == match key {
            Key::Up => Some(Push::Forward),
            Key::Down => Some(Push::Backward),
            Key::Right => Some(Push::Rightward),
            Key::Left => Some(Push::Leftward),
            Key::J => Some(Push::Upward),
            Key::K => Some(Push::Downward),
            _ => None,
        },
{
    match key {
        Key::Up => Some(Push::Forward),
        Key::Down => Some(Push::Backward),
        Key::Right => Some(Push::Rightward),
        Key::Left => Some(Push::Leftward),
        Key::J => Some(Push::Upward),
        Key::K => Some(Push::Downward),
        _ => None,
    }
}

/// The rotation that a pressed key asks for: `R` one way, `E` the other.
pub fn turn_for_pressed_key(key: Key) -> (r: Option<Turn>)
    ensures
        r == match key {
            Key::R => Some(Turn::Anticlockwise),
            Key::E => Some(Turn::Clockwise),
            _ => None,
        },
{
    match key {
        Key::R => Some(Turn::Anticlockwise),
        Key::E => Some(Turn::Clockwise),
        _ => None,
    }
}

} // verus!
