use vstd::prelude::*;

verus! {

/// A pointer button, restricted to the three buttons the protocol numbers
/// 1, 2 and 3; any other button code is outside the native contract.
#[derive(Clone, Copy, PartialEq, Eq, Structural, Debug)]
pub enum MouseButton {
    Left,
    Middle,
    Right,
}

impl MouseButton {
    /// The protocol's numeric code for this button.
    pub open spec fn spec_code(self) -> u32 {
        match self {
            MouseButton::Left => 1,
            MouseButton::Middle => 2,
            MouseButton::Right => 3,
        }
    }

    /// The numeric button code handed to the native grab calls.
    pub fn as_c_uint(&self) -> (code: u32)
        ensures
            code == self.spec_code(),
            1 <= code <= 3,
    {
        match self {
            MouseButton::Left => 1,
            MouseButton::Middle => 2,
            MouseButton::Right => 3,
        }
    }
}

/// A plain two-component vector, used for positions and sizes.
#[derive(Clone, Copy, PartialEq, Eq, Structural, Debug)]
pub struct Vector2<T> {
    pub x: T,
    pub y: T,
}

impl<T> Vector2<T> {
    pub fn new(x: T, y: T) -> (v: Self)
        ensures
            v.x == x,
            v.y == y,
    {
        Self { x, y }
    }
}

} // verus!
