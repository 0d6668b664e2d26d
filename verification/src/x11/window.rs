use vstd::prelude::*;

use crate::x11::common::Vector2;

verus! {

/// A keyboard qualifier that can accompany a key or button grab.
#[derive(Clone, Copy, PartialEq, Eq, Structural, Debug)]
pub enum Modifier {
    Shift,
    Lock,
    Control,
    Alt,
    Num,
    Super,
    ScrollLock,
}

/// A snapshot of a window's geometry at query time: position of its upper
/// left corner and its size, both in pixels. The snapshot is a plain value
/// and goes stale as soon as the window moves or resizes.
#[derive(Clone, Copy, PartialEq, Eq, Structural, Debug)]
pub struct WindowData {
    pub position: Vector2<i32>,
    pub scale: Vector2<i32>,
}

impl WindowData {
    /// Packs the four geometry fields of a native attribute record into a
    /// snapshot.
    pub fn from_attributes(x: i32, y: i32, width: i32, height: i32) -> (d: WindowData)
        ensures
            d.position.x == x,
            d.position.y == y,
            d.scale.x == width,
            d.scale.y == height,
    {
        WindowData { position: Vector2 { x, y }, scale: Vector2 { x: width, y: height } }
    }
}

/// A reference to a native window: the protocol-assigned identifier, paired
/// with the connection that resolved it. The pair is a plain value that can
/// be copied freely; it owns nothing, and it is only meaningful while its
/// connection is open (a caller contract, not checked here).
#[derive(Clone, Copy, PartialEq, Eq, Structural, Debug)]
pub struct Window {
    /// The protocol-assigned window identifier.
    pub id: u64,
    /// The address of the connection this identifier is scoped to, as kept
    /// by [`crate::x11::display::Display`].
    pub display: u64,
}

} // verus!
