//! A safety-oriented layer over an X11-style windowing protocol: typed event
//! decoding, bounds-checked pixel access, and plain-value models of the
//! native resource handles (connection, window, captured image).
//!
//! The native calls themselves are untyped, manually managed C bindings; this
//! crate holds the logic that interprets what they produce and decides what is
//! handed to them, stated and proved over plain values.

pub mod color;
pub mod x11;
