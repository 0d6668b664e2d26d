//! The windowing-protocol layer: handle models, the event decoder, and
//! bounds-checked image access.

pub mod common;
pub mod display;
pub mod errors;
pub mod events;
pub mod image;
pub mod window;
