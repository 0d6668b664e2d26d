use vstd::prelude::*;

verus! {

/// Failure to establish a session with the windowing service: the native
/// connection factory returned an invalid handle, an expected and
/// recoverable condition (for instance, no display server is reachable).
#[derive(Clone, Copy, PartialEq, Eq, Structural, Debug)]
pub enum DisplayError {
    CouldNotCreate,
}

impl DisplayError {
    /// A human-readable description of the failure.
    pub fn message(&self) -> (m: &'static str)
        ensures
            m@ == "could not create display"@,
    {
        "could not create display"
    }
}

/// Failure of a bounds-checked pixel read: the requested coordinates lie
/// outside the captured grid, and the request was refused before reaching
/// the native layer (which performs no check of its own).
#[derive(Clone, Copy, PartialEq, Eq, Structural, Debug)]
pub enum ImageError {
    OutOfBounds,
}

} // verus!
