use vstd::prelude::*;

use crate::x11::errors::DisplayError;
use crate::x11::window::Window;

verus! {

/// One open session with the windowing service.
///
/// The native layer identifies the session by the address of an opaque
/// connection record; this model keeps that address as a plain number. A
/// live connection's address is never zero: the native open call signals
/// failure by returning the null address, and `new` refuses it. Opening and
/// closing the native connection, and releasing it exactly once, belong to
/// the unverified edge that owns the actual pointer.
#[derive(Clone, Copy, PartialEq, Eq, Structural, Debug)]
pub struct Display {
    /// The address of the native connection record, as a plain number.
    pub display: u64,
}

impl Display {
    /// A live connection never has the null address.
    pub open spec fn wf(self) -> bool {
        self.display != 0
    }

    /// Adopts the address the native connection factory returned. The
    /// factory signals failure by returning the null address; that exact
    /// case, and no other, is surfaced as `CouldNotCreate`.
    pub fn new(display: u64) -> (r: Result<Display, DisplayError>)
        ensures
            display == 0 <==> (r matches Err(e) && e == DisplayError::CouldNotCreate),
            display != 0 <==> (r matches Ok(d) && d.display == display && d.wf()),
    {
        if display == 0 {
            Err(DisplayError::CouldNotCreate)
        } else {
            Ok(Display { display })
        }
    }

    /// Pairs the root window's identifier, as the native layer reported it,
    /// with this connection. Every connection has exactly one root window,
    /// so this never fails.
    pub fn get_root_window(&self, root_id: u64) -> (w: Window)
        ensures
            w.id == root_id,
            w.display == self.display,
    {
        Window { id: root_id, display: self.display }
    }
}

} // verus!
