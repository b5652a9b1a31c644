//! Keyboard focus targets. The compositor can focus either a native
//! surface or a legacy window; the bridge only ever needs two
//! projections of the focused target: the native surface handle it
//! presents, and, when it is a legacy window, the compatibility-server
//! instance that owns it.

use vstd::prelude::*;

verus! {

/// The surface currently holding keyboard focus, as a tagged variant so
/// that every consumer handles both kinds exhaustively.
#[derive(Clone, Copy, PartialEq, Eq, Debug)]
pub enum FocusTarget {
    /// A native compositor surface, with its surface handle.
    Native { handle: u64 },
    /// A legacy window: the id of the compatibility-server instance it
    /// belongs to, and its native surface handle while it has one.
    Legacy { xwm_id: u32, handle: Option<u64> },
}

impl FocusTarget {
    /// The native surface handle this focus target presents, if any.
    pub open spec fn spec_wl_handle(self) -> Option<u64> {
        match self {
            FocusTarget::Native { handle } => Some(handle),
            FocusTarget::Legacy { handle, .. } => handle,
        }
    }

    pub fn wl_handle(&self) -> (r: Option<u64>)
        ensures
            r == self.spec_wl_handle(),
    {
        match *self {
            FocusTarget::Native { handle } => Some(handle),
            FocusTarget::Legacy { handle, .. } => handle,
        }
    }

    /// Projection "as a legacy window": the owning compatibility-server
    /// instance when this target is a legacy window, nothing otherwise.
    pub open spec fn spec_as_legacy(self) -> Option<u32> {
        match self {
            FocusTarget::Legacy { xwm_id, .. } => Some(xwm_id),
            FocusTarget::Native { .. } => None,
        }
    }

    pub fn as_legacy(&self) -> (r: Option<u32>)
        ensures
            r == self.spec_as_legacy(),
    {
        match *self {
            FocusTarget::Legacy { xwm_id, .. } => Some(xwm_id),
            FocusTarget::Native { .. } => None,
        }
    }
}

} // verus!
