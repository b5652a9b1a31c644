//! Parent resolution, computed at map time. An override-redirect window
//! falls back on the focused surface when its declared transient-for
//! target is unknown; a regular window has a parent only through a
//! known transient-for declaration.

use crate::focus::FocusTarget;
use crate::registry::Registry;
use vstd::prelude::*;

verus! {

/// The opaque id of the registered window the focused surface leads
/// back to, if the focus target presents a native handle that is bound
/// in the registry.
pub open spec fn spec_focus_parent(r: Registry, focus: Option<FocusTarget>) -> Option<u64> {
    match focus {
        Some(f) => match f.spec_wl_handle() {
            Some(h) => if r.natives@.contains_key(h) && r.entries@.contains_key(r.natives@[h]) {
                Some(r.entries@[r.natives@[h]].surface_id)
            } else {
                None
            },
            None => None,
        },
        None => None,
    }
}

/// The parent policy. A declared transient-for target known to the
/// registry wins for every window. Otherwise an override-redirect
/// window belongs to the focused surface's window, if the registry
/// knows it; a regular window without a known declared owner is
/// top-level and has no parent.
pub open spec fn spec_parent(
    r: Registry,
    override_redirect: bool,
    transient_for: Option<u32>,
    focus: Option<FocusTarget>,
) -> Option<u64> {
    if transient_for matches Some(t) && r.entries@.contains_key(t) {
        Some(r.entries@[transient_for->0].surface_id)
    } else if override_redirect {
        spec_focus_parent(r, focus)
    } else {
        None
    }
}

pub fn resolve_parent(
    r: &Registry,
    override_redirect: bool,
    transient_for: Option<u32>,
    focus: &Option<FocusTarget>,
) -> (p: Option<u64>)
    requires
        r.wf(),
    ensures
        p == spec_parent(*r, override_redirect, transient_for, *focus),
{
    let declared = match transient_for {
        Some(t) => match r.lookup_by_legacy(t) {
            Some(e) => Some(e.surface_id),
            None => None,
        },
        None => None,
    };
    match declared {
        Some(id) => Some(id),
        None => {
            if override_redirect {
                match focus {
                    Some(f) => match f.wl_handle() {
                        Some(h) => match r.lookup_by_native(h) {
                            Some((_owner, e)) => Some(e.surface_id),
                            None => None,
                        },
                        None => None,
                    },
                    None => None,
                }
            } else {
                None
            }
        },
    }
}

} // verus!
