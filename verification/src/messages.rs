//! Outbound notifications: the structured payloads the bridge submits
//! on the fire-and-forget method-invocation channel to the UI engine.
//! Building them is pure; the transport lives outside the library.

use vstd::prelude::*;

verus! {

/// Window geometry. Policy pins the origin of every outgoing geometry
/// to (0, 0): windows may resize but may not place themselves.
#[derive(Clone, Copy, PartialEq, Eq, Debug)]
pub struct Geometry {
    pub x: i32,
    pub y: i32,
    pub w: i32,
    pub h: i32,
}

/// One outbound notification, named after the method it is submitted
/// under. No reply is ever consumed.
#[derive(Clone, PartialEq, Debug)]
pub enum Notification {
    /// A window became known; carries its freshly assigned opaque id.
    NewX11Surface { x11_surface_id: u64 },
    /// A window was mapped, with everything the UI engine needs to
    /// place it: its opaque id, the opaque id of the native surface
    /// backing it, the override-redirect flag, its geometry, the
    /// resolved parent, and its descriptive strings.
    MapX11Surface {
        x11_surface_id: u64,
        surface_id: u64,
        override_redirect: bool,
        geometry: Geometry,
        parent: Option<u64>,
        title: Option<String>,
        window_class: Option<String>,
        instance: Option<String>,
        startup_id: Option<String>,
    },
    /// A window was unmapped; it stays known in case it is remapped.
    UnmapX11Surface { x11_surface_id: u64 },
    /// A window was destroyed; its id is never used again.
    DestroyX11Surface { x11_surface_id: u64 },
}

} // verus!
