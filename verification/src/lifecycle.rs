//! The window lifecycle state machine. Each handler consumes one
//! event from the compatibility layer as plain values, drives the
//! registry, and returns the notification to submit to the UI engine
//! together with any protocol action to perform on the legacy window.
//! Events that reference an unknown window are benign races and are
//! silently ignored.

use crate::focus::FocusTarget;
use crate::messages::{Geometry, Notification};
use crate::parent::{resolve_parent, spec_parent};
use crate::registry::{evict_post, register_post, spec_register_id, Entry, Phase, Registry};
use crate::selection::SelectionSlot;
use vstd::prelude::*;

verus! {

/// Everything a map event carries: which window, the handle and opaque
/// id of the native surface now backing it, its geometry, its declared
/// transient-for owner, its descriptive strings, and the surface
/// holding keyboard focus at that moment.
pub struct MapEvent {
    pub legacy_id: u32,
    pub native_handle: Option<u64>,
    pub native_surface_id: u64,
    pub geometry: Geometry,
    pub transient_for: Option<u32>,
    pub title: Option<String>,
    pub window_class: Option<String>,
    pub instance: Option<String>,
    pub startup_id: Option<String>,
    pub focus: Option<FocusTarget>,
}

/// An action the bridge asks the compatibility layer to perform on a
/// legacy window, answered synchronously by the event loop.
#[derive(Clone, Copy, PartialEq, Eq, Debug)]
pub enum ProtocolAction {
    ConfigureWindow { geometry: Geometry },
    SetMapped { mapped: bool },
    SetActivated { activated: bool },
}

/// The bridge's whole state: the surface registry and the two
/// native-side selection slots. All of it is owned by the
/// single-threaded event loop.
pub struct ServerState {
    pub registry: Registry,
    pub clipboard: SelectionSlot,
    pub primary: SelectionSlot,
}

impl ServerState {
    pub open spec fn wf(self) -> bool {
        self.registry.wf()
    }

    /// The selection slots are untouched by a lifecycle event.
    pub open spec fn slots_unchanged(self, other: ServerState) -> bool {
        &&& self.clipboard == other.clipboard
        &&& self.primary == other.primary
    }

    pub fn new() -> (s: ServerState)
        ensures
            s.wf(),
            s.registry.cursor == 1,
            s.registry.entries@ == Map::<u32, Entry>::empty(),
            s.registry.natives@ == Map::<u64, u32>::empty(),
            s.clipboard.offers@ == Seq::<String>::empty(),
            s.primary.offers@ == Seq::<String>::empty(),
            s.clipboard.owner is NoOwner,
            s.primary.owner is NoOwner,
    {
        ServerState {
            registry: Registry::new(),
            clipboard: SelectionSlot::empty(),
            primary: SelectionSlot::empty(),
        }
    }

    /// Register a window and build the notification that announces it.
    /// Announcing a window twice reuses its recorded id and changes
    /// nothing.
    pub fn new_x11_surface(&mut self, legacy_id: u32, override_redirect: bool) -> (n: Notification)
        requires
            old(self).wf(),
            old(self).registry.cursor < u64::MAX,
        ensures
            final(self).wf(),
            n == (Notification::NewX11Surface {
                x11_surface_id: spec_register_id(old(self).registry, legacy_id),
            }),
            register_post(old(self).registry, final(self).registry, legacy_id, override_redirect),
            old(self).slots_unchanged(*final(self)),
    {
        let id = self.registry.register(legacy_id, override_redirect);
        Notification::NewX11Surface { x11_surface_id: id }
    }

    /// A new regular window: its requested origin is overridden to
    /// (0, 0) in the configuration handed back to the legacy layer, and
    /// the window is registered and announced.
    pub fn new_window(&mut self, legacy_id: u32, geometry: Geometry) -> (r: (
        Geometry,
        Notification,
    ))
        requires
            old(self).wf(),
            old(self).registry.cursor < u64::MAX,
        ensures
            final(self).wf(),
            r.0 == (Geometry { x: 0, y: 0, w: geometry.w, h: geometry.h }),
            r.1 == (Notification::NewX11Surface {
                x11_surface_id: spec_register_id(old(self).registry, legacy_id),
            }),
            register_post(old(self).registry, final(self).registry, legacy_id, false),
            old(self).slots_unchanged(*final(self)),
    {
        let g = Geometry { x: 0, y: 0, w: geometry.w, h: geometry.h };
        let n = self.new_x11_surface(legacy_id, false);
        (g, n)
    }

    /// A new override-redirect window: registered and announced; it
    /// places itself, so no configuration is forced on it.
    pub fn new_override_redirect_window(&mut self, legacy_id: u32) -> (n: Notification)
        requires
            old(self).wf(),
            old(self).registry.cursor < u64::MAX,
        ensures
            final(self).wf(),
            n == (Notification::NewX11Surface {
                x11_surface_id: spec_register_id(old(self).registry, legacy_id),
            }),
            register_post(old(self).registry, final(self).registry, legacy_id, true),
            old(self).slots_unchanged(*final(self)),
    {
        self.new_x11_surface(legacy_id, true)
    }

    /// A map request from a regular window is always granted: the
    /// window is marked mapped and activated at the protocol level.
    pub fn map_window_request(&mut self) -> (acts: Vec<ProtocolAction>)
        ensures
            *final(self) == *old(self),
            acts@ == seq![
                (ProtocolAction::SetMapped { mapped: true }),
                (ProtocolAction::SetActivated { activated: true }),
            ],
    {
        let mut acts: Vec<ProtocolAction> = Vec::new();
        acts.push(ProtocolAction::SetMapped { mapped: true });
        acts.push(ProtocolAction::SetActivated { activated: true });
        proof {
            assert(acts@ =~= seq![
                (ProtocolAction::SetMapped { mapped: true }),
                (ProtocolAction::SetActivated { activated: true }),
            ]);
        }
        acts
    }

    /// The shared mapping step: transition the window to `Mapped`, bind
    /// the native surface handle if the window holds none yet and the
    /// handle is free, resolve the parent, and build the map
    /// notification with its origin pinned to (0, 0). Events for
    /// unknown windows, or without a native surface, are ignored.
    pub fn map_x11_surface(&mut self, ev: MapEvent) -> (r: Option<Notification>)
        requires
            old(self).wf(),
        ensures
            final(self).wf(),
            map_post(old(self).registry, final(self).registry, ev),
            old(self).slots_unchanged(*final(self)),
            r == spec_map_notification(old(self).registry, final(self).registry, ev),
    {
        let handle = match ev.native_handle {
            Some(h) => h,
            None => {
                return None;
            },
        };
        let e = match self.registry.lookup_by_legacy(ev.legacy_id) {
            Some(e) => e,
            None => {
                return None;
            },
        };
        if e.native.is_none() && self.registry.lookup_by_native(handle).is_none() {
            self.registry.bind_native(ev.legacy_id, handle);
        }
        self.registry.set_phase(ev.legacy_id, Phase::Mapped);
        proof {
            let pre = old(self).registry;
            let l = ev.legacy_id;
            if map_should_bind(pre, l, handle) {
                assert(self.registry.entries@ =~= pre.entries@.insert(
                    l,
                    (Entry { phase: Phase::Mapped, native: Some(handle), ..pre.entries@[l] }),
                ));
            } else {
                assert(self.registry.entries@ =~= pre.entries@.insert(
                    l,
                    (Entry { phase: Phase::Mapped, ..pre.entries@[l] }),
                ));
            }
        }
        let parent = resolve_parent(&self.registry, e.override_redirect, ev.transient_for, &ev.focus);
        Some(
            Notification::MapX11Surface {
                x11_surface_id: e.surface_id,
                surface_id: ev.native_surface_id,
                override_redirect: e.override_redirect,
                geometry: Geometry { x: 0, y: 0, w: ev.geometry.w, h: ev.geometry.h },
                parent,
                title: ev.title,
                window_class: ev.window_class,
                instance: ev.instance,
                startup_id: ev.startup_id,
            },
        )
    }

    /// Map notify for a regular window: the shared mapping step, plus a
    /// request to activate the window when the map was acted on.
    pub fn map_window_notify(&mut self, ev: MapEvent) -> (r: (
        Option<Notification>,
        Vec<ProtocolAction>,
    ))
        requires
            old(self).wf(),
        ensures
            final(self).wf(),
            map_post(old(self).registry, final(self).registry, ev),
            old(self).slots_unchanged(*final(self)),
            r.0 == spec_map_notification(old(self).registry, final(self).registry, ev),
            r.1@ == (if map_emits(old(self).registry, ev) && !old(
                self,
            ).registry.entries@[ev.legacy_id].override_redirect {
                seq![(ProtocolAction::SetActivated { activated: true })]
            } else {
                Seq::<ProtocolAction>::empty()
            }),
    {
        let orr = match self.registry.lookup_by_legacy(ev.legacy_id) {
            Some(e) => Some(e.override_redirect),
            None => None,
        };
        let n = self.map_x11_surface(ev);
        let mut acts: Vec<ProtocolAction> = Vec::new();
        if n.is_some() {
            match orr {
                Some(false) => {
                    acts.push(ProtocolAction::SetActivated { activated: true });
                    proof {
                        assert(acts@ =~= seq![(ProtocolAction::SetActivated { activated: true })]);
                    }
                },
                _ => {},
            }
        }
        (n, acts)
    }

    /// Map of an override-redirect window: the shared mapping step.
    /// Activation stays with the window's own client.
    pub fn mapped_override_redirect_window(&mut self, ev: MapEvent) -> (r: Option<Notification>)
        requires
            old(self).wf(),
        ensures
            final(self).wf(),
            map_post(old(self).registry, final(self).registry, ev),
            old(self).slots_unchanged(*final(self)),
            r == spec_map_notification(old(self).registry, final(self).registry, ev),
    {
        self.map_x11_surface(ev)
    }

    /// Unmap: a mapped window goes to `Unmapped`, loses its native
    /// handle binding but stays known, and exactly one unmap
    /// notification is emitted. The second component asks the legacy
    /// layer to force the protocol-level unmapped state, which is never
    /// done to an override-redirect window. Events for windows that are
    /// not mapped are ignored.
    pub fn unmapped_window(&mut self, legacy_id: u32) -> (r: (Option<Notification>, bool))
        requires
            old(self).wf(),
        ensures
            final(self).wf(),
            unmap_post(old(self).registry, final(self).registry, legacy_id),
            old(self).slots_unchanged(*final(self)),
            r.0 == (if unmap_emits(old(self).registry, legacy_id) {
                Some(Notification::UnmapX11Surface {
                    x11_surface_id: old(self).registry.entries@[legacy_id].surface_id,
                })
            } else {
                None::<Notification>
            }),
            r.1 == (unmap_emits(old(self).registry, legacy_id) && !old(
                self,
            ).registry.entries@[legacy_id].override_redirect),
    {
        let e = match self.registry.lookup_by_legacy(legacy_id) {
            Some(e) => e,
            None => {
                return (None, false);
            },
        };
        if !matches!(e.phase, Phase::Mapped) {
            return (None, false);
        }
        match e.native {
            Some(h) => self.registry.unbind_native(h),
            None => {},
        }
        self.registry.set_phase(legacy_id, Phase::Unmapped);
        proof {
            let pre = old(self).registry;
            assert(self.registry.entries@ =~= pre.entries@.insert(
                legacy_id,
                (Entry { phase: Phase::Unmapped, native: None, ..pre.entries@[legacy_id] }),
            ));
        }
        (
            Some(Notification::UnmapX11Surface { x11_surface_id: e.surface_id }),
            !e.override_redirect,
        )
    }

    /// Destroy: the window is evicted from the registry — its legacy-id
    /// mapping and native binding go, its opaque id is never reissued —
    /// and exactly one destroy notification is emitted. Events for
    /// unknown windows are ignored.
    pub fn destroyed_window(&mut self, legacy_id: u32) -> (r: Option<Notification>)
        requires
            old(self).wf(),
        ensures
            final(self).wf(),
            evict_post(old(self).registry, final(self).registry, legacy_id),
            old(self).slots_unchanged(*final(self)),
            r == (if destroy_emits(old(self).registry, legacy_id) {
                Some(Notification::DestroyX11Surface {
                    x11_surface_id: old(self).registry.entries@[legacy_id].surface_id,
                })
            } else {
                None::<Notification>
            }),
    {
        let e = match self.registry.lookup_by_legacy(legacy_id) {
            Some(e) => e,
            None => {
                return None;
            },
        };
        let n = Notification::DestroyX11Surface { x11_surface_id: e.surface_id };
        self.registry.evict(legacy_id);
        Some(n)
    }

    /// Configure request: the window may resize but may not move
    /// itself, so the requested origin is discarded and the new
    /// geometry keeps origin (0, 0). A requested size beyond the
    /// geometry range is clamped.
    pub fn configure_request(
        &mut self,
        current: Geometry,
        x: Option<i32>,
        y: Option<i32>,
        w: Option<u32>,
        h: Option<u32>,
    ) -> (g: Geometry)
        ensures
            *final(self) == *old(self),
            g.x == 0,
            g.y == 0,
            g.w == (match w {
                Some(wv) => if wv <= i32::MAX as u32 {
                    wv as i32
                } else {
                    i32::MAX
                },
                None => current.w,
            }),
            g.h == (match h {
                Some(hv) => if hv <= i32::MAX as u32 {
                    hv as i32
                } else {
                    i32::MAX
                },
                None => current.h,
            }),
    {
        let _ = x;
        let _ = y;
        let mut g = Geometry { x: 0, y: 0, w: current.w, h: current.h };
        match w {
            Some(wv) => {
                g.w = if wv <= i32::MAX as u32 {
                    wv as i32
                } else {
                    i32::MAX
                };
            },
            None => {},
        }
        match h {
            Some(hv) => {
                g.h = if hv <= i32::MAX as u32 {
                    hv as i32
                } else {
                    i32::MAX
                };
            },
            None => {},
        }
        g
    }

    /// Deliberate no-op: geometry changes the window reports on its own
    /// are not acted on; size changes flow only through configure
    /// requests.
    pub fn configure_notify(&mut self, _geometry: Geometry)
        ensures
            *final(self) == *old(self),
    {
    }

    /// Deliberate no-op: free-form interactive resizing started by the
    /// window itself is not supported by this compositor's policy.
    pub fn resize_request(&mut self, _button: u32)
        ensures
            *final(self) == *old(self),
    {
    }

    /// Deliberate no-op: free-form interactive moving started by the
    /// window itself is not supported by this compositor's policy.
    pub fn move_request(&mut self, _button: u32)
        ensures
            *final(self) == *old(self),
    {
    }
}

/// The opaque surface id of a registered window, if the registry knows
/// the legacy id.
pub fn get_x11_surface_id(r: &Registry, legacy_id: u32) -> (id: Option<u64>)
    ensures
        id == (if r.entries@.contains_key(legacy_id) {
            Some(r.entries@[legacy_id].surface_id)
        } else {
            None::<u64>
        }),
{
    match r.lookup_by_legacy(legacy_id) {
        Some(e) => Some(e.surface_id),
        None => None,
    }
}

/// A map event is acted on when it carries a native surface and its
/// window is known to the registry.
pub open spec fn map_emits(r: Registry, ev: MapEvent) -> bool {
    ev.native_handle is Some && r.entries@.contains_key(ev.legacy_id)
}

/// The native handle is bound at map time only if the window holds no
/// handle yet and the handle is not bound to another window.
pub open spec fn map_should_bind(r: Registry, legacy_id: u32, handle: u64) -> bool {
    r.entries@[legacy_id].native is None && !r.natives@.contains_key(handle)
}

/// How a map event changes the registry: the window goes to `Mapped`,
/// taking the native handle with it when it can be bound; anything else
/// stays as it was, and an ignored event changes nothing.
pub open spec fn map_post(pre: Registry, post: Registry, ev: MapEvent) -> bool {
    match ev.native_handle {
        None => post == pre,
        Some(h) => {
            if pre.entries@.contains_key(ev.legacy_id) {
                let e = pre.entries@[ev.legacy_id];
                &&& post.cursor == pre.cursor
                &&& (if map_should_bind(pre, ev.legacy_id, h) {
                    &&& post.entries@ == pre.entries@.insert(
                        ev.legacy_id,
                        (Entry { phase: Phase::Mapped, native: Some(h), ..e }),
                    )
                    &&& post.natives@ == pre.natives@.insert(h, ev.legacy_id)
                } else {
                    &&& post.entries@ == pre.entries@.insert(
                        ev.legacy_id,
                        (Entry { phase: Phase::Mapped, ..e }),
                    )
                    &&& post.natives@ == pre.natives@
                })
            } else {
                post == pre
            }
        },
    }
}

/// The notification a map event produces: the window's opaque id, the
/// backing native surface's opaque id, the override-redirect flag, the
/// event's geometry with its origin pinned to (0, 0), the parent
/// resolved against the updated registry, and the descriptive strings
/// carried by the event. An ignored event produces nothing.
pub open spec fn spec_map_notification(
    pre: Registry,
    post: Registry,
    ev: MapEvent,
) -> Option<Notification> {
    if map_emits(pre, ev) {
        Some(
            Notification::MapX11Surface {
                x11_surface_id: pre.entries@[ev.legacy_id].surface_id,
                surface_id: ev.native_surface_id,
                override_redirect: pre.entries@[ev.legacy_id].override_redirect,
                geometry: (Geometry { x: 0, y: 0, w: ev.geometry.w, h: ev.geometry.h }),
                parent: spec_parent(
                    post,
                    pre.entries@[ev.legacy_id].override_redirect,
                    ev.transient_for,
                    ev.focus,
                ),
                title: ev.title,
                window_class: ev.window_class,
                instance: ev.instance,
                startup_id: ev.startup_id,
            },
        )
    } else {
        None
    }
}

/// An unmap event is acted on exactly when its window is known and
/// currently mapped.
pub open spec fn unmap_emits(r: Registry, legacy_id: u32) -> bool {
    r.entries@.contains_key(legacy_id) && r.entries@[legacy_id].phase == Phase::Mapped
}

/// How an unmap event changes the registry: the mapped window goes to
/// `Unmapped` and loses its native binding; an ignored event changes
/// nothing.
pub open spec fn unmap_post(pre: Registry, post: Registry, legacy_id: u32) -> bool {
    if unmap_emits(pre, legacy_id) {
        &&& post.cursor == pre.cursor
        &&& post.entries@ == pre.entries@.insert(
            legacy_id,
            (Entry { phase: Phase::Unmapped, native: None, ..pre.entries@[legacy_id] }),
        )
        &&& post.natives@ == (match pre.entries@[legacy_id].native {
            Some(h) => pre.natives@.remove(h),
            None => pre.natives@,
        })
    } else {
        post == pre
    }
}

/// A destroy event is acted on exactly when its window is known.
pub open spec fn destroy_emits(r: Registry, legacy_id: u32) -> bool {
    r.entries@.contains_key(legacy_id)
}

/// Unmap followed immediately by destroy emits exactly one unmap and
/// one destroy notification, in that order, and never a duplicate: the
/// unmap fires on the mapped window and leaves it unmapped, so a second
/// unmap is ignored; the destroy then fires and evicts the window, so a
/// second destroy — or a later unmap — is ignored as well.
pub proof fn lemma_unmap_then_destroy_once(r0: Registry, r1: Registry, r2: Registry, legacy_id: u32)
    requires
        r0.wf(),
        r0.entries@.contains_key(legacy_id),
        r0.entries@[legacy_id].phase == Phase::Mapped,
        unmap_post(r0, r1, legacy_id),
        evict_post(r1, r2, legacy_id),
    ensures
        unmap_emits(r0, legacy_id),
        !unmap_emits(r1, legacy_id),
        destroy_emits(r1, legacy_id),
        !destroy_emits(r2, legacy_id),
        !unmap_emits(r2, legacy_id),
        r1.entries@[legacy_id].surface_id == r0.entries@[legacy_id].surface_id,
{
}

} // verus!
