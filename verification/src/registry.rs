//! The surface registry: the single owner of the legacy-id and
//! native-handle mappings, backed by a monotonically increasing id
//! allocator. Every window known to the compositor has exactly one
//! opaque surface id for its lifetime, and an id is never reissued
//! after its window has been evicted.

use std::collections::HashMap;
use vstd::prelude::*;

verus! {

broadcast use vstd::std_specs::hash::group_hash_axioms;

/// Lifecycle phase of a window record; a destroyed window is evicted
/// from the registry rather than kept in a terminal phase.
#[derive(Clone, Copy, PartialEq, Eq, Structural, Debug)]
pub enum Phase {
    Created,
    Mapped,
    Unmapped,
}

/// One window record: the opaque surface id assigned at registration,
/// the immutable override-redirect flag, the current lifecycle phase,
/// and the native surface handle bound while the window is mapped.
#[derive(Clone, Copy, Debug)]
pub struct Entry {
    pub surface_id: u64,
    pub override_redirect: bool,
    pub phase: Phase,
    pub native: Option<u64>,
}

/// Bidirectional registry: legacy window id to record, and native
/// surface handle back to the owning legacy window id. `cursor` is the
/// next opaque surface id to hand out.
pub struct Registry {
    pub cursor: u64,
    pub entries: HashMap<u32, Entry>,
    pub natives: HashMap<u64, u32>,
}

impl Registry {
    /// Every recorded surface id lies strictly below the allocator cursor.
    pub open spec fn ids_below_cursor(self) -> bool {
        forall|l: u32| #[trigger]
            self.entries@.contains_key(l) ==> self.entries@[l].surface_id < self.cursor
    }

    /// No two registered windows share a surface id.
    pub open spec fn ids_injective(self) -> bool {
        forall|l1: u32, l2: u32|
            #[trigger] self.entries@.contains_key(l1) && #[trigger] self.entries@.contains_key(l2)
                && self.entries@[l1].surface_id == self.entries@[l2].surface_id ==> l1 == l2
    }

    /// Every native-handle binding points at a registered window whose
    /// record agrees that it owns the handle.
    pub open spec fn natives_consistent(self) -> bool {
        forall|h: u64| #[trigger] self.natives@.contains_key(h) ==> {
            &&& self.entries@.contains_key(self.natives@[h])
            &&& self.entries@[self.natives@[h]].native == Some(h)
        }
    }

    /// Every record that claims a native handle is found back through
    /// the handle map.
    pub open spec fn bindings_consistent(self) -> bool {
        forall|l: u32| #[trigger] self.entries@.contains_key(l) ==> match self.entries@[l].native {
            Some(h) => self.natives@.contains_key(h) && self.natives@[h] == l,
            None => true,
        }
    }

    /// Registry well-formedness: ids are fresh and unique, and the two
    /// maps hold no dangling cross-references.
    pub open spec fn wf(self) -> bool {
        &&& self.ids_below_cursor()
        &&& self.ids_injective()
        &&& self.natives_consistent()
        &&& self.bindings_consistent()
    }

    pub fn new() -> (r: Registry)
        ensures
            r.wf(),
            r.cursor == 1,
            r.entries@ == Map::<u32, Entry>::empty(),
            r.natives@ == Map::<u64, u32>::empty(),
    {
        Registry { cursor: 1, entries: HashMap::new(), natives: HashMap::new() }
    }

    /// Register a legacy window id, allocating a fresh opaque surface id
    /// for it; registering an id that is already present returns the
    /// recorded surface id and changes nothing, so repeated calls agree.
    pub fn register(&mut self, legacy_id: u32, override_redirect: bool) -> (id: u64)
        requires
            old(self).wf(),
            old(self).cursor < u64::MAX,
        ensures
            final(self).wf(),
            id == spec_register_id(*old(self), legacy_id),
            register_post(*old(self), *final(self), legacy_id, override_redirect),
            final(self).cursor >= old(self).cursor,
    {
        match self.entries.get(&legacy_id) {
            Some(e) => e.surface_id,
            None => {
                let id = self.cursor;
                self.cursor = self.cursor + 1;
                let entry = Entry {
                    surface_id: id,
                    override_redirect,
                    phase: Phase::Created,
                    native: None,
                };
                self.entries.insert(legacy_id, entry);
                proof {
                    assert forall|h: u64| #[trigger] self.natives@.contains_key(h) implies {
                        &&& self.entries@.contains_key(self.natives@[h])
                        &&& self.entries@[self.natives@[h]].native == Some(h)
                    } by {
                        assert(old(self).natives@.contains_key(h));
                        assert(old(self).entries@.contains_key(old(self).natives@[h]));
                    }
                }
                id
            },
        }
    }

    /// Look a window up by its legacy id; a miss returns nothing.
    pub fn lookup_by_legacy(&self, legacy_id: u32) -> (r: Option<Entry>)
        ensures
            r == (if self.entries@.contains_key(legacy_id) {
                Some(self.entries@[legacy_id])
            } else {
                None::<Entry>
            }),
    {
        match self.entries.get(&legacy_id) {
            Some(e) => Some(*e),
            None => None,
        }
    }

    /// Look a window up by its bound native surface handle; a miss
    /// returns nothing.
    pub fn lookup_by_native(&self, handle: u64) -> (r: Option<(u32, Entry)>)
        requires
            self.wf(),
        ensures
            r == (if self.natives@.contains_key(handle) {
                Some((self.natives@[handle], self.entries@[self.natives@[handle]]))
            } else {
                None::<(u32, Entry)>
            }),
    {
        let l_opt = match self.natives.get(&handle) {
            Some(l) => Some(*l),
            None => None,
        };
        match l_opt {
            Some(l) => {
                let e = self.entries.get(&l);
                match e {
                    Some(e) => Some((l, *e)),
                    None => None,
                }
            },
            None => None,
        }
    }

    /// Bind a native surface handle to a registered window that holds
    /// none yet; the handle itself must be free.
    pub fn bind_native(&mut self, legacy_id: u32, handle: u64)
        requires
            old(self).wf(),
            old(self).entries@.contains_key(legacy_id),
            old(self).entries@[legacy_id].native is None,
            !old(self).natives@.contains_key(handle),
        ensures
            final(self).wf(),
            final(self).cursor == old(self).cursor,
            final(self).entries@ == old(self).entries@.insert(
                legacy_id,
                (Entry { native: Some(handle), ..old(self).entries@[legacy_id] }),
            ),
            final(self).natives@ == old(self).natives@.insert(handle, legacy_id),
    {
        let e = *self.entries.get(&legacy_id).unwrap();
        self.entries.insert(legacy_id, Entry { native: Some(handle), ..e });
        self.natives.insert(handle, legacy_id);
        proof {
            assert forall|h: u64| #[trigger] self.natives@.contains_key(h) implies {
                &&& self.entries@.contains_key(self.natives@[h])
                &&& self.entries@[self.natives@[h]].native == Some(h)
            } by {
                if h != handle {
                    assert(old(self).natives@.contains_key(h));
                    assert(old(self).entries@[old(self).natives@[h]].native == Some(h));
                    assert(old(self).natives@[h] != legacy_id);
                }
            }
            assert forall|l: u32| #[trigger] self.entries@.contains_key(l) implies match self
                .entries@[l].native {
                Some(h) => self.natives@.contains_key(h) && self.natives@[h] == l,
                None => true,
            } by {
                if l != legacy_id {
                    assert(old(self).entries@.contains_key(l));
                    match old(self).entries@[l].native {
                        Some(h) => {
                            assert(old(self).natives@[h] == l);
                            assert(h != handle);
                        },
                        None => {},
                    }
                }
            }
        }
    }

    /// Drop the binding of a native surface handle, if any, clearing the
    /// owning record's handle as well; unknown handles are ignored.
    pub fn unbind_native(&mut self, handle: u64)
        requires
            old(self).wf(),
        ensures
            final(self).wf(),
            final(self).cursor == old(self).cursor,
            unbind_post(*old(self), *final(self), handle),
    {
        let l_opt = match self.natives.get(&handle) {
            Some(l) => Some(*l),
            None => None,
        };
        match l_opt {
            None => {},
            Some(l) => {
                self.natives.remove(&handle);
                let e = *self.entries.get(&l).unwrap();
                self.entries.insert(l, Entry { native: None, ..e });
                proof {
                    assert(old(self).entries@[l].native == Some(handle));
                    assert forall|h: u64| #[trigger] self.natives@.contains_key(h) implies {
                        &&& self.entries@.contains_key(self.natives@[h])
                        &&& self.entries@[self.natives@[h]].native == Some(h)
                    } by {
                        assert(old(self).natives@.contains_key(h));
                        assert(old(self).entries@[old(self).natives@[h]].native == Some(h));
                        if old(self).natives@[h] == l {
                            assert(h == handle);
                        }
                    }
                    assert forall|l2: u32| #[trigger] self.entries@.contains_key(l2) implies match self
                        .entries@[l2].native {
                        Some(h) => self.natives@.contains_key(h) && self.natives@[h] == l2,
                        None => true,
                    } by {
                        if l2 != l {
                            assert(old(self).entries@.contains_key(l2));
                            match old(self).entries@[l2].native {
                                Some(h) => {
                                    assert(old(self).natives@[h] == l2);
                                    assert(h != handle);
                                },
                                None => {},
                            }
                        }
                    }
                }
            },
        }
    }

    /// Change the lifecycle phase of a registered window.
    pub fn set_phase(&mut self, legacy_id: u32, phase: Phase)
        requires
            old(self).wf(),
            old(self).entries@.contains_key(legacy_id),
        ensures
            final(self).wf(),
            final(self).cursor == old(self).cursor,
            final(self).entries@ == old(self).entries@.insert(
                legacy_id,
                (Entry { phase, ..old(self).entries@[legacy_id] }),
            ),
            final(self).natives@ == old(self).natives@,
    {
        let e = *self.entries.get(&legacy_id).unwrap();
        self.entries.insert(legacy_id, Entry { phase, ..e });
        proof {
            assert forall|h: u64| #[trigger] self.natives@.contains_key(h) implies {
                &&& self.entries@.contains_key(self.natives@[h])
                &&& self.entries@[self.natives@[h]].native == Some(h)
            } by {
                assert(old(self).natives@.contains_key(h));
                assert(old(self).entries@[old(self).natives@[h]].native == Some(h));
            }
            assert forall|l2: u32| #[trigger] self.entries@.contains_key(l2) implies match self
                .entries@[l2].native {
                Some(h) => self.natives@.contains_key(h) && self.natives@[h] == l2,
                None => true,
            } by {
                assert(old(self).entries@.contains_key(l2));
            }
        }
    }

    /// Evict a window on destruction: the legacy-id mapping goes, and so
    /// does its native-handle binding, so no dangling cross-reference
    /// stays behind. The surface id is never handed out again.
    pub fn evict(&mut self, legacy_id: u32)
        requires
            old(self).wf(),
        ensures
            final(self).wf(),
            final(self).cursor == old(self).cursor,
            evict_post(*old(self), *final(self), legacy_id),
    {
        let e_opt = match self.entries.get(&legacy_id) {
            Some(e) => Some(*e),
            None => None,
        };
        match e_opt {
            None => {},
            Some(e) => {
                self.entries.remove(&legacy_id);
                match e.native {
                    Some(h) => {
                        self.natives.remove(&h);
                    },
                    None => {},
                }
                proof {
                    assert forall|h: u64| #[trigger] self.natives@.contains_key(h) implies {
                        &&& self.entries@.contains_key(self.natives@[h])
                        &&& self.entries@[self.natives@[h]].native == Some(h)
                    } by {
                        assert(old(self).natives@.contains_key(h));
                        assert(old(self).entries@[old(self).natives@[h]].native == Some(h));
                        if old(self).natives@[h] == legacy_id {
                            assert(old(self).entries@[legacy_id].native == Some(h));
                        }
                    }
                    assert forall|l2: u32| #[trigger] self.entries@.contains_key(l2) implies match self
                        .entries@[l2].native {
                        Some(h) => self.natives@.contains_key(h) && self.natives@[h] == l2,
                        None => true,
                    } by {
                        assert(old(self).entries@.contains_key(l2));
                        match old(self).entries@[l2].native {
                            Some(h) => {
                                assert(old(self).natives@[h] == l2);
                                if old(self).entries@[legacy_id].native == Some(h) {
                                    assert(l2 == legacy_id);
                                }
                            },
                            None => {},
                        }
                    }
                }
            },
        }
    }
}

/// The surface id that `register` returns on a given registry: the
/// recorded id when the legacy id is already present, the allocator
/// cursor otherwise.
pub open spec fn spec_register_id(r: Registry, legacy_id: u32) -> u64 {
    if r.entries@.contains_key(legacy_id) {
        r.entries@[legacy_id].surface_id
    } else {
        r.cursor
    }
}

/// How `register` changes the registry: not at all for a known legacy
/// id, else one fresh record under the old cursor and the cursor moved up.
pub open spec fn register_post(
    pre: Registry,
    post: Registry,
    legacy_id: u32,
    override_redirect: bool,
) -> bool {
    if pre.entries@.contains_key(legacy_id) {
        post == pre
    } else {
        &&& post.cursor == pre.cursor + 1
        &&& post.entries@ == pre.entries@.insert(
            legacy_id,
            (Entry {
                surface_id: pre.cursor,
                override_redirect,
                phase: Phase::Created,
                native: None,
            }),
        )
        &&& post.natives@ == pre.natives@
    }
}

/// How `unbind_native` changes the registry: for a bound handle, the
/// binding goes and the owning record's handle is cleared; otherwise
/// nothing changes.
pub open spec fn unbind_post(pre: Registry, post: Registry, handle: u64) -> bool {
    if pre.natives@.contains_key(handle) {
        &&& post.natives@ == pre.natives@.remove(handle)
        &&& post.entries@ == pre.entries@.insert(
            pre.natives@[handle],
            (Entry { native: None, ..pre.entries@[pre.natives@[handle]] }),
        )
    } else {
        post == pre
    }
}

/// How `evict` changes the registry: a known window's record goes, and
/// with it its native-handle binding, if it held one; an unknown legacy
/// id changes nothing.
pub open spec fn evict_post(pre: Registry, post: Registry, legacy_id: u32) -> bool {
    if pre.entries@.contains_key(legacy_id) {
        &&& post.cursor == pre.cursor
        &&& post.entries@ == pre.entries@.remove(legacy_id)
        &&& post.natives@ == (match pre.entries@[legacy_id].native {
            Some(h) => pre.natives@.remove(h),
            None => pre.natives@,
        })
    } else {
        post == pre
    }
}

/// A surface id recorded for any window lies strictly below the
/// allocator cursor.
pub proof fn lemma_ids_below_cursor(r: Registry, legacy_id: u32)
    requires
        r.wf(),
        r.entries@.contains_key(legacy_id),
    ensures
        r.entries@[legacy_id].surface_id < r.cursor,
{
}

/// The opaque surface id is stable: once a registration has happened,
/// any later `register` of the same legacy id returns the same id.
pub proof fn lemma_register_stable(r0: Registry, r1: Registry, legacy_id: u32, orr: bool)
    requires
        register_post(r0, r1, legacy_id, orr),
    ensures
        spec_register_id(r1, legacy_id) == spec_register_id(r0, legacy_id),
{
}

/// An evicted window's surface id is never reissued. Every registry
/// operation keeps the cursor or moves it up, so `r1.cursor <= r2.cursor`
/// covers any sequence of operations between the eviction and a later
/// registration; the fresh id that registration returns differs from the
/// id the evicted window held.
pub proof fn lemma_evicted_id_never_reissued(
    r0: Registry,
    r1: Registry,
    r2: Registry,
    evicted_id: u32,
    later_id: u32,
)
    requires
        r0.wf(),
        r0.entries@.contains_key(evicted_id),
        evict_post(r0, r1, evicted_id),
        r1.cursor <= r2.cursor,
        !r2.entries@.contains_key(later_id),
    ensures
        spec_register_id(r2, later_id) != r0.entries@[evicted_id].surface_id,
{
}

} // verus!
