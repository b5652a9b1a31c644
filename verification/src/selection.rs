//! Selection arbitration between the legacy layer and the native
//! selection model. The clipboard and the primary selection are two
//! independent slots with the same protocol shape: either side may
//! announce ownership, the legacy side attaches content-type offers and
//! its content is fetched lazily, and a clear from the legacy side only
//! takes effect while the legacy side is still the recorded owner.

use crate::focus::FocusTarget;
use crate::lifecycle::ServerState;
use vstd::prelude::*;

verus! {

/// Which selection a message concerns; each has an isolated slot.
#[derive(Clone, Copy, PartialEq, Eq, Debug)]
pub enum SelectionTarget {
    Clipboard,
    Primary,
}

/// Who currently owns the native-side selection slot.
#[derive(Clone, Copy, PartialEq, Eq, Debug)]
pub enum SelectionOwner {
    NoOwner,
    LegacyOwned,
    NativeOwned,
}

/// Native-side descriptor of one selection: the recorded owner, and the
/// content-type offers the legacy side announced while it owns the
/// slot. No payload is attached; content moves lazily on demand.
#[derive(Clone, PartialEq, Debug)]
pub struct SelectionSlot {
    pub owner: SelectionOwner,
    pub offers: Vec<String>,
}

/// Mathematical view of a selection slot.
#[verifier::ext_equal]
pub struct SlotView {
    pub owner: SelectionOwner,
    pub offers: Seq<String>,
}

impl View for SelectionSlot {
    type V = SlotView;

    open spec fn view(&self) -> SlotView {
        SlotView { owner: self.owner, offers: self.offers@ }
    }
}

impl SelectionSlot {
    pub fn empty() -> (s: SelectionSlot)
        ensures
            s.owner is NoOwner,
            s.offers@ == Seq::<String>::empty(),
    {
        SelectionSlot { owner: SelectionOwner::NoOwner, offers: Vec::new() }
    }
}

/// An outbound transfer the native selection subsystem is asked to
/// perform: stream this content type of the current native selection
/// into the one-shot byte channel the requester supplied.
#[derive(Clone, PartialEq, Debug)]
pub struct TransferRequest {
    pub target: SelectionTarget,
    pub mime_type: String,
}

/// What a clear from the legacy side does to a slot: while the legacy
/// side is the recorded owner the slot empties; any other owner's slot
/// — including an already cleared one — is left alone.
pub open spec fn spec_cleared(v: SlotView) -> SlotView {
    if v.owner is LegacyOwned {
        SlotView { owner: SelectionOwner::NoOwner, offers: Seq::empty() }
    } else {
        v
    }
}

/// Clearing a selection is idempotent: a second clear right after a
/// first produces no observable state change.
pub proof fn lemma_cleared_selection_idempotent(v: SlotView)
    ensures
        spec_cleared(spec_cleared(v)) == spec_cleared(v),
{
}

/// The slot a selection target names.
pub open spec fn spec_slot(s: ServerState, target: SelectionTarget) -> SlotView {
    match target {
        SelectionTarget::Clipboard => s.clipboard@,
        SelectionTarget::Primary => s.primary@,
    }
}

/// The slot the other selection target names.
pub open spec fn spec_other_slot(s: ServerState, target: SelectionTarget) -> SlotView {
    match target {
        SelectionTarget::Clipboard => s.primary@,
        SelectionTarget::Primary => s.clipboard@,
    }
}

impl ServerState {
    /// Access gate: the legacy layer may touch a selection only while a
    /// window of this very compatibility-server instance holds keyboard
    /// focus; anything else is denied with no side effect.
    pub fn allow_selection_access(&self, xwm_id: u32, focus: &Option<FocusTarget>) -> (r: bool)
        ensures
            r == (match *focus {
                Some(f) => f.spec_as_legacy() == Some(xwm_id),
                None => false,
            }),
    {
        match focus {
            Some(f) => match f.as_legacy() {
                Some(owner) => owner == xwm_id,
                None => false,
            },
            None => false,
        }
    }

    /// The legacy side wants the current native selection content: the
    /// request is routed to the subsystem the target names, with the
    /// requested content type. Whether the stream then succeeds is the
    /// transport's affair; a failure leaves the requester with no data.
    pub fn send_selection(&self, target: SelectionTarget, mime_type: String) -> (r:
        TransferRequest)
        ensures
            r.target == target,
            r.mime_type == mime_type,
    {
        TransferRequest { target, mime_type }
    }

    /// The legacy side announces that it owns the selection, with its
    /// content-type offers: they become the native-side descriptor,
    /// with no payload attached.
    pub fn new_selection(&mut self, target: SelectionTarget, mime_types: Vec<String>)
        ensures
            final(self).registry == old(self).registry,
            spec_slot(*final(self), target).owner is LegacyOwned,
            spec_slot(*final(self), target).offers == mime_types@,
            spec_other_slot(*final(self), target) == spec_other_slot(*old(self), target),
    {
        let slot = SelectionSlot { owner: SelectionOwner::LegacyOwned, offers: mime_types };
        match target {
            SelectionTarget::Clipboard => {
                self.clipboard = slot;
            },
            SelectionTarget::Primary => {
                self.primary = slot;
            },
        }
    }

    /// The native side announces that it owns the selection: the slot
    /// records it, and the legacy side's offers are gone.
    pub fn set_native_selection(&mut self, target: SelectionTarget)
        ensures
            final(self).registry == old(self).registry,
            spec_slot(*final(self), target).owner is NativeOwned,
            spec_slot(*final(self), target).offers == Seq::<String>::empty(),
            spec_other_slot(*final(self), target) == spec_other_slot(*old(self), target),
    {
        let slot = SelectionSlot { owner: SelectionOwner::NativeOwned, offers: Vec::new() };
        match target {
            SelectionTarget::Clipboard => {
                self.clipboard = slot;
            },
            SelectionTarget::Primary => {
                self.primary = slot;
            },
        }
    }

    /// The legacy side relinquishes the selection. The slot is cleared
    /// only while the legacy side is still the recorded owner: an
    /// unconditional clear could wipe a selection a newer owner already
    /// installed, and a second clear in a row is a safe no-op.
    pub fn cleared_selection(&mut self, target: SelectionTarget) -> (cleared: bool)
        ensures
            final(self).registry == old(self).registry,
            spec_slot(*final(self), target) =~= spec_cleared(spec_slot(*old(self), target)),
            spec_other_slot(*final(self), target) == spec_other_slot(*old(self), target),
            cleared == (spec_slot(*old(self), target).owner is LegacyOwned),
    {
        match target {
            SelectionTarget::Clipboard => {
                if matches!(self.clipboard.owner, SelectionOwner::LegacyOwned) {
                    self.clipboard = SelectionSlot { owner: SelectionOwner::NoOwner, offers: Vec::new() };
                    true
                } else {
                    false
                }
            },
            SelectionTarget::Primary => {
                if matches!(self.primary.owner, SelectionOwner::LegacyOwned) {
                    self.primary = SelectionSlot { owner: SelectionOwner::NoOwner, offers: Vec::new() };
                    true
                } else {
                    false
                }
            },
        }
    }

    /// The native side asks for legacy selection content of one type:
    /// the fetch goes ahead exactly when the legacy side is the
    /// recorded owner and announced that content type among its offers.
    pub fn fetch_legacy_offer(&self, target: SelectionTarget, mime_type: &String) -> (r: bool)
        ensures
            r == (spec_slot(*self, target).owner is LegacyOwned && (exists|j: int|
                0 <= j < spec_slot(*self, target).offers.len() && spec_slot(
                    *self,
                    target,
                ).offers[j]@ == mime_type@)),
    {
        let slot = match target {
            SelectionTarget::Clipboard => &self.clipboard,
            SelectionTarget::Primary => &self.primary,
        };
        if !matches!(slot.owner, SelectionOwner::LegacyOwned) {
            return false;
        }
        let mut i: usize = 0;
        while i < slot.offers.len()
            invariant
                slot@ == spec_slot(*self, target),
                slot.owner is LegacyOwned,
                i <= slot.offers.len(),
                forall|j: int| 0 <= j < i ==> slot.offers@[j]@ != mime_type@,
            decreases slot.offers.len() - i,
        {
            if slot.offers[i].eq(mime_type) {
                proof {
                    assert(spec_slot(*self, target).offers[i as int]@ == mime_type@);
                }
                return true;
            }
            i = i + 1;
        }
        false
    }
}

} // verus!
