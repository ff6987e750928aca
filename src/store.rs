//! The slot holding the latest snapshot. It is written by one sampler and
//! read by any number of renderers: `publish` replaces the value whole and
//! `read` hands out a full copy, so a reader never shares data with the
//! slot. Sharing between threads is the caller's lock around the slot.
use vstd::prelude::*;
use crate::model::{SnapshotView, TelemetrySnapshot};

verus! {

/// The latest published snapshot.
pub struct SnapshotStore {
    current: TelemetrySnapshot,
}

impl View for SnapshotStore {
    type V = SnapshotView;

    closed spec fn view(&self) -> SnapshotView {
        self.current@
    }
}

impl SnapshotStore {
    #[verifier::type_invariant]
    spec fn inv(self) -> bool {
        self.current@.wf()
    }

    /// A store holding the initial, empty snapshot.
    pub fn new() -> (r: SnapshotStore)
        ensures
            r@ == SnapshotView::initial(),
    {
        SnapshotStore { current: TelemetrySnapshot::initial() }
    }

    /// Replaces the stored snapshot as a whole.
    pub fn publish(&mut self, s: TelemetrySnapshot)
        requires
            s@.wf(),
        ensures
            final(self)@ == s@,
    {
        self.current = s;
    }

    /// A deep, independent copy of the stored snapshot; the store is left
    /// as it was.
    pub fn read(&self) -> (r: TelemetrySnapshot)
        ensures
            r@ == self@,
            r@.wf(),
    {
        proof {
            use_type_invariant(self);
        }
        self.current.deep_copy()
    }
}

/// Reading right after publishing `s`, with no publish between, gives back
/// `s`: `published` is the store after `publish(s)`, `copy` what `read`
/// then returned.
pub proof fn law_read_after_publish(s: SnapshotView, published: SnapshotView, copy: SnapshotView)
    requires
        published == s,
        copy == published,
    ensures
        copy == s,
{
}

} // verus!
