//! Shared World Cache: the single mutable cell holding the latest decoded
//! snapshot.
//!
//! The receive loop is its only writer and the tick loop its only reader;
//! each write replaces the stored snapshot whole, so a reader never sees a
//! partially updated entity list. The two loops run on different execution
//! contexts, so the embedding program keeps the cache behind a
//! mutual-exclusion lock and holds the lock for the duration of each
//! `replace` or `snapshot_view` call.

use vstd::prelude::*;
use crate::types::{RemoteEntity, WorldSnapshot};

verus! {

/// The cell holding the most recently decoded world snapshot.
pub struct SharedWorldCache {
    snapshot: WorldSnapshot,
}

impl View for SharedWorldCache {
    type V = Seq<RemoteEntity>;

    closed spec fn view(&self) -> Seq<RemoteEntity> {
        self.snapshot@
    }
}

impl SharedWorldCache {
    /// The cache respects the participant cap whenever only well-formed
    /// snapshots have been stored.
    pub closed spec fn wf(&self) -> bool {
        self.snapshot.wf()
    }

    /// A fresh cache: the empty snapshot, until the first successful decode.
    pub fn new() -> (c: SharedWorldCache)
        ensures
            c@ == Seq::<RemoteEntity>::empty(),
            c.wf(),
    {
        SharedWorldCache { snapshot: WorldSnapshot::empty() }
    }

    /// Substitutes the stored snapshot whole. A view taken afterwards sees
    /// exactly the replaced sequence — never a prior or mixed one.
    pub fn replace(&mut self, snapshot: WorldSnapshot)
        requires
            snapshot.wf(),
        ensures
            final(self)@ == snapshot@,
            final(self).wf(),
    {
        self.snapshot = snapshot;
    }

    /// Grants read access to the current snapshot for the duration of one
    /// consumer operation; the borrow must not be held across ticks.
    pub fn snapshot_view(&self) -> (r: &WorldSnapshot)
        ensures
            r@ == self@,
            self.wf() ==> r.wf(),
    {
        &self.snapshot
    }
}

} // verus!
