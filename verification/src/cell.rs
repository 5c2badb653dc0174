//! The shared state cell: the single holder of the current snapshot.
//!
//! Exactly one writer role (the poller) replaces the held snapshot and any
//! number of reader roles (responder tasks) copy it out. The cell itself is
//! the sequential core of that discipline: `publish` replaces the held
//! snapshot whole and `read` copies it out whole, so a reader can only ever
//! observe one published snapshot, never fields of two. The mutual
//! exclusion that serializes the two roles' accesses is the lock the
//! embedding process wraps around a cell.

use vstd::prelude::*;
use crate::snapshot::Snapshot;

verus! {

/// The mutually exclusive container of the most recently published
/// snapshot.
pub struct SharedCell {
    current: Snapshot,
}

/// The cell after `publish`: the new snapshot has replaced the old one
/// entirely; nothing of the old value survives.
pub closed spec fn spec_publish(c: SharedCell, s: Snapshot) -> SharedCell {
    SharedCell { current: s }
}

/// The snapshot `read` hands out: the held one, whole.
pub closed spec fn spec_read(c: SharedCell) -> Snapshot {
    c.current
}

impl SharedCell {
    /// The snapshot the cell currently holds.
    pub closed spec fn spec_current(self) -> Snapshot {
        self.current
    }

    /// A fresh cell holds the all-zero snapshot, so a request served
    /// before the first poll cycle completes sees zero readings, not an
    /// error.
    pub fn new() -> (c: SharedCell)
        ensures
            c.spec_current().all_zero(),
    {
        SharedCell { current: Snapshot::zero() }
    }

    /// Replace the held snapshot with a freshly built one.
    pub fn publish(&mut self, s: Snapshot)
        ensures
            *final(self) == spec_publish(*old(self), s),
            final(self).spec_current() == s,
    {
        self.current = s;
    }

    /// Copy the held snapshot out.
    pub fn read(&self) -> (s: Snapshot)
        ensures
            s == spec_read(*self),
            s == self.spec_current(),
    {
        self.current
    }
}

/// `publish` followed at once by `read` hands back a snapshot equal, field
/// for field, to the one published, whatever the cell held before.
pub proof fn lemma_publish_then_read(before: SharedCell, s: Snapshot)
    ensures
        spec_read(spec_publish(before, s)) == s,
{
}

/// What `publish` leaves in the cell is the published snapshot, whole,
/// whatever was held before.
pub proof fn lemma_publish_keeps_whole(c: SharedCell, s: Snapshot)
    ensures
        spec_publish(c, s).spec_current() == s,
{
}

/// A read is never torn: whenever the cell holds one of two published
/// snapshots, a read returns one of them whole — there is no third value
/// mixing fields of both.
pub proof fn lemma_read_unmixed(c: SharedCell, a: Snapshot, b: Snapshot)
    requires
        c.spec_current() == a || c.spec_current() == b,
    ensures
        spec_read(c) == a || spec_read(c) == b,
{
}

} // verus!
