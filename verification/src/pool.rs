//! Bounded pool of concurrency slots for deferred handlers.
//!
//! Each kind of deferred operation declares a fixed capacity; a slot is
//! acquired when a task for that operation is spawned and released when the
//! task completes. When no slot is free the request is rejected, never
//! queued: reject-over-queue bounds the memory held for outstanding work.

use vstd::prelude::*;

verus! {

/// A fixed-capacity set of concurrency slots.
pub struct SlotPool {
    cap: usize,
    used: usize,
}

impl SlotPool {
    /// Total number of slots this pool was created with.
    pub closed spec fn capacity(&self) -> int {
        self.cap as int
    }

    /// Number of slots currently held by in-flight tasks.
    pub closed spec fn in_flight(&self) -> int {
        self.used as int
    }

    /// No more slots are held than exist.
    pub open spec fn wf(&self) -> bool {
        0 <= self.in_flight() <= self.capacity()
    }

    /// Create a pool with all `capacity` slots free.
    pub fn new(capacity: usize) -> (r: SlotPool)
        ensures
            r.capacity() == capacity,
            r.in_flight() == 0,
            r.wf(),
    {
        SlotPool { cap: capacity, used: 0 }
    }

    /// Number of slots currently held, as a runtime value.
    pub fn used_slots(&self) -> (r: usize)
        ensures
            r == self.in_flight(),
    {
        self.used
    }

    /// Take one slot if any is free; report whether one was taken.
    pub fn try_acquire(&mut self) -> (r: bool)
        requires
            old(self).wf(),
        ensures
            final(self).wf(),
            final(self).capacity() == old(self).capacity(),
            r == (old(self).in_flight() < old(self).capacity()),
            r ==> final(self).in_flight() == old(self).in_flight() + 1,
            !r ==> final(self).in_flight() == old(self).in_flight(),
    {
        if self.used < self.cap {
            self.used = self.used + 1;
            true
        } else {
            false
        }
    }

    /// Give one slot back; with no slot held this is a no-op.
    pub fn release(&mut self)
        requires
            old(self).wf(),
        ensures
            final(self).wf(),
            final(self).capacity() == old(self).capacity(),
            old(self).in_flight() > 0 ==> final(self).in_flight() == old(self).in_flight() - 1,
            old(self).in_flight() == 0 ==> final(self).in_flight() == 0,
    {
        if self.used > 0 {
            self.used = self.used - 1;
        }
    }
}

} // verus!
