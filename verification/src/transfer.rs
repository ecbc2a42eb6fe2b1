use vstd::prelude::*;
use crate::handle::{after_clone, after_drop, after_new, RocBox};
use crate::heap::{Heap, Slot};
use crate::layout::{align_up, alloc_alignment_of, alloc_size_of};
use crate::storage::Mode;

verus! {

/// Whether a handle on a cell in this mode can change threads as it is:
/// nobody writes a read-only cell, and nobody else holds a unique one.
pub open spec fn safe_to_send(mode: Mode) -> bool {
    mode == Mode::ReadOnly || mode.is_unique()
}

/// The allocation that a transferred handle points to: its own at `base`
/// where that is safe, else the copy at `fresh`.
pub open spec fn transferred_to<T>(m: Map<usize, Slot<T>>, base: usize, fresh: usize) -> usize {
    if safe_to_send(m[base].mode) {
        base
    } else {
        fresh
    }
}

/// The live allocations after a handle on the one at `base` was made
/// transferable: unchanged where that is safe; else with a copy of the
/// payload at `fresh`, and the handle's own allocation one handle poorer.
pub open spec fn after_transfer<T>(m: Map<usize, Slot<T>>, base: usize, fresh: usize) -> Map<
    usize,
    Slot<T>,
> {
    if safe_to_send(m[base].mode) {
        m
    } else {
        after_drop(after_new(m, fresh, m[base].payload), base)
    }
}

/// The live allocations after a transferable handle on the one at `base`
/// was cloned: counted once more where sharing is safe, else with a copy of
/// the payload at `fresh`.
pub open spec fn after_transfer_clone<T>(m: Map<usize, Slot<T>>, base: usize, fresh: usize) -> Map<
    usize,
    Slot<T>,
> {
    if safe_to_send(m[base].mode) {
        after_clone(m, base)
    } else {
        after_new(m, fresh, m[base].payload)
    }
}

/// A handle that can be moved to another thread: when it was made, its
/// allocation was read-only or had no other handle.
pub struct SendSafeRocBox<T>(RocBox<T>);

impl<T> SendSafeRocBox<T> {
    /// The handle inside.
    pub closed spec fn inner(&self) -> RocBox<T> {
        self.0
    }
}

/// Both operations may have to duplicate a payload, which they do by
/// copying it out of its allocation bit for bit. `Copy` is what makes that
/// sound for every payload type; a payload that owns a resource has no such
/// duplicate, so these operations are not offered for it.
impl<T: Copy> SendSafeRocBox<T> {
    /// Makes a handle transferable. A handle on a read-only or unique
    /// allocation is wrapped as it is. Any other handle is ended, which
    /// lowers its allocation's count, and a handle on a fresh copy of the
    /// payload, with a count of one, is wrapped in its place. Only then is
    /// anything allocated: otherwise the heap's frontier stays where it is.
    pub fn from(b: RocBox<T>, heap: &mut Heap<T>) -> (ssb: SendSafeRocBox<T>)
        requires
            old(heap).wf(),
            b.live_in(old(heap)),
            safe_to_send(b.mode_in(old(heap))) || old(heap).can_allocate(),
        ensures
            final(heap).wf(),
            ssb.inner().live_in(final(heap)),
            safe_to_send(ssb.inner().mode_in(final(heap))),
            ssb.inner().payload_in(final(heap)) == b.payload_in(old(heap)),
            safe_to_send(b.mode_in(old(heap))) ==> ssb.inner() == b,
            !safe_to_send(b.mode_in(old(heap))) ==> {
                &&& ssb.inner().addr() != b.addr()
                &&& !old(heap)@.contains_key(ssb.inner().header())
                &&& ssb.inner().header() == align_up(
                    old(heap).frontier() as int,
                    alloc_alignment_of::<T>() as int,
                )
            },
            ssb.inner().header() == transferred_to(
                old(heap)@,
                b.header(),
                align_up(old(heap).frontier() as int, alloc_alignment_of::<T>() as int) as usize,
            ),
            final(heap)@ == after_transfer(old(heap)@, b.header(), ssb.inner().header()),
            safe_to_send(b.mode_in(old(heap))) ==> final(heap).frontier() == old(heap).frontier(),
            !safe_to_send(b.mode_in(old(heap))) ==> final(heap).frontier() == ssb.inner().header()
                + alloc_size_of::<T>(),
            final(heap).limit() == old(heap).limit(),
    {
        let storage = b.storage(heap);
        let is_safe = storage.is_readonly() || storage.is_unique();
        if is_safe {
            SendSafeRocBox(b)
        } else {
            let copy = b.deep_copy(heap);
            let _ = b.drop(heap);
            SendSafeRocBox(copy)
        }
    }

    /// A second transferable handle. The cell is read afresh: a handle on a
    /// read-only or unique allocation is cloned, which a counted cell
    /// counts; any other gives a handle on a fresh copy of the payload with
    /// a count of one, and leaves its own allocation as it is. Only then is
    /// anything allocated: otherwise the heap's frontier stays where it is.
    pub fn clone(&self, heap: &mut Heap<T>) -> (ssb: SendSafeRocBox<T>)
        requires
            old(heap).wf(),
            self.inner().live_in(old(heap)),
            safe_to_send(self.inner().mode_in(old(heap))) || old(heap).can_allocate(),
        ensures
            final(heap).wf(),
            ssb.inner().live_in(final(heap)),
            self.inner().live_in(final(heap)),
            ssb.inner().payload_in(final(heap)) == self.inner().payload_in(old(heap)),
            safe_to_send(self.inner().mode_in(old(heap))) ==> ssb.inner().addr()
                == self.inner().addr(),
            !safe_to_send(self.inner().mode_in(old(heap))) ==> {
                &&& ssb.inner().addr() != self.inner().addr()
                &&& !old(heap)@.contains_key(ssb.inner().header())
                &&& ssb.inner().header() == align_up(
                    old(heap).frontier() as int,
                    alloc_alignment_of::<T>() as int,
                )
            },
            final(heap)@ == after_transfer_clone(
                old(heap)@,
                self.inner().header(),
                ssb.inner().header(),
            ),
            safe_to_send(self.inner().mode_in(old(heap))) ==> final(heap).frontier() == old(
                heap,
            ).frontier(),
            !safe_to_send(self.inner().mode_in(old(heap))) ==> final(heap).frontier()
                == ssb.inner().header() + alloc_size_of::<T>(),
            final(heap).limit() == old(heap).limit(),
    {
        let storage = self.0.storage(heap);
        let is_safe = storage.is_readonly() || storage.is_unique();
        if is_safe {
            SendSafeRocBox(self.0.clone(heap))
        } else {
            SendSafeRocBox(self.0.deep_copy(heap))
        }
    }
}

impl<T> RocBox<T> {
    /// Takes a transferable handle back as a plain one, on the same
    /// allocation; the heap is not involved.
    pub fn from(ssb: SendSafeRocBox<T>) -> (b: RocBox<T>)
        ensures
            b == ssb.inner(),
    {
        ssb.0
    }
}

} // verus!
