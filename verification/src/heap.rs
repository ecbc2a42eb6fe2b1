use std::collections::HashMap;
use vstd::prelude::*;
use crate::handle::RocBox;
use crate::layout::{align_up, align_up_checked, alloc_alignment_of, alloc_size_of, lemma_align_up};
use crate::storage::{Mode, Storage};

verus! {

broadcast use vstd::std_specs::hash::group_hash_axioms;

/// What one live allocation holds, as the contracts see it.
pub struct Slot<T> {
    pub mode: Mode,
    pub payload: T,
}

/// One live allocation: the cell, and behind it the payload.
struct Allocation<T> {
    storage: Storage,
    payload: T,
}

/// The memory that managed boxes live in.
///
/// Addresses are handed out upwards from a frontier and never twice, up to a
/// limit that is fixed when the heap is made. Address zero is the null
/// address and is never handed out.
pub struct Heap<T> {
    next: usize,
    limit: usize,
    blocks: HashMap<usize, Allocation<T>>,
}

impl<T> View for Heap<T> {
    type V = Map<usize, Slot<T>>;

    /// The live allocations, by the address at which each one starts.
    closed spec fn view(&self) -> Map<usize, Slot<T>> {
        Map::new(
            |base: usize| self.blocks@.contains_key(base),
            |base: usize|
                Slot { mode: self.blocks@[base].storage@, payload: self.blocks@[base].payload },
        )
    }
}

impl<T> Heap<T> {
    /// The lowest address that was never handed out.
    pub closed spec fn frontier(&self) -> usize {
        self.next
    }

    /// The end of the address space.
    pub closed spec fn limit(&self) -> usize {
        self.limit
    }

    /// Whether a request for `size` bytes at `alignment` is served.
    pub open spec fn fits(&self, size: int, alignment: int) -> bool {
        align_up(self.frontier() as int, alignment) + size <= self.limit()
    }

    /// Every allocation lies below the frontier, at a non-null address that
    /// is aligned for a cell and a `T`, with room for both; no two
    /// allocations overlap; and no count is zero.
    pub open spec fn wf(&self) -> bool {
        &&& self.frontier() > 0
        &&& forall|low: usize, high: usize|
            #![trigger self@.contains_key(low), self@.contains_key(high)]
            self@.contains_key(low) && self@.contains_key(high) && low < high ==> low
                + alloc_size_of::<T>() <= high
        &&& forall|base: usize| #[trigger]
            self@.contains_key(base) ==> {
                &&& base > 0
                &&& base as int % alloc_alignment_of::<T>() as int == 0
                &&& base + alloc_size_of::<T>() <= self.frontier()
                &&& self@[base].mode.valid()
            }
    }

    /// Whether one more box can be allocated.
    pub open spec fn can_allocate(&self) -> bool {
        self.fits(alloc_size_of::<T>() as int, alloc_alignment_of::<T>() as int)
    }

    /// Whether one more box can be allocated.
    pub fn has_room(&self) -> (r: bool)
        ensures
            r == self.can_allocate(),
    {
        let alignment = RocBox::<T>::alloc_alignment();
        proof {
            lemma_align_up(self.next as int, alignment as int);
        }
        match align_up_checked(self.next, alignment) {
            Some(start) => match start.checked_add(core::mem::size_of::<T>()) {
                Some(payload_end) => match payload_end.checked_add(alignment) {
                    Some(end) => end <= self.limit,
                    None => false,
                },
                None => false,
            },
            None => false,
        }
    }

    /// A heap without allocations whose addresses end at `limit`.
    pub fn new(limit: usize) -> (heap: Heap<T>)
        ensures
            heap@ == Map::<usize, Slot<T>>::empty(),
            heap.frontier() == 1,
            heap.limit() == limit,
            heap.wf(),
    {
        let heap = Heap { next: 1, limit, blocks: HashMap::new() };
        assert(heap@ =~= Map::<usize, Slot<T>>::empty());
        heap
    }

    /// The number of live allocations.
    pub fn live_count(&self) -> (n: usize)
        ensures
            n == self@.len(),
    {
        assert(self@.dom() =~= self.blocks@.dom());
        self.blocks.len()
    }

    /// Whether an allocation starts at `base`.
    pub fn is_live(&self, base: usize) -> (r: bool)
        ensures
            r == self@.contains_key(base),
    {
        self.blocks.contains_key(&base)
    }

    /// Reserves `size` bytes at the first multiple of `alignment` at or
    /// above the frontier and returns where they start, or the null address
    /// when they would end beyond the limit.
    pub(crate) fn allocate(&mut self, size: usize, alignment: usize) -> (base: usize)
        requires
            alignment > 0,
            old(self).frontier() > 0,
        ensures
            final(self)@ == old(self)@,
            final(self).limit() == old(self).limit(),
            old(self).fits(size as int, alignment as int) ==> {
                &&& base == align_up(old(self).frontier() as int, alignment as int)
                &&& base != 0
                &&& base % alignment == 0
                &&& final(self).frontier() == base + size
            },
            !old(self).fits(size as int, alignment as int) ==> {
                &&& base == 0
                &&& final(self).frontier() == old(self).frontier()
            },
    {
        proof {
            lemma_align_up(self.next as int, alignment as int);
        }
        match align_up_checked(self.next, alignment) {
            Some(start) => match start.checked_add(size) {
                Some(end) => {
                    if end <= self.limit {
                        self.next = end;
                        start
                    } else {
                        0
                    }
                },
                None => 0,
            },
            None => 0,
        }
    }

    /// Makes the bytes at `base` a live allocation with the given cell and
    /// payload.
    pub(crate) fn install(&mut self, base: usize, storage: Storage, payload: T)
        requires
            !old(self)@.contains_key(base),
        ensures
            final(self)@ == old(self)@.insert(base, Slot { mode: storage@, payload }),
            final(self).frontier() == old(self).frontier(),
            final(self).limit() == old(self).limit(),
    {
        self.blocks.insert(base, Allocation { storage, payload });
        assert(self@ =~= old(self)@.insert(base, Slot { mode: storage@, payload }));
    }

    /// Releases the allocation that starts at `base`, which was made at
    /// `alignment`, and hands its payload out.
    pub(crate) fn deallocate(&mut self, base: usize, alignment: usize) -> (payload: T)
        requires
            old(self)@.contains_key(base),
            alignment > 0,
            base % alignment == 0,
        ensures
            final(self)@ == old(self)@.remove(base),
            payload == old(self)@[base].payload,
            final(self).frontier() == old(self).frontier(),
            final(self).limit() == old(self).limit(),
    {
        let gone = self.blocks.remove(&base);
        assert(self@ =~= old(self)@.remove(base));
        match gone {
            Some(allocation) => allocation.payload,
            None => vstd::pervasive::unreached(),
        }
    }

    /// Reads the cell of the allocation that starts at `base`.
    pub(crate) fn cell(&self, base: usize) -> (storage: Storage)
        requires
            self@.contains_key(base),
        ensures
            storage@ == self@[base].mode,
    {
        match self.blocks.get(&base) {
            Some(allocation) => allocation.storage,
            None => vstd::pervasive::unreached(),
        }
    }

    /// Writes the cell of the allocation that starts at `base`.
    pub(crate) fn set_cell(&mut self, base: usize, storage: Storage)
        requires
            old(self)@.contains_key(base),
        ensures
            final(self)@ == old(self)@.insert(
                base,
                Slot { mode: storage@, payload: old(self)@[base].payload },
            ),
            final(self).frontier() == old(self).frontier(),
            final(self).limit() == old(self).limit(),
    {
        let gone = self.blocks.remove(&base);
        match gone {
            Some(allocation) => {
                self.blocks.insert(base, Allocation { storage, payload: allocation.payload });
            },
            None => {},
        }
        assert(self@ =~= old(self)@.insert(
            base,
            Slot { mode: storage@, payload: old(self)@[base].payload },
        ));
    }

    /// The payload of the allocation that starts at `base`.
    pub(crate) fn payload(&self, base: usize) -> (payload: &T)
        requires
            self@.contains_key(base),
        ensures
            *payload == self@[base].payload,
    {
        match self.blocks.get(&base) {
            Some(allocation) => &allocation.payload,
            None => vstd::pervasive::unreached(),
        }
    }
}

} // verus!
