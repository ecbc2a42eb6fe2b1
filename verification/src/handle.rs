use core::marker::PhantomData;
use vstd::prelude::*;
use crate::heap::{Heap, Slot};
use crate::layout::{
    align_up, alloc_alignment_of, alloc_size_of, header_address, lemma_align_up,
    lemma_aligned_step, payload_address,
};
use crate::storage::{Mode, Storage};

verus! {

broadcast use vstd::layout::align_nonzero;

/// The live allocations after a box over `contents` was made at `base`.
pub open spec fn after_new<T>(m: Map<usize, Slot<T>>, base: usize, contents: T) -> Map<
    usize,
    Slot<T>,
> {
    m.insert(base, Slot { mode: Mode::Counted(1), payload: contents })
}

/// The live allocations after a handle on the one at `base` was cloned.
pub open spec fn after_clone<T>(m: Map<usize, Slot<T>>, base: usize) -> Map<usize, Slot<T>> {
    m.insert(base, Slot { mode: m[base].mode.incremented(), payload: m[base].payload })
}

/// The live allocations after a handle on the one at `base` was dropped.
pub open spec fn after_drop<T>(m: Map<usize, Slot<T>>, base: usize) -> Map<usize, Slot<T>> {
    if m[base].mode.releases() {
        m.remove(base)
    } else {
        m.insert(base, Slot { mode: m[base].mode.decreased(), payload: m[base].payload })
    }
}

/// What dropping a handle on the allocation at `base` hands out: the
/// payload, if the handle was the last one.
pub open spec fn released_by_drop<T>(m: Map<usize, Slot<T>>, base: usize) -> Option<T> {
    if m[base].mode.releases() {
        Some(m[base].payload)
    } else {
        None
    }
}

/// A handle on one allocation of a heap: the address of its payload.
///
/// A handle is neither `Copy` nor `Clone`: a second handle on the same
/// allocation comes from [`RocBox::clone`], which counts it, and a handle
/// ends in [`RocBox::drop`], which gives the count back.
pub struct RocBox<T> {
    contents: usize,
    marker: PhantomData<T>,
}

impl<T> RocBox<T> {
    /// The address of the payload.
    pub closed spec fn addr(&self) -> usize {
        self.contents
    }

    /// The address of the cell, which is where the allocation starts: one
    /// alignment in front of the payload.
    pub open spec fn header(&self) -> usize {
        header_address(self.addr() as int, alloc_alignment_of::<T>() as int) as usize
    }

    /// Whether the handle's allocation is live in `heap`.
    pub open spec fn live_in(&self, heap: &Heap<T>) -> bool {
        &&& self.addr() >= alloc_alignment_of::<T>()
        &&& heap@.contains_key(self.header())
    }

    /// The cell of the handle's allocation.
    pub open spec fn mode_in(&self, heap: &Heap<T>) -> Mode {
        heap@[self.header()].mode
    }

    /// The payload of the handle's allocation.
    pub open spec fn payload_in(&self, heap: &Heap<T>) -> T {
        heap@[self.header()].payload
    }

    /// The alignment of an allocation: that of the payload or that of the
    /// cell, whichever is greater.
    pub fn alloc_alignment() -> (alignment: usize)
        ensures
            alignment == alloc_alignment_of::<T>(),
            alignment > 0,
    {
        let payload: usize = core::mem::align_of::<T>();
        let cell: usize = core::mem::align_of::<Storage>();
        if payload >= cell {
            payload
        } else {
            cell
        }
    }

    /// Allocates a cell and a payload, sets the count to one and moves
    /// `contents` in. The allocation starts at the first aligned address at
    /// or above the heap's frontier, and the handle points one alignment
    /// behind that.
    pub fn new(contents: T, heap: &mut Heap<T>) -> (b: RocBox<T>)
        requires
            old(heap).wf(),
            old(heap).can_allocate(),
        ensures
            final(heap).wf(),
            b.live_in(final(heap)),
            b.header() == align_up(old(heap).frontier() as int, alloc_alignment_of::<T>() as int),
            b.addr() == payload_address(b.header() as int, alloc_alignment_of::<T>() as int),
            b.addr() != 0,
            b.addr() as int % alloc_alignment_of::<T>() as int == 0,
            !old(heap)@.contains_key(b.header()),
            final(heap)@ == after_new(old(heap)@, b.header(), contents),
            final(heap).frontier() == b.header() + alloc_size_of::<T>(),
            final(heap).limit() == old(heap).limit(),
    {
        Self::with_storage(Storage::new_reference_counted(), contents, heap)
    }

    /// Like [`RocBox::new`], for data that is never counted and never
    /// released: the cell is read-only from the start.
    pub fn new_readonly(contents: T, heap: &mut Heap<T>) -> (b: RocBox<T>)
        requires
            old(heap).wf(),
            old(heap).can_allocate(),
        ensures
            final(heap).wf(),
            b.live_in(final(heap)),
            b.header() == align_up(old(heap).frontier() as int, alloc_alignment_of::<T>() as int),
            b.addr() == payload_address(b.header() as int, alloc_alignment_of::<T>() as int),
            b.addr() != 0,
            b.addr() as int % alloc_alignment_of::<T>() as int == 0,
            !old(heap)@.contains_key(b.header()),
            final(heap)@ == old(heap)@.insert(
                b.header(),
                Slot { mode: Mode::ReadOnly, payload: contents },
            ),
            final(heap).frontier() == b.header() + alloc_size_of::<T>(),
            final(heap).limit() == old(heap).limit(),
    {
        Self::with_storage(Storage::new_readonly(), contents, heap)
    }

    fn with_storage(storage: Storage, contents: T, heap: &mut Heap<T>) -> (b: RocBox<T>)
        requires
            old(heap).wf(),
            old(heap).can_allocate(),
        ensures
            final(heap).wf(),
            b.live_in(final(heap)),
            b.header() == align_up(old(heap).frontier() as int, alloc_alignment_of::<T>() as int),
            b.addr() == payload_address(b.header() as int, alloc_alignment_of::<T>() as int),
            b.addr() != 0,
            b.addr() as int % alloc_alignment_of::<T>() as int == 0,
            !old(heap)@.contains_key(b.header()),
            final(heap)@ == old(heap)@.insert(
                b.header(),
                Slot { mode: storage@, payload: contents },
            ),
            final(heap).frontier() == b.header() + alloc_size_of::<T>(),
            final(heap).limit() == old(heap).limit(),
    {
        let alignment = Self::alloc_alignment();
        let bytes: usize = core::mem::size_of::<T>() + alignment;
        let base = heap.allocate(bytes, alignment);
        proof {
            lemma_aligned_step(base as int, alignment as int);
            lemma_align_up(old(heap).frontier() as int, alignment as int);
        }
        heap.install(base, storage, contents);
        RocBox { contents: base + alignment, marker: PhantomData }
    }

    /// The address of the payload.
    pub fn address(&self) -> (a: usize)
        ensures
            a == self.addr(),
    {
        self.contents
    }

    /// Whether the handle's allocation is live in `heap`.
    pub fn is_live_in(&self, heap: &Heap<T>) -> (r: bool)
        ensures
            r == self.live_in(heap),
    {
        let alignment = Self::alloc_alignment();
        self.contents >= alignment && heap.is_live(self.contents - alignment)
    }

    /// Where the handle's allocation starts: the cell sits one alignment in
    /// front of the payload.
    fn cell_address(&self) -> (base: usize)
        requires
            self.addr() >= alloc_alignment_of::<T>(),
        ensures
            base == self.header(),
    {
        self.contents - Self::alloc_alignment()
    }

    /// The cell of the handle's allocation, as it stands.
    pub fn storage(&self, heap: &Heap<T>) -> (storage: Storage)
        requires
            self.live_in(heap),
        ensures
            storage@ == self.mode_in(heap),
    {
        heap.cell(self.cell_address())
    }

    /// The payload, for reading.
    pub fn deref<'a>(&self, heap: &'a Heap<T>) -> (payload: &'a T)
        requires
            self.live_in(heap),
        ensures
            *payload == self.payload_in(heap),
    {
        heap.payload(self.cell_address())
    }

    /// A second handle on the same allocation. A counted cell counts it; a
    /// read-only cell is not written.
    pub fn clone(&self, heap: &mut Heap<T>) -> (b: RocBox<T>)
        requires
            old(heap).wf(),
            self.live_in(old(heap)),
            self.mode_in(old(heap)).can_increment(),
        ensures
            final(heap).wf(),
            b.addr() == self.addr(),
            b.live_in(final(heap)),
            self.live_in(final(heap)),
            final(heap)@ == after_clone(old(heap)@, self.header()),
            self.mode_in(old(heap)) == Mode::ReadOnly ==> final(heap)@ == old(heap)@,
            final(heap).frontier() == old(heap).frontier(),
            final(heap).limit() == old(heap).limit(),
    {
        let base = self.cell_address();
        let mut new_storage = heap.cell(base);
        if !new_storage.is_readonly() {
            new_storage.increment_reference_count();
            heap.set_cell(base, new_storage);
        }
        assert(heap@ =~= after_clone(old(heap)@, self.header()));
        RocBox { contents: self.contents, marker: PhantomData }
    }

    /// Ends the handle. The last handle on a counted allocation releases
    /// it, and its payload is handed out for the caller to destroy; any other
    /// handle on a counted allocation lowers the count by one; a read-only
    /// allocation is neither written nor released.
    pub fn drop(self, heap: &mut Heap<T>) -> (released: Option<T>)
        requires
            old(heap).wf(),
            self.live_in(old(heap)),
        ensures
            final(heap).wf(),
            final(heap)@ == after_drop(old(heap)@, self.header()),
            released == released_by_drop(old(heap)@, self.header()),
            self.mode_in(old(heap)) == Mode::ReadOnly ==> final(heap)@ == old(heap)@,
            final(heap).frontier() == old(heap).frontier(),
            final(heap).limit() == old(heap).limit(),
    {
        let base = self.cell_address();
        let mut new_storage = heap.cell(base);
        let needs_dealloc = new_storage.decrease();
        if needs_dealloc {
            let alignment = Self::alloc_alignment();
            Some(heap.deallocate(base, alignment))
        } else {
            if !new_storage.is_readonly() {
                heap.set_cell(base, new_storage);
            }
            assert(heap@ =~= after_drop(old(heap)@, self.header()));
            None
        }
    }
}

/// These operations read the payload out of its allocation bit for bit and
/// leave the allocation holding it. `Copy` is what makes that sound for
/// every payload type; a payload that owns a resource cannot be read out
/// this way, so these operations are not offered for it.
impl<T: Copy> RocBox<T> {
    /// Ends the handle and returns the payload, leaving the allocation and
    /// its cell as they are. It is for the sole owner of an allocation:
    /// nothing else can reach it afterwards.
    pub fn into_inner(self, heap: &Heap<T>) -> (contents: T)
        requires
            self.live_in(heap),
            self.mode_in(heap).is_unique(),
        ensures
            contents == self.payload_in(heap),
    {
        *heap.payload(self.cell_address())
    }

    /// A handle on a new allocation with a count of one and a copy of the
    /// payload. The handle's own allocation is left as it is.
    pub(crate) fn deep_copy(&self, heap: &mut Heap<T>) -> (b: RocBox<T>)
        requires
            old(heap).wf(),
            old(heap).can_allocate(),
            self.live_in(old(heap)),
        ensures
            final(heap).wf(),
            b.live_in(final(heap)),
            self.live_in(final(heap)),
            b.header() == align_up(old(heap).frontier() as int, alloc_alignment_of::<T>() as int),
            b.addr() == payload_address(b.header() as int, alloc_alignment_of::<T>() as int),
            b.addr() != self.addr(),
            !old(heap)@.contains_key(b.header()),
            final(heap)@ == after_new(old(heap)@, b.header(), self.payload_in(old(heap))),
            final(heap).frontier() == b.header() + alloc_size_of::<T>(),
            final(heap).limit() == old(heap).limit(),
    {
        let contents = *heap.payload(self.cell_address());
        Self::new(contents, heap)
    }
}

} // verus!
