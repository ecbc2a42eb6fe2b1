use vstd::prelude::*;
use vstd::layout::size_of;
use crate::handle::{after_clone, after_drop, after_new, released_by_drop, RocBox};
use crate::heap::{Heap, Slot};
use crate::layout::{alloc_alignment_of, lemma_aligned_step};
use crate::storage::Mode;
use crate::transfer::{after_transfer, transferred_to};

verus! {

/// The live allocations after `n` handles on the one at `base` were cloned.
pub open spec fn after_clones<T>(m: Map<usize, Slot<T>>, base: usize, n: nat) -> Map<
    usize,
    Slot<T>,
>
    decreases n,
{
    if n == 0 {
        m
    } else {
        after_clone(after_clones(m, base, (n - 1) as nat), base)
    }
}

/// The live allocations after `n` handles on the one at `base` were
/// dropped, one after the other.
pub open spec fn after_drops<T>(m: Map<usize, Slot<T>>, base: usize, n: nat) -> Map<
    usize,
    Slot<T>,
>
    decreases n,
{
    if n == 0 {
        m
    } else {
        after_drop(after_drops(m, base, (n - 1) as nat), base)
    }
}

/// The layout behind every live handle: the payload sits at a non-null
/// address that is aligned for the payload and for the cell, the cell sits
/// one alignment in front of it, where the allocation starts, and the
/// payload ends inside the heap.
pub proof fn lemma_handle_layout<T>(b: RocBox<T>, heap: Heap<T>)
    requires
        heap.wf(),
        b.live_in(&heap),
    ensures
        b.addr() != 0,
        b.addr() as int % alloc_alignment_of::<T>() as int == 0,
        b.header() as int % alloc_alignment_of::<T>() as int == 0,
        b.addr() == b.header() + alloc_alignment_of::<T>(),
        b.addr() + size_of::<T>() <= heap.frontier(),
{
    broadcast use vstd::layout::align_nonzero;

    lemma_aligned_step(b.header() as int, alloc_alignment_of::<T>() as int);
}

/// Handles on different allocations of one heap have payloads and cells
/// that do not overlap: the lower allocation ends where the higher one
/// starts, or before.
pub proof fn lemma_allocations_are_apart<T>(a: RocBox<T>, b: RocBox<T>, heap: Heap<T>)
    requires
        heap.wf(),
        a.live_in(&heap),
        b.live_in(&heap),
        a.addr() < b.addr(),
    ensures
        a.addr() + size_of::<T>() <= b.header(),
{
}

/// A cell keeps its mode for life: counting a handle or giving one up
/// makes no counted cell read-only and no read-only cell counted, and
/// leaves no count at zero.
pub proof fn lemma_mode_is_permanent(mode: Mode)
    requires
        mode.valid(),
    ensures
        mode.incremented().valid(),
        mode.decreased().valid(),
        (mode.incremented() == Mode::ReadOnly) == (mode == Mode::ReadOnly),
        (mode.decreased() == Mode::ReadOnly) == (mode == Mode::ReadOnly),
        mode.releases() ==> mode != Mode::ReadOnly,
{
}

/// A box that was just made holds the value it was made over, and is its
/// allocation's only handle; so reading it, or taking the value out of it,
/// gives that value back.
pub proof fn lemma_new_holds_contents<T>(m: Map<usize, Slot<T>>, base: usize, contents: T)
    ensures
        after_new(m, base, contents).contains_key(base),
        after_new(m, base, contents)[base].payload == contents,
        after_new(m, base, contents)[base].mode.is_unique(),
{
}

/// Cloning a handle changes no payload and no other allocation, and the
/// two handles share one allocation: dropping either of them afterwards
/// leaves the allocation live, with the cell and the payload it had before
/// the clone, and hands nothing out.
pub proof fn lemma_clone_shares<T>(m: Map<usize, Slot<T>>, base: usize)
    requires
        m.contains_key(base),
        m[base].mode.valid(),
    ensures
        after_clone(m, base).dom() == m.dom(),
        after_clone(m, base)[base].payload == m[base].payload,
        forall|other: usize| other != base ==> after_clone(m, base)[other] == m[other],
        released_by_drop(after_clone(m, base), base) is None,
        after_drop(after_clone(m, base), base) == m,
{
    assert(after_clone(m, base).dom() =~= m.dom());
    assert(after_drop(after_clone(m, base), base) =~= m);
}

/// After `n` clones of a box that was just made, its cell counts `n + 1`
/// handles, and nothing else has changed.
pub proof fn lemma_clones_are_counted<T>(
    m: Map<usize, Slot<T>>,
    base: usize,
    contents: T,
    n: nat,
)
    ensures
        after_clones(after_new(m, base, contents), base, n) == m.insert(
            base,
            Slot { mode: Mode::Counted(n + 1), payload: contents },
        ),
    decreases n,
{
    if n > 0 {
        lemma_clones_are_counted(m, base, contents, (n - 1) as nat);
    }
    assert(after_clones(after_new(m, base, contents), base, n) =~= m.insert(
        base,
        Slot { mode: Mode::Counted(n + 1), payload: contents },
    ));
}

/// Of the handles on a counted allocation, all but the last are dropped
/// without releasing it: after `j` of `count` drops the cell counts
/// `count - j`, and the next drop hands the payload out exactly when it is
/// the last.
pub proof fn lemma_drops_count_down<T>(m: Map<usize, Slot<T>>, base: usize, count: nat, j: nat)
    requires
        m.contains_key(base),
        m[base].mode == Mode::Counted(count),
        j < count,
    ensures
        after_drops(m, base, j) == m.insert(
            base,
            Slot { mode: Mode::Counted((count - j) as nat), payload: m[base].payload },
        ),
        released_by_drop(after_drops(m, base, j), base) == if j + 1 == count {
            Some(m[base].payload)
        } else {
            None
        },
    decreases j,
{
    if j > 0 {
        lemma_drops_count_down(m, base, count, (j - 1) as nat);
    }
    assert(after_drops(m, base, j) =~= m.insert(
        base,
        Slot { mode: Mode::Counted((count - j) as nat), payload: m[base].payload },
    ));
}

/// Dropping every handle on a counted allocation releases it: after as
/// many drops as the cell counts, the allocation is gone and nothing else
/// has changed.
pub proof fn lemma_last_drop_releases<T>(m: Map<usize, Slot<T>>, base: usize, count: nat)
    requires
        m.contains_key(base),
        m[base].mode == Mode::Counted(count),
        count >= 1,
    ensures
        after_drops(m, base, count) == m.remove(base),
        !after_drops(m, base, count).contains_key(base),
{
    lemma_drops_count_down(m, base, count, (count - 1) as nat);
    assert(after_drops(m, base, count) =~= m.remove(base));
}

/// A box that is cloned `n` times right after it was made and then dropped
/// `n + 1` times is released by the last of these drops and by no earlier
/// one, and the heap is left without it.
pub proof fn lemma_clones_then_drops<T>(
    m: Map<usize, Slot<T>>,
    base: usize,
    contents: T,
    n: nat,
)
    ensures
        forall|j: nat|
            j <= n ==> #[trigger] released_by_drop(
                after_drops(after_clones(after_new(m, base, contents), base, n), base, j),
                base,
            ) == if j == n {
                Some(contents)
            } else {
                None
            },
        after_drops(after_clones(after_new(m, base, contents), base, n), base, n + 1)
            == m.remove(base),
{
    lemma_clones_are_counted(m, base, contents, n);
    let full = after_clones(after_new(m, base, contents), base, n);
    assert forall|j: nat| j <= n implies #[trigger] released_by_drop(
        after_drops(full, base, j),
        base,
    ) == if j == n {
        Some(contents)
    } else {
        None
    } by {
        lemma_drops_count_down(full, base, n + 1, j);
    }
    lemma_last_drop_releases(full, base, n + 1);
    assert(full.remove(base) =~= m.remove(base));
}

/// Handles on a read-only allocation come and go without a trace: however
/// many are cloned or dropped, the heap stays as it is, and no drop hands
/// the payload out.
pub proof fn lemma_readonly_is_untouched<T>(m: Map<usize, Slot<T>>, base: usize, n: nat)
    requires
        m.contains_key(base),
        m[base].mode == Mode::ReadOnly,
    ensures
        after_clones(m, base, n) == m,
        after_drops(m, base, n) == m,
        released_by_drop(after_drops(m, base, n), base) is None,
    decreases n,
{
    if n > 0 {
        lemma_readonly_is_untouched(m, base, (n - 1) as nat);
    }
    assert(after_clones(m, base, n) =~= m);
    assert(after_drops(m, base, n) =~= m);
}

/// Making a handle on a unique or read-only allocation transferable
/// copies nothing: the handle stays on its allocation and the heap stays
/// as it is.
pub proof fn lemma_transfer_in_place<T>(m: Map<usize, Slot<T>>, base: usize, fresh: usize)
    requires
        m.contains_key(base),
        m[base].mode.is_unique() || m[base].mode == Mode::ReadOnly,
    ensures
        transferred_to(m, base, fresh) == base,
        after_transfer(m, base, fresh) == m,
{
}

/// Making a handle on a shared counted allocation transferable gives a
/// handle on another allocation, with an equal payload and a count of one.
/// The two allocations are independent: the handle's own keeps its payload
/// and is one handle poorer, and dropping a handle on either of them
/// leaves the other as it is.
pub proof fn lemma_transfer_copies<T>(
    m: Map<usize, Slot<T>>,
    base: usize,
    fresh: usize,
    count: nat,
)
    requires
        m.contains_key(base),
        !m.contains_key(fresh),
        m[base].mode == Mode::Counted(count),
        count > 1,
    ensures
        transferred_to(m, base, fresh) == fresh,
        fresh != base,
        after_transfer(m, base, fresh)[fresh] == (Slot {
            mode: Mode::Counted(1),
            payload: m[base].payload,
        }),
        after_transfer(m, base, fresh)[base] == (Slot {
            mode: Mode::Counted((count - 1) as nat),
            payload: m[base].payload,
        }),
        released_by_drop(after_transfer(m, base, fresh), fresh) == Some(m[base].payload),
        after_drop(after_transfer(m, base, fresh), fresh)[base] == after_transfer(
            m,
            base,
            fresh,
        )[base],
        after_drop(after_transfer(m, base, fresh), base)[fresh] == after_transfer(
            m,
            base,
            fresh,
        )[fresh],
{
}

} // verus!
