use vstd::prelude::*;
use vstd::layout::{align_of, size_of};
use crate::storage::Storage;

verus! {

/// The alignment of an allocation that holds a storage cell and a `T`.
pub open spec fn alloc_alignment_of<T>() -> nat {
    if align_of::<T>() >= align_of::<Storage>() {
        align_of::<T>()
    } else {
        align_of::<Storage>()
    }
}

/// The number of bytes of such an allocation: the payload, and in front of
/// it one alignment's worth of room for the cell.
pub open spec fn alloc_size_of<T>() -> nat {
    size_of::<T>() + alloc_alignment_of::<T>()
}

/// The first multiple of `alignment` at or above `addr`.
pub open spec fn align_up(addr: int, alignment: int) -> int {
    if addr % alignment == 0 {
        addr
    } else {
        addr + alignment - addr % alignment
    }
}

pub proof fn lemma_align_up(addr: int, alignment: int)
    requires
        addr >= 0,
        alignment > 0,
    ensures
        align_up(addr, alignment) % alignment == 0,
        addr <= align_up(addr, alignment) < addr + alignment,
{
    let r = addr % alignment;
    let q = addr / alignment;
    vstd::arithmetic::div_mod::lemma_fundamental_div_mod(addr, alignment);
    vstd::arithmetic::div_mod::lemma_mod_bound(addr, alignment);
    if r != 0 {
        assert(addr + alignment - r == alignment * (q + 1)) by (nonlinear_arith)
            requires
                addr == alignment * q + r,
        ;
        vstd::arithmetic::div_mod::lemma_mod_multiples_basic(q + 1, alignment);
        assert(alignment * (q + 1) == (q + 1) * alignment) by (nonlinear_arith);
    }
}

/// Adding the alignment to an aligned address gives an aligned address.
pub proof fn lemma_aligned_step(addr: int, alignment: int)
    requires
        alignment > 0,
        addr % alignment == 0,
    ensures
        (addr + alignment) % alignment == 0,
{
    vstd::arithmetic::div_mod::lemma_mod_add_multiples_vanish(addr, alignment);
}

/// The address of the payload of the allocation that starts at `base`.
pub open spec fn payload_address(base: int, alignment: int) -> int {
    base + alignment
}

/// The address of the cell in front of the payload at `contents`.
pub open spec fn header_address(contents: int, alignment: int) -> int {
    contents - alignment
}

/// The first multiple of `alignment` at or above `addr`, if a machine word
/// holds it.
pub fn align_up_checked(addr: usize, alignment: usize) -> (r: Option<usize>)
    requires
        alignment > 0,
    ensures
        match r {
            Some(a) => a == align_up(addr as int, alignment as int),
            None => align_up(addr as int, alignment as int) > usize::MAX,
        },
{
    let rem: usize = addr % alignment;
    if rem == 0 {
        Some(addr)
    } else {
        addr.checked_add(alignment - rem)
    }
}

} // verus!
