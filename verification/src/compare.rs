use core::cmp::Ordering;
use vstd::prelude::*;
use vstd::std_specs::cmp::{OrdSpec, PartialEqSpec, PartialOrdSpec};
use crate::handle::RocBox;
use crate::heap::Heap;

verus! {

impl<T> RocBox<T> {
    /// Whether the two payloads are equal. Which allocations the handles
    /// point to plays no part: two handles on one allocation are equal
    /// because the payload equals itself.
    pub fn eq<U>(&self, heap: &Heap<T>, other: &RocBox<U>, other_heap: &Heap<U>) -> (r: bool) where
        T: PartialEq<U>,

        requires
            self.live_in(heap),
            other.live_in(other_heap),
        ensures
            T::obeys_eq_spec() ==> r == self.payload_in(heap).eq_spec(
                &other.payload_in(other_heap),
            ),
    {
        self.deref(heap).eq(other.deref(other_heap))
    }

    /// How the two payloads compare, if they do.
    pub fn partial_cmp<U>(
        &self,
        heap: &Heap<T>,
        other: &RocBox<U>,
        other_heap: &Heap<U>,
    ) -> (r: Option<Ordering>) where T: PartialOrd<U>
        requires
            self.live_in(heap),
            other.live_in(other_heap),
        ensures
            T::obeys_partial_cmp_spec() ==> r == self.payload_in(heap).partial_cmp_spec(
                &other.payload_in(other_heap),
            ),
    {
        self.deref(heap).partial_cmp(other.deref(other_heap))
    }

    /// How the two payloads compare.
    pub fn cmp(&self, heap: &Heap<T>, other: &RocBox<T>, other_heap: &Heap<T>) -> (r:
        Ordering) where T: Ord
        requires
            self.live_in(heap),
            other.live_in(other_heap),
        ensures
            T::obeys_cmp_spec() ==> r == self.payload_in(heap).cmp_spec(
                &other.payload_in(other_heap),
            ),
    {
        self.deref(heap).cmp(other.deref(other_heap))
    }
}

} // verus!
