use std::cmp::Ordering;
use std::fmt;

use managed_box::handle::RocBox;
use managed_box::heap::Heap;
use managed_box::storage::Storage;
use managed_box::transfer::SendSafeRocBox;

#[test]
fn new_box_holds_its_value() {
    let mut heap: Heap<u64> = Heap::new(4096);
    assert!(heap.has_room());
    let b = RocBox::new(42u64, &mut heap);
    assert!(b.is_live_in(&heap));
    assert_eq!(*b.deref(&heap), 42);
    assert_eq!(b.storage(&heap).reference_count(), Some(1));
    assert!(b.storage(&heap).is_unique());
    assert_eq!(heap.live_count(), 1);
}

#[test]
fn layout_puts_the_cell_one_alignment_before_the_payload() {
    let mut heap: Heap<u64> = Heap::new(4096);
    let alignment = RocBox::<u64>::alloc_alignment();
    assert_eq!(
        alignment,
        std::mem::align_of::<u64>().max(std::mem::align_of::<Storage>())
    );
    let b = RocBox::new(7u64, &mut heap);
    // The frontier starts at 1, so the first aligned address is `alignment`.
    assert_eq!(b.address(), 2 * alignment);
    assert_eq!(b.address() % alignment, 0);
    assert!(heap.is_live(b.address() - alignment));
    assert!(!heap.is_live(b.address()));
    let c = RocBox::new(8u64, &mut heap);
    // The first allocation ends at alignment + size + alignment.
    let end = alignment + std::mem::size_of::<u64>() + alignment;
    let next = (end + alignment - 1) / alignment * alignment;
    assert_eq!(c.address(), next + alignment);
}

#[test]
fn alignment_of_a_wide_payload_wins() {
    assert_eq!(
        RocBox::<u128>::alloc_alignment(),
        std::mem::align_of::<u128>().max(std::mem::align_of::<Storage>())
    );
    assert_eq!(
        RocBox::<u8>::alloc_alignment(),
        std::mem::align_of::<Storage>()
    );
}

#[test]
fn heap_without_room_says_so() {
    let alignment = RocBox::<u64>::alloc_alignment();
    let size = std::mem::size_of::<u64>() + alignment;
    // Room for exactly one box: it starts at `alignment`.
    let mut heap: Heap<u64> = Heap::new(alignment + size);
    assert!(heap.has_room());
    let b = RocBox::new(1u64, &mut heap);
    assert!(!heap.has_room());
    assert_eq!(b.drop(&mut heap), Some(1));
    // Addresses are never handed out twice.
    assert!(!heap.has_room());
    let small: Heap<u64> = Heap::new(alignment + size - 1);
    assert!(!small.has_room());
    let none: Heap<u64> = Heap::new(0);
    assert!(!none.has_room());
}

#[test]
fn clone_shares_the_allocation() {
    let mut heap: Heap<u64> = Heap::new(4096);
    let b = RocBox::new(5u64, &mut heap);
    let c = b.clone(&mut heap);
    assert_eq!(c.address(), b.address());
    assert_eq!(*c.deref(&heap), *b.deref(&heap));
    assert_eq!(b.storage(&heap).reference_count(), Some(2));
    assert_eq!(heap.live_count(), 1);
    assert_eq!(b.drop(&mut heap), None);
    assert_eq!(*c.deref(&heap), 5);
    assert!(c.storage(&heap).is_unique());
}

#[test]
fn into_inner_returns_the_value() {
    let mut heap: Heap<u64> = Heap::new(4096);
    let b = RocBox::new(99u64, &mut heap);
    assert_eq!(b.into_inner(&heap), 99);
    assert_eq!(heap.live_count(), 1);
}

#[test]
fn n_clones_then_n_plus_one_drops_release_once() {
    let mut heap: Heap<String> = Heap::new(1 << 20);
    let first = RocBox::new(String::from("payload"), &mut heap);
    let base = first.address() - RocBox::<String>::alloc_alignment();
    let mut handles = Vec::new();
    for i in 0..10usize {
        handles.push(first.clone(&mut heap));
        assert_eq!(first.storage(&heap).reference_count(), Some(i + 2));
    }
    handles.push(first);
    let mut destroyed = 0;
    let total = handles.len();
    assert_eq!(total, 11);
    for (i, handle) in handles.into_iter().enumerate() {
        assert!(heap.is_live(base));
        let released = handle.drop(&mut heap);
        if i + 1 < total {
            assert!(released.is_none());
        } else {
            assert_eq!(released, Some(String::from("payload")));
        }
        if released.is_some() {
            destroyed += 1;
        }
    }
    assert_eq!(destroyed, 1);
    assert!(!heap.is_live(base));
    assert_eq!(heap.live_count(), 0);
}

#[test]
fn scenario_clone_drop_drop() {
    let mut heap: Heap<i32> = Heap::new(4096);
    let mut destroyed = 0;
    let first = RocBox::new(42, &mut heap);
    assert_eq!(first.storage(&heap).reference_count(), Some(1));
    let copy = first.clone(&mut heap);
    assert_eq!(copy.storage(&heap).reference_count(), Some(2));
    if first.drop(&mut heap).is_some() {
        destroyed += 1;
    }
    assert_eq!(copy.storage(&heap).reference_count(), Some(1));
    assert_eq!(heap.live_count(), 1);
    assert_eq!(destroyed, 0);
    let released = copy.drop(&mut heap);
    assert_eq!(released, Some(42));
    let other: Heap<i32> = Heap::new(4096);
    assert!(!RocBox::new(1, &mut Heap::new(4096)).is_live_in(&other));
    if released.is_some() {
        destroyed += 1;
    }
    assert_eq!(destroyed, 1);
    assert_eq!(heap.live_count(), 0);
}

#[test]
fn scenario_readonly_is_never_destroyed() {
    let mut heap: Heap<i32> = Heap::new(4096);
    let mut destroyed = 0;
    let b = RocBox::new_readonly(7, &mut heap);
    assert!(b.storage(&heap).is_readonly());
    let mut handles = Vec::new();
    for _ in 0..5 {
        handles.push(b.clone(&mut heap));
        assert_eq!(b.storage(&heap), Storage::new_readonly());
    }
    handles.push(b);
    assert_eq!(handles.len(), 6);
    let address = handles[0].address();
    for handle in handles {
        assert_eq!(handle.address(), address);
        if handle.drop(&mut heap).is_some() {
            destroyed += 1;
        }
        assert_eq!(heap.live_count(), 1);
    }
    assert_eq!(destroyed, 0);
    assert!(heap.is_live(address - RocBox::<i32>::alloc_alignment()));
}

#[test]
fn storage_cell_counts() {
    let mut cell = Storage::new_reference_counted();
    assert!(cell.is_unique());
    assert!(!cell.is_readonly());
    cell.increment_reference_count();
    assert_eq!(cell.reference_count(), Some(2));
    assert!(!cell.is_unique());
    assert!(!cell.decrease());
    assert_eq!(cell.reference_count(), Some(1));
    assert!(cell.decrease());
    assert_eq!(cell.reference_count(), Some(1));
    let mut fixed = Storage::new_readonly();
    assert!(fixed.is_readonly());
    assert!(!fixed.is_unique());
    assert!(!fixed.decrease());
    assert_eq!(fixed.reference_count(), None);
    assert!(fixed.is_readonly());
}

#[test]
fn unique_box_is_transferred_in_place() {
    let mut heap: Heap<u64> = Heap::new(4096);
    let b = RocBox::new(11u64, &mut heap);
    let address = b.address();
    let sendable = SendSafeRocBox::from(b, &mut heap);
    let back = RocBox::from(sendable);
    assert_eq!(back.address(), address);
    assert_eq!(heap.live_count(), 1);
    assert_eq!(*back.deref(&heap), 11);
    assert!(back.storage(&heap).is_unique());
}

#[test]
fn readonly_box_is_transferred_in_place() {
    let mut heap: Heap<u64> = Heap::new(4096);
    let b = RocBox::new_readonly(11u64, &mut heap);
    let other = b.clone(&mut heap);
    let sendable = SendSafeRocBox::from(b, &mut heap);
    let back = RocBox::from(sendable);
    assert_eq!(back.address(), other.address());
    assert_eq!(heap.live_count(), 1);
}

#[test]
fn shared_box_is_copied_for_transfer() {
    let mut heap: Heap<u64> = Heap::new(4096);
    let b = RocBox::new(13u64, &mut heap);
    let kept = b.clone(&mut heap);
    let address = b.address();
    let sendable = SendSafeRocBox::from(b, &mut heap);
    let moved = RocBox::from(sendable);
    assert_ne!(moved.address(), address);
    assert_eq!(*moved.deref(&heap), 13);
    assert_eq!(*kept.deref(&heap), 13);
    assert_eq!(heap.live_count(), 2);
    // The handle that was given away no longer counts.
    assert!(kept.storage(&heap).is_unique());
    assert!(moved.storage(&heap).is_unique());
    // Each allocation is released on its own.
    assert_eq!(moved.drop(&mut heap), Some(13));
    assert_eq!(*kept.deref(&heap), 13);
    assert_eq!(kept.drop(&mut heap), Some(13));
    assert_eq!(heap.live_count(), 0);
}

#[test]
fn cloning_a_transferable_box() {
    let mut heap: Heap<u64> = Heap::new(4096);
    let b = RocBox::new(21u64, &mut heap);
    let sendable = SendSafeRocBox::from(b, &mut heap);
    // Unique: the clone shares, and the cell counts it.
    let second = sendable.clone(&mut heap);
    let first = RocBox::from(sendable);
    let second = SendSafeRocBox::from(RocBox::from(second), &mut heap);
    let second = RocBox::from(second);
    // `second` was shared when it was made transferable again: a copy.
    assert_ne!(first.address(), second.address());
    assert_eq!(heap.live_count(), 2);
    assert!(first.storage(&heap).is_unique());
    assert!(second.storage(&heap).is_unique());

    let third = first.clone(&mut heap);
    let wrapped = SendSafeRocBox::from(third, &mut heap);
    assert_eq!(heap.live_count(), 3);
    let fixed = RocBox::new_readonly(1u64, &mut heap);
    let fixed = SendSafeRocBox::from(fixed, &mut heap);
    let again = RocBox::from(fixed.clone(&mut heap));
    assert_eq!(again.address(), RocBox::from(fixed).address());
    assert_eq!(*RocBox::from(wrapped).deref(&heap), 21);
}

#[test]
fn shared_transferable_clone_copies() {
    let mut heap: Heap<u64> = Heap::new(4096);
    let b = RocBox::new(3u64, &mut heap);
    let sendable = SendSafeRocBox::from(b, &mut heap);
    let shared = sendable.clone(&mut heap);
    // Two handles now: the next clone takes a copy.
    let copy = RocBox::from(shared.clone(&mut heap));
    let shared = RocBox::from(shared);
    assert_ne!(copy.address(), shared.address());
    assert_eq!(shared.storage(&heap).reference_count(), Some(2));
    assert_eq!(copy.storage(&heap).reference_count(), Some(1));
    assert_eq!(*copy.deref(&heap), 3);
    assert_eq!(RocBox::from(sendable).address(), shared.address());
}

#[test]
fn boxes_compare_by_payload() {
    let mut heap: Heap<u64> = Heap::new(4096);
    let a = RocBox::new(1u64, &mut heap);
    let b = RocBox::new(1u64, &mut heap);
    let c = RocBox::new(2u64, &mut heap);
    assert_ne!(a.address(), b.address());
    assert!(a.eq(&heap, &b, &heap));
    assert!(!a.eq(&heap, &c, &heap));
    assert_eq!(a.partial_cmp(&heap, &c, &heap), Some(Ordering::Less));
    assert_eq!(c.cmp(&heap, &a, &heap), Ordering::Greater);
    assert_eq!(a.cmp(&heap, &b, &heap), Ordering::Equal);
    let mut other: Heap<u64> = Heap::new(4096);
    let d = RocBox::new(2u64, &mut other);
    assert!(c.eq(&heap, &d, &other));
}

#[test]
fn box_formats_as_its_payload() {
    let mut heap: Heap<(i32, bool)> = Heap::new(4096);
    let b = RocBox::new((3, true), &mut heap);
    assert_eq!(b.fmt(&heap), Some(format!("{:?}", (3, true))));
    let mut words: Heap<String> = Heap::new(4096);
    let w = RocBox::new(String::from("hi"), &mut words);
    assert_eq!(w.fmt(&words), Some(String::from("\"hi\"")));
}

#[test]
fn payload_without_bytes_still_gets_a_cell() {
    let mut heap: Heap<()> = Heap::new(4096);
    let alignment = RocBox::<()>::alloc_alignment();
    assert_eq!(alignment, std::mem::align_of::<Storage>());
    let a = RocBox::new((), &mut heap);
    let b = RocBox::new((), &mut heap);
    assert_eq!(a.address(), 2 * alignment);
    assert_eq!(b.address(), 3 * alignment);
    assert_eq!(heap.live_count(), 2);
    assert_eq!(a.drop(&mut heap), Some(()));
    assert!(b.is_live_in(&heap));
}

#[test]
fn count_at_the_top_of_the_word() {
    let mut cell = Storage { word: usize::MAX };
    assert!(!cell.is_readonly());
    assert!(!cell.is_unique());
    assert_eq!(cell.reference_count(), Some(usize::MAX));
    assert!(!cell.decrease());
    assert_eq!(cell.reference_count(), Some(usize::MAX - 1));
    cell.increment_reference_count();
    assert_eq!(cell.reference_count(), Some(usize::MAX));
}

#[test]
fn dropping_one_box_leaves_the_others() {
    let mut heap: Heap<u32> = Heap::new(4096);
    let a = RocBox::new(1u32, &mut heap);
    let b = RocBox::new(2u32, &mut heap);
    let c = RocBox::new(3u32, &mut heap);
    assert_eq!(b.drop(&mut heap), Some(2));
    assert_eq!(*a.deref(&heap), 1);
    assert_eq!(*c.deref(&heap), 3);
    assert_eq!(heap.live_count(), 2);
    let d = RocBox::new(4u32, &mut heap);
    assert!(d.address() > c.address());
    assert_eq!(*d.deref(&heap), 4);
}

#[test]
fn zero_cost_transfer_allocates_nothing() {
    let alignment = RocBox::<u64>::alloc_alignment();
    let size = std::mem::size_of::<u64>() + alignment;
    // Room for exactly two boxes.
    let first_end = alignment + size;
    let second_start = (first_end + alignment - 1) / alignment * alignment;
    let mut heap: Heap<u64> = Heap::new(second_start + size);
    let b = RocBox::new(5u64, &mut heap);
    assert!(heap.has_room());
    // Unique: made transferable in place.
    let sendable = SendSafeRocBox::from(b, &mut heap);
    assert!(heap.has_room());
    // Unique: cloned by sharing.
    let shared = sendable.clone(&mut heap);
    assert!(heap.has_room());
    assert_eq!(heap.live_count(), 1);
    let first = RocBox::from(sendable);
    let second = RocBox::from(shared);
    assert_eq!(first.address(), second.address());
    assert_eq!(first.storage(&heap).reference_count(), Some(2));
    // The next allocation starts where it would have started before.
    let next = RocBox::new(6u64, &mut heap);
    assert_eq!(next.address(), second_start + alignment);
    assert!(!heap.has_room());
}

#[test]
fn zero_cost_transfer_of_readonly_allocates_nothing() {
    let alignment = RocBox::<u64>::alloc_alignment();
    let size = std::mem::size_of::<u64>() + alignment;
    let first_end = alignment + size;
    let second_start = (first_end + alignment - 1) / alignment * alignment;
    let mut heap: Heap<u64> = Heap::new(second_start + size);
    let fixed = RocBox::new_readonly(9u64, &mut heap);
    let other = fixed.clone(&mut heap);
    let sendable = SendSafeRocBox::from(fixed, &mut heap);
    let again = sendable.clone(&mut heap);
    assert!(heap.has_room());
    assert_eq!(heap.live_count(), 1);
    assert_eq!(RocBox::from(again).address(), other.address());
    assert!(other.storage(&heap).is_readonly());
    let next = RocBox::new(1u64, &mut heap);
    assert_eq!(next.address(), second_start + alignment);
    assert_eq!(RocBox::from(sendable).address(), other.address());
}

#[test]
fn copying_transfer_moves_the_frontier() {
    let alignment = RocBox::<u64>::alloc_alignment();
    let size = std::mem::size_of::<u64>() + alignment;
    let first_end = alignment + size;
    let second_start = (first_end + alignment - 1) / alignment * alignment;
    let mut heap: Heap<u64> = Heap::new(second_start + size);
    let b = RocBox::new(5u64, &mut heap);
    let kept = b.clone(&mut heap);
    let moved = RocBox::from(SendSafeRocBox::from(b, &mut heap));
    assert_eq!(moved.address(), second_start + alignment);
    assert!(!heap.has_room());
    assert_eq!(*kept.deref(&heap), 5);
}

struct Unprintable;

impl fmt::Debug for Unprintable {
    fn fmt(&self, _f: &mut fmt::Formatter<'_>) -> fmt::Result {
        Err(fmt::Error)
    }
}

#[test]
fn failing_debug_impl_gives_no_text() {
    let mut heap: Heap<Unprintable> = Heap::new(4096);
    let b = RocBox::new(Unprintable, &mut heap);
    assert_eq!(b.fmt(&heap), None);
    assert!(b.is_live_in(&heap));
}
