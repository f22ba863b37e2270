use minikernel::allocator::BumpAllocator;

#[test]
fn fresh_allocator_spans_its_heap() {
    let a = BumpAllocator::new(0x1000, 0x100);
    assert_eq!(a.heap_start, 0x1000);
    assert_eq!(a.heap_end, 0x1100);
    assert_eq!(a.next, 0x1000);
}

#[test]
fn allocations_bump_and_align() {
    let mut a = BumpAllocator::new(0x1000, 0x100);
    assert_eq!(a.allocate(5, 1), Some(0x1000));
    // the mark sits at 0x1005; an 8-aligned request rounds up
    assert_eq!(a.allocate(8, 8), Some(0x1008));
    assert_eq!(a.next, 0x1010);
}

#[test]
fn exhausted_heap_reports_none() {
    let mut a = BumpAllocator::new(0x1000, 0x10);
    assert_eq!(a.allocate(0x10, 1), Some(0x1000));
    assert_eq!(a.allocate(1, 1), None);
    assert_eq!(a.next, 0x1010);
}

#[test]
fn oversized_request_reports_none_and_keeps_the_mark() {
    let mut a = BumpAllocator::new(0x1000, 0x20);
    assert_eq!(a.allocate(0x21, 1), None);
    assert_eq!(a.next, 0x1000);
    assert_eq!(a.allocate(0x20, 1), Some(0x1000));
}
