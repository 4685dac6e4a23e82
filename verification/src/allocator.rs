//! The kernel heap: a fixed range of addresses that the build reserves.

use vstd::prelude::*;

verus! {

/// A range of addresses for the heap allocator to manage.
#[derive(Debug, Clone, Copy, PartialEq, Eq, Structural)]
pub struct HeapRange {
    /// First address of the heap.
    pub start: usize,
    /// Length of the heap in bytes.
    pub length: usize,
}

/// The heap range between the two addresses that the build provides, from
/// `heap_start` up to but not including `heap_end`; `None` if the end lies
/// before the start.
pub fn init(heap_start: usize, heap_end: usize) -> (range: Option<HeapRange>)
    ensures
        heap_start <= heap_end ==> range == Some(
            HeapRange { start: heap_start, length: (heap_end - heap_start) as usize },
        ),
        heap_start > heap_end ==> range is None,
{
    if heap_start <= heap_end {
        Some(HeapRange { start: heap_start, length: heap_end - heap_start })
    } else {
        None
    }
}

} // verus!
