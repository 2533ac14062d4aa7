//! Heap accounting of the firmware's global allocator, which hands memory
//! out of the RTOS heap.
use vstd::prelude::*;

verus! {

/// Keeps count of the bytes currently handed out by the allocator.
pub struct CustomAllocator {
    allocated_mem: usize,
}

impl CustomAllocator {
    /// Bytes currently handed out.
    pub closed spec fn allocated(&self) -> nat {
        self.allocated_mem as nat
    }

    /// An allocator that has handed nothing out.
    pub fn new() -> (r: CustomAllocator)
        ensures
            r.allocated() == 0,
    {
        CustomAllocator { allocated_mem: 0 }
    }

    /// Bytes currently handed out.
    pub fn allocated_mem(&self) -> (r: usize)
        ensures
            r == self.allocated(),
    {
        self.allocated_mem
    }

    /// Counts a request for a block of `size` bytes.
    pub fn count_alloc(&mut self, size: usize)
        requires
            old(self).allocated() + size <= usize::MAX,
        ensures
            final(self).allocated() == old(self).allocated() + size,
    {
        self.allocated_mem = self.allocated_mem + size;
    }

    /// Counts the release of a block of `size` bytes.
    pub fn count_dealloc(&mut self, size: usize)
        requires
            size <= old(self).allocated(),
        ensures
            final(self).allocated() == old(self).allocated() - size,
    {
        self.allocated_mem = self.allocated_mem - size;
    }
}

/// Releasing a block undoes its allocation: counting a request for `size`
/// bytes and then their release leaves the count where it was.
pub proof fn lemma_alloc_dealloc_restores(
    start: CustomAllocator,
    mid: CustomAllocator,
    end: CustomAllocator,
    size: nat,
)
    requires
        mid.allocated() == start.allocated() + size,
        end.allocated() == mid.allocated() - size,
    ensures
        end.allocated() == start.allocated(),
{
}

} // verus!
