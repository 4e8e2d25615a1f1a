use vstd::prelude::*;

use crate::align::is_pow2;
use crate::AllocResult;

verus! {

/// The part of the allocation contract every allocator offers: taking its first
/// region and growing by further regions.
pub trait BaseAllocator {
    /// The allocator's state is consistent.
    spec fn wf(&self) -> bool;

    /// Takes `[start, start + size)` as the first managed region.
    fn init(&mut self, start: usize, size: usize)
        requires
            old(self).wf(),
            start + size <= usize::MAX,
        ensures
            final(self).wf(),
    ;

    /// Adds `[start, start + size)` to the managed memory.
    fn add_memory(&mut self, start: usize, size: usize) -> (r: AllocResult)
        requires
            old(self).wf(),
            start + size <= usize::MAX,
        ensures
            final(self).wf(),
    ;
}

/// Allocation of byte blocks of any size and power-of-two alignment.
pub trait ByteAllocator: BaseAllocator {
    /// `[pos, pos + size)` is a live block handed out by `alloc_bytes`.
    spec fn is_live_block(&self, pos: usize, size: usize) -> bool;

    /// Allocates `size` bytes aligned to `align`; a zero-size request returns `align`.
    fn alloc_bytes(&mut self, size: usize, align: usize) -> (r: AllocResult<usize>)
        requires
            old(self).wf(),
            is_pow2(align as int),
        ensures
            final(self).wf(),
            size == 0 ==> r == Ok::<usize, crate::AllocError>(align),
            size > 0 && r is Ok ==> r->Ok_0 % align == 0 && final(self).is_live_block(
                r->Ok_0,
                size,
            ),
    ;

    /// Releases a block that `alloc_bytes` handed out.
    fn dealloc(&mut self, pos: usize, size: usize)
        requires
            old(self).wf(),
            size == 0 || old(self).is_live_block(pos, size),
        ensures
            final(self).wf(),
    ;

    /// Bytes under management.
    fn total_bytes(&self) -> usize
        requires
            self.wf(),
    ;

    /// Bytes taken by allocations.
    fn used_bytes(&self) -> usize
        requires
            self.wf(),
    ;

    /// Bytes still free for allocation.
    fn available_bytes(&self) -> usize
        requires
            self.wf(),
    ;
}

/// Allocation of runs of fixed-size pages aligned to a power of two.
pub trait PageAllocator: BaseAllocator {
    /// `num_pages` pages at `pos` are a live block handed out by `alloc_pages`.
    spec fn is_live_pages(&self, pos: usize, num_pages: usize) -> bool;

    /// Allocates `num_pages` pages below an `align`-aligned boundary.
    fn alloc_pages(&mut self, num_pages: usize, align: usize) -> (r: AllocResult<usize>)
        requires
            old(self).wf(),
            is_pow2(align as int),
            num_pages > 0,
        ensures
            final(self).wf(),
            r is Ok ==> final(self).is_live_pages(r->Ok_0, num_pages),
    ;

    /// Releases pages that `alloc_pages` handed out.
    fn dealloc_pages(&mut self, pos: usize, num_pages: usize)
        requires
            old(self).wf(),
            old(self).is_live_pages(pos, num_pages),
        ensures
            final(self).wf(),
    ;

    /// Whole pages under management.
    fn total_pages(&self) -> usize
        requires
            self.wf(),
    ;

    /// Whole pages taken by page allocations.
    fn used_pages(&self) -> usize
        requires
            self.wf(),
    ;

    /// Whole pages still free for allocation.
    fn available_pages(&self) -> usize
        requires
            self.wf(),
    ;
}

} // verus!
