use vstd::prelude::*;

use crate::{AllocError, AllocResult};

verus! {

/// The bookkeeping of a byte allocator whose requests are served by a
/// general-purpose heap engine.
///
/// The engine claims and extends its heap and serves `malloc` and `free`; it does
/// not report how many bytes are in use. This type records the span the engine
/// manages and counts the bytes of live allocations itself. Each operation takes
/// what the engine answered and updates the record accordingly.
pub struct TalcByteAllocator {
    span_base: usize,
    span_size: usize,
    used_bytes: usize,
}

impl TalcByteAllocator {
    /// Start of the span the engine manages.
    pub closed spec fn span_base(&self) -> int {
        self.span_base as int
    }

    /// Size in bytes of the span the engine manages.
    pub closed spec fn span_size(&self) -> int {
        self.span_size as int
    }

    /// Bytes of the allocations that are live.
    pub closed spec fn spec_used_bytes(&self) -> int {
        self.used_bytes as int
    }

    /// Creates the record of an engine that manages no memory yet.
    pub fn new() -> (r: Self)
        ensures
            r.span_base() == 0,
            r.span_size() == 0,
            r.spec_used_bytes() == 0,
    {
        TalcByteAllocator { span_base: 0, span_size: 0, used_bytes: 0 }
    }

    /// Records the outcome of the engine's claim on the first region: the span it
    /// claimed as `(base, size)`, or `None` when the claim failed, which leaves the
    /// record as it was.
    pub fn init(&mut self, claimed: Option<(usize, usize)>)
        ensures
            final(self).spec_used_bytes() == old(self).spec_used_bytes(),
            claimed is Some ==> final(self).span_base() == claimed->Some_0.0,
            claimed is Some ==> final(self).span_size() == claimed->Some_0.1,
            claimed is None ==> *final(self) == *old(self),
    {
        if let Some(span) = claimed {
            self.span_base = span.0;
            self.span_size = span.1;
        }
    }

    /// Records the span `(base, size)` the engine manages after extending its heap
    /// over a new region. The engine grows its heap as far as the region allows, so
    /// this never fails.
    pub fn add_memory(&mut self, extended: (usize, usize)) -> (r: AllocResult)
        ensures
            r is Ok,
            final(self).span_base() == extended.0,
            final(self).span_size() == extended.1,
            final(self).spec_used_bytes() == old(self).spec_used_bytes(),
    {
        self.span_base = extended.0;
        self.span_size = extended.1;
        Ok(())
    }

    /// Records the engine's answer to a request for `size` bytes: the address it
    /// granted, counted as `size` more bytes in use, or `None`, reported as `NoMemory`.
    pub fn alloc_bytes(&mut self, size: usize, granted: Option<usize>) -> (r: AllocResult<usize>)
        requires
            old(self).spec_used_bytes() + size <= usize::MAX,
        ensures
            final(self).span_base() == old(self).span_base(),
            final(self).span_size() == old(self).span_size(),
            granted is Some ==> r == Ok::<usize, AllocError>(granted->Some_0),
            granted is Some ==> final(self).spec_used_bytes() == old(self).spec_used_bytes() + size,
            granted is None ==> r == Err::<usize, AllocError>(AllocError::NoMemory),
            granted is None ==> *final(self) == *old(self),
    {
        match granted {
            Some(addr) => {
                self.used_bytes = self.used_bytes + size;
                Ok(addr)
            },
            None => Err(AllocError::NoMemory),
        }
    }

    /// Records that an allocation of `size` bytes went back to the engine.
    pub fn dealloc(&mut self, size: usize)
        requires
            old(self).spec_used_bytes() >= size,
        ensures
            final(self).span_base() == old(self).span_base(),
            final(self).span_size() == old(self).span_size(),
            final(self).spec_used_bytes() == old(self).spec_used_bytes() - size,
    {
        self.used_bytes = self.used_bytes - size;
    }

    /// Size of the span the engine manages.
    pub fn total_bytes(&self) -> (r: usize)
        ensures
            r == self.span_size(),
    {
        self.span_size
    }

    /// Bytes of the allocations that are live.
    pub fn used_bytes(&self) -> (r: usize)
        ensures
            r == self.spec_used_bytes(),
    {
        self.used_bytes
    }

    /// Bytes of the span not taken by live allocations.
    pub fn available_bytes(&self) -> (r: usize)
        requires
            self.spec_used_bytes() <= self.span_size(),
        ensures
            r == self.span_size() - self.spec_used_bytes(),
    {
        self.total_bytes() - self.used_bytes()
    }
}

} // verus!
