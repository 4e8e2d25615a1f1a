use vstd::prelude::*;

use crate::align::{
    align_down, align_down_spec, align_up, align_up_spec, is_pow2, lemma_align_down,
    lemma_align_up,
};
use crate::interface::{BaseAllocator, ByteAllocator, PageAllocator};
use crate::{AllocError, AllocResult};

verus! {

/// A dual bump allocator over one contiguous, growable interval `[start, end)`.
///
/// Byte allocations grow upward from `start` (bump pointer `bytes_pos`); page
/// allocations grow downward from `end` (bump pointer `pages_pos`). Space is
/// reclaimed only at the edge of an arena, or wholesale once its live count is zero.
pub struct EarlyAllocator<const PAGE_SIZE: usize> {
    start: usize,
    end: usize,
    bytes_pos: usize,
    pages_pos: usize,
    bytes_count: usize,
    pages_count: usize,
    /// Live byte blocks `(address, size)` in allocation order, hence by ascending address.
    blocks: Ghost<Seq<(usize, usize)>>,
    /// Live page blocks `(address, page count)` in allocation order, hence by descending address.
    page_blocks: Ghost<Seq<(usize, usize)>>,
}

impl<const PAGE_SIZE: usize> EarlyAllocator<PAGE_SIZE> {
    pub closed spec fn start(&self) -> int {
        self.start as int
    }

    pub closed spec fn end(&self) -> int {
        self.end as int
    }

    pub closed spec fn bytes_pos(&self) -> int {
        self.bytes_pos as int
    }

    pub closed spec fn pages_pos(&self) -> int {
        self.pages_pos as int
    }

    pub closed spec fn bytes_count(&self) -> int {
        self.bytes_count as int
    }

    pub closed spec fn pages_count(&self) -> int {
        self.pages_count as int
    }

    /// The byte allocations that are live, as `(address, size)`.
    pub closed spec fn blocks(&self) -> Seq<(usize, usize)> {
        self.blocks@
    }

    /// The page allocations that are live, as `(address, page count)`.
    pub closed spec fn page_blocks(&self) -> Seq<(usize, usize)> {
        self.page_blocks@
    }

    pub open spec fn spec_total_bytes(&self) -> int {
        self.end() - self.start()
    }

    pub open spec fn spec_used_bytes(&self) -> int {
        self.bytes_pos() - self.start()
    }

    pub open spec fn spec_available_bytes(&self) -> int {
        self.pages_pos() - self.bytes_pos()
    }

    pub open spec fn spec_total_pages(&self) -> int {
        self.spec_total_bytes() / (PAGE_SIZE as int)
    }

    pub open spec fn spec_used_pages(&self) -> int {
        (self.end() - self.pages_pos()) / (PAGE_SIZE as int)
    }

    pub open spec fn spec_available_pages(&self) -> int {
        self.spec_available_bytes() / (PAGE_SIZE as int)
    }

    /// The live byte blocks lie in `[start, bytes_pos)`, are non-empty and ordered
    /// without overlap; the `i`-th of them ends at least `i + 1` bytes above `start`.
    closed spec fn blocks_wf(&self) -> bool {
        &&& self.bytes_count as int == self.blocks@.len()
        &&& forall|i: int|
            0 <= i < self.blocks@.len() ==> {
                let b = #[trigger] self.blocks@[i];
                &&& b.1 > 0
                &&& self.start <= b.0
                &&& b.0 + b.1 <= self.bytes_pos
                &&& b.0 + b.1 >= self.start + i + 1
            }
        &&& forall|i: int, j: int|
            0 <= i < j < self.blocks@.len() ==> #[trigger] self.blocks@[i].0
                + self.blocks@[i].1 <= #[trigger] self.blocks@[j].0
    }

    /// The live page blocks lie in `[pages_pos, end)`, are non-empty and ordered
    /// without overlap downward; the `i`-th of them starts at least `i + 1` bytes below `end`.
    closed spec fn page_blocks_wf(&self) -> bool {
        &&& self.pages_count as int == self.page_blocks@.len()
        &&& forall|i: int|
            0 <= i < self.page_blocks@.len() ==> {
                let p = #[trigger] self.page_blocks@[i];
                &&& p.1 > 0
                &&& p.1 * PAGE_SIZE >= 1
                &&& self.pages_pos <= p.0
                &&& p.0 + p.1 * PAGE_SIZE <= self.end
                &&& p.0 + i + 1 <= self.end
            }
        &&& forall|i: int, j: int|
            0 <= i < j < self.page_blocks@.len() ==> #[trigger] self.page_blocks@[j].0
                + self.page_blocks@[j].1 * PAGE_SIZE <= #[trigger] self.page_blocks@[i].0
    }

    /// Well-formedness: the two arenas are ordered inside the interval and do not
    /// overlap, each live counter is zero exactly when its bump pointer rests at its
    /// edge, and the live blocks are accounted for.
    pub closed spec fn wf(&self) -> bool {
        &&& is_pow2(PAGE_SIZE as int)
        &&& self.start <= self.bytes_pos <= self.pages_pos <= self.end
        &&& (self.bytes_count == 0 <==> self.bytes_pos == self.start)
        &&& (self.pages_count == 0 <==> self.pages_pos == self.end)
        &&& self.blocks_wf()
        &&& self.page_blocks_wf()
    }

    /// The page arena of `self` and `other` is the same.
    pub open spec fn same_pages(&self, other: &Self) -> bool {
        &&& self.pages_pos() == other.pages_pos()
        &&& self.pages_count() == other.pages_count()
        &&& self.page_blocks() == other.page_blocks()
    }

    /// The byte arena of `self` and `other` is the same.
    pub open spec fn same_bytes(&self, other: &Self) -> bool {
        &&& self.bytes_pos() == other.bytes_pos()
        &&& self.bytes_count() == other.bytes_count()
        &&& self.blocks() == other.blocks()
    }

    /// What `alloc_bytes(size, align)` does to `pre`, giving `post` and `r`.
    pub open spec fn alloc_spec(
        pre: Self,
        size: usize,
        align: usize,
        post: Self,
        r: AllocResult<usize>,
    ) -> bool {
        let addr = align_up_spec(pre.bytes_pos(), align as int);
        if size == 0 {
            r == Ok::<usize, AllocError>(align) && post == pre
        } else if addr + size <= pre.pages_pos() {
            &&& r == Ok::<usize, AllocError>(addr as usize)
            &&& post.start() == pre.start()
            &&& post.end() == pre.end()
            &&& post.bytes_pos() == addr + size
            &&& post.bytes_count() == pre.bytes_count() + 1
            &&& post.blocks() == pre.blocks().push((addr as usize, size))
            &&& post.same_pages(&pre)
        } else {
            r == Err::<usize, AllocError>(AllocError::NoMemory) && post == pre
        }
    }

    /// What `dealloc(pos, size)` does to `pre`, giving `post`.
    pub open spec fn dealloc_spec(pre: Self, pos: usize, size: usize, post: Self) -> bool {
        if size == 0 {
            post == pre
        } else {
            &&& post.start() == pre.start()
            &&& post.end() == pre.end()
            &&& post.bytes_count() == pre.bytes_count() - 1
            &&& post.bytes_pos() == if post.bytes_count() == 0 {
                pre.start()
            } else if pos + size == pre.bytes_pos() {
                pos as int
            } else {
                pre.bytes_pos()
            }
            &&& exists|i: int|
                0 <= i < pre.blocks().len() && pre.blocks()[i] == (pos, size) && post.blocks()
                    == pre.blocks().remove(i)
            &&& post.same_pages(&pre)
        }
    }

    /// What `alloc_pages(num_pages, align)` does to `pre`, giving `post` and `r`.
    pub open spec fn alloc_pages_spec(
        pre: Self,
        num_pages: usize,
        align: usize,
        post: Self,
        r: AllocResult<usize>,
    ) -> bool {
        let top = align_down_spec(pre.pages_pos(), align as int);
        let size = num_pages * PAGE_SIZE;
        if size <= top && top - size >= pre.bytes_pos() {
            &&& r == Ok::<usize, AllocError>((top - size) as usize)
            &&& post.start() == pre.start()
            &&& post.end() == pre.end()
            &&& post.pages_pos() == top - size
            &&& post.pages_count() == pre.pages_count() + 1
            &&& post.page_blocks() == pre.page_blocks().push(((top - size) as usize, num_pages))
            &&& post.same_bytes(&pre)
        } else {
            r == Err::<usize, AllocError>(AllocError::NoMemory) && post == pre
        }
    }

    /// Rounding `pages_pos` down to `align` costs no whole page of the free space.
    pub open spec fn no_page_lost(pre: Self, align: usize) -> bool {
        pre.spec_available_bytes() / (PAGE_SIZE as int) == (pre.spec_available_bytes()
            - pre.pages_pos() % (align as int)) / (PAGE_SIZE as int)
    }

    /// What `dealloc_pages(pos, num_pages)` does to `pre`, giving `post`.
    pub open spec fn dealloc_pages_spec(pre: Self, pos: usize, num_pages: usize, post: Self) -> bool {
        &&& post.start() == pre.start()
        &&& post.end() == pre.end()
        &&& post.pages_count() == pre.pages_count() - 1
        &&& post.pages_pos() == if post.pages_count() == 0 {
            pre.end()
        } else if pos == pre.pages_pos() {
            pos + num_pages * PAGE_SIZE
        } else {
            pre.pages_pos()
        }
        &&& exists|i: int|
            0 <= i < pre.page_blocks().len() && pre.page_blocks()[i] == (pos, num_pages)
                && post.page_blocks() == pre.page_blocks().remove(i)
        &&& post.same_bytes(&pre)
    }

    /// Creates an empty allocator that manages no memory yet.
    pub fn new() -> (r: Self)
        requires
            is_pow2(PAGE_SIZE as int),
        ensures
            r.wf(),
            r.start() == 0,
            r.end() == 0,
            r.bytes_pos() == 0,
            r.pages_pos() == 0,
            r.bytes_count() == 0,
            r.pages_count() == 0,
            r.blocks() == Seq::<(usize, usize)>::empty(),
            r.page_blocks() == Seq::<(usize, usize)>::empty(),
    {
        EarlyAllocator {
            start: 0,
            end: 0,
            bytes_pos: 0,
            pages_pos: 0,
            bytes_count: 0,
            pages_count: 0,
            blocks: Ghost(Seq::empty()),
            page_blocks: Ghost(Seq::empty()),
        }
    }

    /// Makes `[start_vaddr, start_vaddr + size)` the managed interval, with both arenas empty.
    ///
    /// Meant for a fresh allocator; called again, it forgets every earlier allocation.
    pub fn init(&mut self, start_vaddr: usize, size: usize)
        requires
            is_pow2(PAGE_SIZE as int),
            start_vaddr + size <= usize::MAX,
        ensures
            final(self).wf(),
            final(self).start() == start_vaddr,
            final(self).end() == start_vaddr + size,
            final(self).bytes_pos() == start_vaddr,
            final(self).pages_pos() == start_vaddr + size,
            final(self).bytes_count() == 0,
            final(self).pages_count() == 0,
            final(self).blocks() == Seq::<(usize, usize)>::empty(),
            final(self).page_blocks() == Seq::<(usize, usize)>::empty(),
    {
        self.start = start_vaddr;
        self.end = start_vaddr + size;
        self.bytes_pos = self.start;
        self.pages_pos = self.end;
        self.bytes_count = 0;
        self.pages_count = 0;
        self.blocks = Ghost(Seq::empty());
        self.page_blocks = Ghost(Seq::empty());
    }

    /// Grows the managed interval by `[start, start + size)`, which must abut it.
    ///
    /// A region that starts at `end` extends the interval upward, one that ends at
    /// `start` extends it downward; an idle arena whose pointer rests at the moved
    /// edge follows it. Any other region is refused with `MemoryOverlap`, and the
    /// allocator is left as it was.
    pub fn add_memory(&mut self, start: usize, size: usize) -> (r: AllocResult)
        requires
            old(self).wf(),
            start + size <= usize::MAX,
        ensures
            final(self).wf(),
            r is Ok <==> (start == old(self).end() || start + size == old(self).start()),
            start == old(self).end() ==> {
                &&& final(self).start() == old(self).start()
                &&& final(self).end() == start + size
                &&& final(self).same_bytes(&*old(self))
                &&& final(self).pages_count() == old(self).pages_count()
                &&& final(self).page_blocks() == old(self).page_blocks()
                &&& final(self).pages_pos() == if old(self).pages_count() == 0 {
                    start + size
                } else {
                    old(self).pages_pos()
                }
            },
            start != old(self).end() && start + size == old(self).start() ==> {
                &&& final(self).start() == start
                &&& final(self).end() == old(self).end()
                &&& final(self).same_pages(&*old(self))
                &&& final(self).bytes_count() == old(self).bytes_count()
                &&& final(self).blocks() == old(self).blocks()
                &&& final(self).bytes_pos() == if old(self).bytes_count() == 0 {
                    start as int
                } else {
                    old(self).bytes_pos()
                }
            },
            r is Err ==> r == Err::<(), AllocError>(AllocError::MemoryOverlap) && *final(self)
                == *old(self),
            // a region strictly inside the interval is refused
            old(self).start() <= start && start + size <= old(self).end() && 0 < size ==> r
                is Err,
    {
        let end: usize = start + size;
        if start == self.end {
            self.end = end;
            if self.pages_pos == start {
                self.pages_pos = self.end;
            }
            Ok(())
        } else if end == self.start {
            self.start = start;
            if self.bytes_pos == end {
                self.bytes_pos = self.start;
            }
            Ok(())
        } else {
            Err(AllocError::MemoryOverlap)
        }
    }

    /// Allocates `size` bytes aligned to `align` from the byte arena.
    ///
    /// A zero-size request returns `align` itself, never dereferenced, and changes
    /// nothing. Otherwise the block starts at `bytes_pos` rounded up to `align`, and
    /// the request fails with `NoMemory` when its end would pass `pages_pos`.
    pub fn alloc_bytes(&mut self, size: usize, align: usize) -> (r: AllocResult<usize>)
        requires
            old(self).wf(),
            is_pow2(align as int),
        ensures
            final(self).wf(),
            Self::alloc_spec(*old(self), size, align, *final(self), r),
            size == 0 ==> r == Ok::<usize, AllocError>(align) && final(self).bytes_pos()
                == old(self).bytes_pos() && final(self).bytes_count() == old(self).bytes_count(),
            size > 0 && r is Ok ==> r->Ok_0 % align == 0,
            align == 1 && size <= old(self).spec_available_bytes() ==> {
                &&& r is Ok
                &&& final(self).spec_used_bytes() == old(self).spec_used_bytes() + size
                &&& final(self).spec_available_bytes() == old(self).spec_available_bytes() - size
            },
    {
        if size == 0 {
            return Ok(align);
        }
        proof {
            lemma_align_up(self.bytes_pos as int, align as int);
        }
        let start = match align_up(self.bytes_pos, align) {
            Some(a) => a,
            None => return Err(AllocError::NoMemory),
        };
        let end = match start.checked_add(size) {
            Some(e) => e,
            None => return Err(AllocError::NoMemory),
        };
        if end > self.pages_pos {
            return Err(AllocError::NoMemory);
        }
        let ghost pre = *self;
        proof {
            let n = self.blocks@.len();
            if n > 0 {
                assert(self.blocks@[n - 1].0 + self.blocks@[n - 1].1 >= self.start + n);
            }
        }
        self.bytes_pos = end;
        self.bytes_count = self.bytes_count + 1;
        self.blocks = Ghost(self.blocks@.push((start, size)));
        proof {
            let n = pre.blocks@.len();
            assert forall|i: int, j: int|
                0 <= i < j < self.blocks@.len() implies #[trigger] self.blocks@[i].0
                + self.blocks@[i].1 <= #[trigger] self.blocks@[j].0 by {
                if j < n {
                    assert(pre.blocks@[i] == self.blocks@[i]);
                    assert(pre.blocks@[j] == self.blocks@[j]);
                } else {
                    assert(pre.blocks@[i] == self.blocks@[i]);
                }
            }
            assert forall|i: int| 0 <= i < self.blocks@.len() implies {
                let b = #[trigger] self.blocks@[i];
                &&& b.1 > 0
                &&& self.start <= b.0
                &&& b.0 + b.1 <= self.bytes_pos
                &&& b.0 + b.1 >= self.start + i + 1
            } by {
                if i < n {
                    assert(pre.blocks@[i] == self.blocks@[i]);
                }
            }
        }
        Ok(start)
    }

    /// Releases the byte block `[pos, pos + size)` handed out by `alloc_bytes`.
    ///
    /// The space is reclaimed only when the block ends at `bytes_pos`; when the last
    /// live block goes, `bytes_pos` returns to `start`. A zero-size block changes nothing.
    pub fn dealloc(&mut self, pos: usize, size: usize)
        requires
            old(self).wf(),
            size == 0 || old(self).blocks().contains((pos, size)),
        ensures
            final(self).wf(),
            Self::dealloc_spec(*old(self), pos, size, *final(self)),
    {
        if size == 0 {
            return;
        }
        let ghost pre = *self;
        let ghost i = pre.blocks@.index_of((pos, size));
        let ghost n = pre.blocks@.len();
        proof {
            assert(pre.blocks@[i] == (pos, size));
        }
        let end: usize = pos + size;
        if end == self.bytes_pos {
            proof {
                if i < n - 1 {
                    assert(pre.blocks@[n - 1].1 > 0);
                    assert(pre.blocks@[i].0 + pre.blocks@[i].1 <= pre.blocks@[n - 1].0);
                }
            }
            self.bytes_pos = pos;
        }
        self.bytes_count = self.bytes_count - 1;
        if self.bytes_count == 0 {
            self.bytes_pos = self.start;
        }
        self.blocks = Ghost(pre.blocks@.remove(i));
        proof {
            pre.blocks@.remove_ensures(i);
            let s = self.blocks@;
            assert forall|j: int| 0 <= j < s.len() implies {
                let b = #[trigger] s[j];
                &&& b.1 > 0
                &&& self.start <= b.0
                &&& b.0 + b.1 <= self.bytes_pos
                &&& b.0 + b.1 >= self.start + j + 1
            } by {
                if j < i {
                    assert(s[j] == pre.blocks@[j]);
                    assert(pre.blocks@[j].0 + pre.blocks@[j].1 <= pre.blocks@[i].0);
                } else {
                    assert(s[j] == pre.blocks@[j + 1]);
                }
            }
            assert forall|j: int, k: int|
                0 <= j < k < s.len() implies #[trigger] s[j].0 + s[j].1 <= #[trigger] s[k].0 by {
                if k < i {
                    assert(s[j] == pre.blocks@[j] && s[k] == pre.blocks@[k]);
                } else if j < i {
                    assert(s[j] == pre.blocks@[j] && s[k] == pre.blocks@[k + 1]);
                } else {
                    assert(s[j] == pre.blocks@[j + 1] && s[k] == pre.blocks@[k + 1]);
                }
            }
            if s.len() > 0 {
                assert(s[0].0 + s[0].1 >= self.start + 1);
            }
        }
    }

    /// Allocates `num_pages` pages from the page arena, ending at `pages_pos` rounded
    /// down to `align`; fails with `NoMemory` when the block would reach below `bytes_pos`.
    pub fn alloc_pages(&mut self, num_pages: usize, align: usize) -> (r: AllocResult<usize>)
        requires
            old(self).wf(),
            is_pow2(align as int),
            num_pages > 0,
        ensures
            final(self).wf(),
            Self::alloc_pages_spec(*old(self), num_pages, align, *final(self), r),
            r is Ok && (num_pages * PAGE_SIZE) % (align as int) == 0 ==> r->Ok_0 % align == 0,
            r is Ok && Self::no_page_lost(*old(self), align) ==> final(self).spec_total_pages()
                - final(self).spec_available_pages() == old(self).spec_total_pages()
                - old(self).spec_available_pages() + num_pages,
    {
        proof {
            lemma_align_down(self.pages_pos as int, align as int);
        }
        let top = align_down(self.pages_pos, align);
        let size = match num_pages.checked_mul(PAGE_SIZE) {
            Some(s) => s,
            None => return Err(AllocError::NoMemory),
        };
        let start = match top.checked_sub(size) {
            Some(s) => s,
            None => return Err(AllocError::NoMemory),
        };
        if start < self.bytes_pos {
            return Err(AllocError::NoMemory);
        }
        let ghost pre = *self;
        let ghost n = pre.page_blocks@.len();
        proof {
            assert(PAGE_SIZE >= 1);
            assert(num_pages * PAGE_SIZE >= 1) by (nonlinear_arith)
                requires
                    num_pages >= 1,
                    PAGE_SIZE >= 1,
            ;
            if n > 0 {
                assert(pre.page_blocks@[n - 1].0 + n <= pre.end);
            }
        }
        self.pages_pos = start;
        self.pages_count = self.pages_count + 1;
        self.page_blocks = Ghost(pre.page_blocks@.push((start, num_pages)));
        proof {
            let s = self.page_blocks@;
            assert forall|j: int| 0 <= j < s.len() implies {
                let p = #[trigger] s[j];
                &&& p.1 > 0
                &&& p.1 * PAGE_SIZE >= 1
                &&& self.pages_pos <= p.0
                &&& p.0 + p.1 * PAGE_SIZE <= self.end
                &&& p.0 + j + 1 <= self.end
            } by {
                if j < n {
                    assert(s[j] == pre.page_blocks@[j]);
                }
            }
            assert forall|j: int, k: int|
                0 <= j < k < s.len() implies #[trigger] s[k].0 + s[k].1 * PAGE_SIZE
                <= #[trigger] s[j].0 by {
                assert(s[j] == pre.page_blocks@[j]);
                if k < n {
                    assert(s[k] == pre.page_blocks@[k]);
                }
            }
            let avail = pre.spec_available_bytes();
            let loss = pre.pages_pos() % (align as int);
            let p = PAGE_SIZE as int;
            if avail / p == (avail - loss) / p {
                vstd::arithmetic::div_mod::lemma_hoist_over_denominator(
                    avail - loss - num_pages * p,
                    num_pages as int,
                    PAGE_SIZE as nat,
                );
                assert(self.spec_available_bytes() == avail - loss - num_pages * p);
            }
            if (num_pages * PAGE_SIZE) % (align as int) == 0 {
                lemma_multiple_sub(top as int, size as int, align as int);
            }
        }
        Ok(start)
    }

    /// Releases the `num_pages` pages at `pos` handed out by `alloc_pages`.
    ///
    /// The space is reclaimed only when the block starts at `pages_pos`; when the last
    /// live block goes, `pages_pos` returns to `end`.
    pub fn dealloc_pages(&mut self, pos: usize, num_pages: usize)
        requires
            old(self).wf(),
            old(self).page_blocks().contains((pos, num_pages)),
        ensures
            final(self).wf(),
            Self::dealloc_pages_spec(*old(self), pos, num_pages, *final(self)),
    {
        let ghost pre = *self;
        let ghost i = pre.page_blocks@.index_of((pos, num_pages));
        let ghost n = pre.page_blocks@.len();
        proof {
            assert(pre.page_blocks@[i] == (pos, num_pages));
        }
        let size: usize = num_pages * PAGE_SIZE;
        let end: usize = pos + size;
        if pos == self.pages_pos {
            proof {
                if i < n - 1 {
                    assert(pre.page_blocks@[n - 1].1 * PAGE_SIZE >= 1);
                    assert(pre.page_blocks@[n - 1].0 + pre.page_blocks@[n - 1].1 * PAGE_SIZE
                        <= pre.page_blocks@[i].0);
                }
            }
            self.pages_pos = end;
        }
        self.pages_count = self.pages_count - 1;
        if self.pages_count == 0 {
            self.pages_pos = self.end;
        }
        self.page_blocks = Ghost(pre.page_blocks@.remove(i));
        proof {
            pre.page_blocks@.remove_ensures(i);
            let s = self.page_blocks@;
            assert forall|j: int| 0 <= j < s.len() implies {
                let p = #[trigger] s[j];
                &&& p.1 > 0
                &&& p.1 * PAGE_SIZE >= 1
                &&& self.pages_pos <= p.0
                &&& p.0 + p.1 * PAGE_SIZE <= self.end
                &&& p.0 + j + 1 <= self.end
            } by {
                if j < i {
                    assert(s[j] == pre.page_blocks@[j]);
                    assert(pre.page_blocks@[i].0 + pre.page_blocks@[i].1 * PAGE_SIZE
                        <= pre.page_blocks@[j].0);
                } else {
                    assert(s[j] == pre.page_blocks@[j + 1]);
                }
            }
            assert forall|j: int, k: int|
                0 <= j < k < s.len() implies #[trigger] s[k].0 + s[k].1 * PAGE_SIZE
                <= #[trigger] s[j].0 by {
                if k < i {
                    assert(s[j] == pre.page_blocks@[j] && s[k] == pre.page_blocks@[k]);
                } else if j < i {
                    assert(s[j] == pre.page_blocks@[j] && s[k] == pre.page_blocks@[k + 1]);
                } else {
                    assert(s[j] == pre.page_blocks@[j + 1] && s[k] == pre.page_blocks@[k + 1]);
                }
            }
            if s.len() > 0 {
                assert(s[0].0 + 1 <= self.end);
            }
        }
    }

    /// Number of whole pages in the managed interval.
    pub fn total_pages(&self) -> (r: usize)
        requires
            self.wf(),
        ensures
            r == self.spec_total_pages(),
    {
        self.total_bytes() / PAGE_SIZE
    }

    /// Number of whole pages between `pages_pos` and `end`.
    pub fn used_pages(&self) -> (r: usize)
        requires
            self.wf(),
        ensures
            r == self.spec_used_pages(),
    {
        (self.end - self.pages_pos) / PAGE_SIZE
    }

    /// Number of whole pages in the free gap between the two arenas.
    pub fn available_pages(&self) -> (r: usize)
        requires
            self.wf(),
        ensures
            r == self.spec_available_pages(),
    {
        self.available_bytes() / PAGE_SIZE
    }

    /// Size of the managed interval in bytes.
    pub fn total_bytes(&self) -> (r: usize)
        requires
            self.wf(),
        ensures
            r == self.spec_total_bytes(),
    {
        self.end - self.start
    }

    /// Bytes taken by the byte arena, reclaimable gaps included.
    pub fn used_bytes(&self) -> (r: usize)
        requires
            self.wf(),
        ensures
            r == self.spec_used_bytes(),
    {
        self.bytes_pos - self.start
    }

    /// Bytes in the free gap between the two arenas.
    pub fn available_bytes(&self) -> (r: usize)
        requires
            self.wf(),
        ensures
            r == self.spec_available_bytes(),
    {
        self.pages_pos - self.bytes_pos
    }

    /// Every well-formed allocator keeps the byte arena below the page arena inside
    /// the interval, and each live counter is zero exactly when its pointer rests at
    /// its edge. Since every operation preserves `wf`, this holds after any sequence
    /// of `init`, `add_memory`, `alloc_bytes`, `dealloc`, `alloc_pages` and `dealloc_pages`.
    pub proof fn lemma_wf_layout(&self)
        requires
            self.wf(),
        ensures
            self.start() <= self.bytes_pos() <= self.pages_pos() <= self.end(),
            self.bytes_count() == 0 <==> self.bytes_pos() == self.start(),
            self.pages_count() == 0 <==> self.pages_pos() == self.end(),
            self.bytes_count() == self.blocks().len(),
            self.pages_count() == self.page_blocks().len(),
    {
    }

    /// Edge reclamation, freeing in reverse order: after allocating a block `A` and then
    /// a block `B` right behind it, freeing `B` and then `A` brings `bytes_pos` back to
    /// where it was before `A`, unless `A` needed alignment padding while other blocks
    /// were live (the padding then stays used).
    pub proof fn lemma_free_in_reverse_order(
        s0: Self,
        a_size: usize,
        a_align: usize,
        a: usize,
        s1: Self,
        b_size: usize,
        b_align: usize,
        b: usize,
        s2: Self,
        s3: Self,
        s4: Self,
    )
        requires
            s0.wf(),
            is_pow2(a_align as int),
            is_pow2(b_align as int),
            a_size > 0,
            b_size > 0,
            Self::alloc_spec(s0, a_size, a_align, s1, Ok(a)),
            Self::alloc_spec(s1, b_size, b_align, s2, Ok(b)),
            b == a + a_size,
            Self::dealloc_spec(s2, b, b_size, s3),
            Self::dealloc_spec(s3, a, a_size, s4),
        ensures
            s3.bytes_pos() == b,
            s0.bytes_count() == 0 || a == s0.bytes_pos() ==> s4.bytes_pos() == s0.bytes_pos(),
    {
        lemma_align_up(s0.bytes_pos(), a_align as int);
        lemma_align_up(s1.bytes_pos(), b_align as int);
        s0.lemma_wf_layout();
    }

    /// Edge reclamation, freeing in allocation order: after allocating a block `A` and
    /// then a block `B` right behind it, freeing `A` alone reclaims nothing, since `A`
    /// is not at the edge; freeing `B` as well brings `bytes_pos` back to where it was
    /// before `A` when no other byte block was live.
    pub proof fn lemma_free_in_allocation_order(
        s0: Self,
        a_size: usize,
        a_align: usize,
        a: usize,
        s1: Self,
        b_size: usize,
        b_align: usize,
        b: usize,
        s2: Self,
        s3: Self,
        s4: Self,
    )
        requires
            s0.wf(),
            is_pow2(a_align as int),
            is_pow2(b_align as int),
            a_size > 0,
            b_size > 0,
            Self::alloc_spec(s0, a_size, a_align, s1, Ok(a)),
            Self::alloc_spec(s1, b_size, b_align, s2, Ok(b)),
            b == a + a_size,
            Self::dealloc_spec(s2, a, a_size, s3),
            Self::dealloc_spec(s3, b, b_size, s4),
        ensures
            s3.bytes_pos() == s2.bytes_pos(),
            s0.bytes_count() == 0 ==> s4.bytes_pos() == s0.bytes_pos(),
    {
        lemma_align_up(s0.bytes_pos(), a_align as int);
        lemma_align_up(s1.bytes_pos(), b_align as int);
        s0.lemma_wf_layout();
    }
}

impl<const PAGE_SIZE: usize> BaseAllocator for EarlyAllocator<PAGE_SIZE> {
    open spec fn wf(&self) -> bool {
        EarlyAllocator::wf(self)
    }

    fn init(&mut self, start: usize, size: usize) {
        EarlyAllocator::init(self, start, size);
    }

    fn add_memory(&mut self, start: usize, size: usize) -> (r: AllocResult) {
        EarlyAllocator::add_memory(self, start, size)
    }
}

impl<const PAGE_SIZE: usize> ByteAllocator for EarlyAllocator<PAGE_SIZE> {
    open spec fn is_live_block(&self, pos: usize, size: usize) -> bool {
        self.blocks().contains((pos, size))
    }

    fn alloc_bytes(&mut self, size: usize, align: usize) -> (r: AllocResult<usize>) {
        let r = EarlyAllocator::alloc_bytes(self, size, align);
        proof {
            if size > 0 && r is Ok {
                let n = old(self).blocks().len() as int;
                assert(self.blocks()[n] == (r->Ok_0, size));
            }
        }
        r
    }

    fn dealloc(&mut self, pos: usize, size: usize) {
        EarlyAllocator::dealloc(self, pos, size);
    }

    fn total_bytes(&self) -> usize {
        EarlyAllocator::total_bytes(self)
    }

    fn used_bytes(&self) -> usize {
        EarlyAllocator::used_bytes(self)
    }

    fn available_bytes(&self) -> usize {
        EarlyAllocator::available_bytes(self)
    }
}

impl<const PAGE_SIZE: usize> PageAllocator for EarlyAllocator<PAGE_SIZE> {
    open spec fn is_live_pages(&self, pos: usize, num_pages: usize) -> bool {
        self.page_blocks().contains((pos, num_pages))
    }

    fn alloc_pages(&mut self, num_pages: usize, align: usize) -> (r: AllocResult<usize>) {
        let r = EarlyAllocator::alloc_pages(self, num_pages, align);
        proof {
            if r is Ok {
                let n = old(self).page_blocks().len() as int;
                assert(self.page_blocks()[n] == (r->Ok_0, num_pages));
            }
        }
        r
    }

    fn dealloc_pages(&mut self, pos: usize, num_pages: usize) {
        EarlyAllocator::dealloc_pages(self, pos, num_pages);
    }

    fn total_pages(&self) -> usize {
        EarlyAllocator::total_pages(self)
    }

    fn used_pages(&self) -> usize {
        EarlyAllocator::used_pages(self)
    }

    fn available_pages(&self) -> usize {
        EarlyAllocator::available_pages(self)
    }
}

/// The difference of two multiples of `m` is a multiple of `m`.
proof fn lemma_multiple_sub(a: int, b: int, m: int)
    requires
        m > 0,
        a % m == 0,
        b % m == 0,
    ensures
        (a - b) % m == 0,
{
    vstd::arithmetic::div_mod::lemma_fundamental_div_mod(a, m);
    vstd::arithmetic::div_mod::lemma_fundamental_div_mod(b, m);
    assert(a - b == m * (a / m - b / m)) by (nonlinear_arith)
        requires
            a == m * (a / m),
            b == m * (b / m),
    ;
    vstd::arithmetic::div_mod::lemma_mod_multiples_basic(a / m - b / m, m);
    assert((a / m - b / m) * m == m * (a / m - b / m)) by (nonlinear_arith);
}

} // verus!
