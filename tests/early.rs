use allocator::early::EarlyAllocator;
use allocator::interface::{BaseAllocator, ByteAllocator, PageAllocator};
use allocator::AllocError;

fn fresh() -> EarlyAllocator<4096> {
    let mut a = EarlyAllocator::<4096>::new();
    a.init(0x1000, 0x4000);
    a
}

#[test]
fn new_is_empty() {
    let a = EarlyAllocator::<4096>::new();
    assert_eq!(a.total_bytes(), 0);
    assert_eq!(a.used_bytes(), 0);
    assert_eq!(a.available_bytes(), 0);
    assert_eq!(a.total_pages(), 0);
}

#[test]
fn init_sets_interval() {
    let a = fresh();
    assert_eq!(a.total_bytes(), 0x4000);
    assert_eq!(a.used_bytes(), 0);
    assert_eq!(a.available_bytes(), 0x4000);
    assert_eq!(a.total_pages(), 4);
    assert_eq!(a.used_pages(), 0);
    assert_eq!(a.available_pages(), 4);
}

#[test]
fn bytes_then_page_layout() {
    let mut a = fresh();
    assert_eq!(a.alloc_bytes(64, 8), Ok(0x1000));
    assert_eq!(a.alloc_pages(1, 4096), Ok(0x4000));
    assert_eq!(a.total_pages(), 4);
    assert_eq!(a.used_pages(), 1);
    // the free gap is [0x1040, 0x4000): two whole pages
    assert_eq!(a.available_pages(), 2);
    assert_eq!(a.used_bytes(), 64);
    assert_eq!(a.available_bytes(), 0x4000 - 0x1040);
}

#[test]
fn zero_size_alloc_is_noop() {
    let mut a = fresh();
    a.alloc_bytes(10, 1).unwrap();
    let used = a.used_bytes();
    let avail = a.available_bytes();
    assert_eq!(a.alloc_bytes(0, 16), Ok(16));
    assert_eq!(a.used_bytes(), used);
    assert_eq!(a.available_bytes(), avail);
    a.dealloc(16, 0);
    assert_eq!(a.used_bytes(), used);
}

#[test]
fn exact_fit_accounting() {
    let mut a = fresh();
    a.alloc_bytes(3, 1).unwrap();
    let n = a.available_bytes();
    let used = a.used_bytes();
    assert_eq!(a.alloc_bytes(n, 1), Ok(0x1003));
    assert_eq!(a.used_bytes(), used + n);
    assert_eq!(a.available_bytes(), 0);
    assert_eq!(a.alloc_bytes(1, 1), Err(AllocError::NoMemory));
}

#[test]
fn alignment_padding() {
    let mut a = fresh();
    assert_eq!(a.alloc_bytes(1, 1), Ok(0x1000));
    assert_eq!(a.alloc_bytes(8, 16), Ok(0x1010));
    assert_eq!(a.used_bytes(), 0x18);
}

#[test]
fn alloc_too_large_fails_unchanged() {
    let mut a = fresh();
    assert_eq!(a.alloc_bytes(0x4001, 1), Err(AllocError::NoMemory));
    assert_eq!(a.alloc_bytes(usize::MAX, 1), Err(AllocError::NoMemory));
    assert_eq!(a.used_bytes(), 0);
    assert_eq!(a.available_bytes(), 0x4000);
}

#[test]
fn page_alignment_and_count() {
    let mut a = fresh();
    let before = a.total_pages() - a.available_pages();
    let p = a.alloc_pages(2, 4096).unwrap();
    assert_eq!(p, 0x3000);
    assert_eq!(p % 4096, 0);
    assert_eq!(a.total_pages() - a.available_pages(), before + 2);
    assert_eq!(a.used_pages(), 2);
}

#[test]
fn page_alignment_skips_to_boundary() {
    let mut a = fresh();
    // the page arena edge 0x5000 is rounded down to 0x4000 first
    let p = a.alloc_pages(2, 8192).unwrap();
    assert_eq!(p, 0x2000);
    assert_eq!(p % 8192, 0);
    assert_eq!(a.used_pages(), 3);
    assert_eq!(a.available_pages(), 1);
}

#[test]
fn pages_exhausted() {
    let mut a = fresh();
    a.alloc_bytes(1, 1).unwrap();
    assert_eq!(a.alloc_pages(4, 4096), Err(AllocError::NoMemory));
    assert_eq!(a.alloc_pages(usize::MAX, 4096), Err(AllocError::NoMemory));
    assert_eq!(a.alloc_pages(3, 4096), Ok(0x2000));
    assert_eq!(a.alloc_pages(1, 4096), Err(AllocError::NoMemory));
}

#[test]
fn free_in_reverse_order_retracts() {
    let mut a = fresh();
    let x = a.alloc_bytes(16, 8).unwrap();
    let y = a.alloc_bytes(32, 8).unwrap();
    assert_eq!(y, x + 16);
    let z = a.alloc_bytes(8, 8).unwrap();
    assert_eq!(z, y + 32);
    a.dealloc(z, 8);
    assert_eq!(a.used_bytes(), 48);
    a.dealloc(y, 32);
    assert_eq!(a.used_bytes(), 16);
    a.dealloc(x, 16);
    assert_eq!(a.used_bytes(), 0);
}

#[test]
fn free_in_allocation_order_retracts_late() {
    let mut a = fresh();
    let x = a.alloc_bytes(16, 8).unwrap();
    let y = a.alloc_bytes(32, 8).unwrap();
    assert_eq!(y, x + 16);
    a.dealloc(x, 16);
    assert_eq!(a.used_bytes(), 48);
    a.dealloc(y, 32);
    assert_eq!(a.used_bytes(), 0);
}

#[test]
fn non_edge_free_keeps_gap_while_others_live() {
    let mut a = fresh();
    let w = a.alloc_bytes(8, 8).unwrap();
    let x = a.alloc_bytes(16, 8).unwrap();
    let y = a.alloc_bytes(32, 8).unwrap();
    a.dealloc(x, 16);
    a.dealloc(y, 32);
    // y was at the edge, x's space stays taken while w lives
    assert_eq!(a.used_bytes(), 24);
    a.dealloc(w, 8);
    assert_eq!(a.used_bytes(), 0);
}

#[test]
fn page_free_edge_and_reset() {
    let mut a = fresh();
    let p1 = a.alloc_pages(1, 4096).unwrap();
    let p2 = a.alloc_pages(1, 4096).unwrap();
    assert_eq!((p1, p2), (0x4000, 0x3000));
    a.dealloc_pages(p1, 1);
    assert_eq!(a.used_pages(), 2);
    a.dealloc_pages(p2, 1);
    assert_eq!(a.used_pages(), 0);
    let p3 = a.alloc_pages(1, 4096).unwrap();
    let p4 = a.alloc_pages(1, 4096).unwrap();
    a.dealloc_pages(p4, 1);
    assert_eq!(a.used_pages(), 1);
    assert_eq!(a.alloc_pages(1, 4096), Ok(p4));
    a.dealloc_pages(p4, 1);
    a.dealloc_pages(p3, 1);
    assert_eq!(a.available_pages(), 4);
}

#[test]
fn add_memory_inside_is_refused() {
    let mut a = fresh();
    a.alloc_bytes(100, 4).unwrap();
    assert_eq!(a.add_memory(0x2000, 0x1000), Err(AllocError::MemoryOverlap));
    assert_eq!(a.total_bytes(), 0x4000);
    assert_eq!(a.used_bytes(), 100);
    assert_eq!(a.available_bytes(), 0x4000 - 100);
}

#[test]
fn add_memory_apart_is_refused() {
    let mut a = fresh();
    assert_eq!(a.add_memory(0x9000, 0x1000), Err(AllocError::MemoryOverlap));
    assert_eq!(a.total_bytes(), 0x4000);
}

#[test]
fn add_memory_above_moves_idle_page_edge() {
    let mut a = fresh();
    assert_eq!(a.add_memory(0x5000, 0x2000), Ok(()));
    assert_eq!(a.total_bytes(), 0x6000);
    assert_eq!(a.used_pages(), 0);
    assert_eq!(a.available_bytes(), 0x6000);
    assert_eq!(a.alloc_pages(1, 4096), Ok(0x6000));
}

#[test]
fn add_memory_above_keeps_busy_page_edge() {
    let mut a = fresh();
    a.alloc_pages(1, 4096).unwrap();
    assert_eq!(a.add_memory(0x5000, 0x1000), Ok(()));
    assert_eq!(a.total_pages(), 5);
    assert_eq!(a.used_pages(), 2);
    assert_eq!(a.available_bytes(), 0x3000);
}

#[test]
fn add_memory_below_moves_idle_byte_edge() {
    let mut a = fresh();
    assert_eq!(a.add_memory(0x800, 0x800), Ok(()));
    assert_eq!(a.total_bytes(), 0x4800);
    assert_eq!(a.used_bytes(), 0);
    assert_eq!(a.alloc_bytes(8, 8), Ok(0x800));
}

#[test]
fn add_memory_below_keeps_busy_byte_edge() {
    let mut a = fresh();
    a.alloc_bytes(8, 8).unwrap();
    assert_eq!(a.add_memory(0x800, 0x800), Ok(()));
    assert_eq!(a.used_bytes(), 0x808);
    assert_eq!(a.alloc_bytes(8, 8), Ok(0x1008));
}

fn fill_through_interface<A: ByteAllocator + PageAllocator>(a: &mut A) -> (usize, usize) {
    let b = ByteAllocator::alloc_bytes(a, 100, 4).unwrap();
    let p = PageAllocator::alloc_pages(a, 1, 4096).unwrap();
    (b, p)
}

#[test]
fn interface_dispatch() {
    let mut a = fresh();
    assert_eq!(BaseAllocator::add_memory(&mut a, 0x5000, 0x1000), Ok(()));
    assert_eq!(fill_through_interface(&mut a), (0x1000, 0x5000));
    assert_eq!(ByteAllocator::used_bytes(&a), 100);
    assert_eq!(PageAllocator::used_pages(&a), 1);
    assert_eq!(PageAllocator::total_pages(&a), 5);
    ByteAllocator::dealloc(&mut a, 0x1000, 100);
    PageAllocator::dealloc_pages(&mut a, 0x5000, 1);
    assert_eq!(ByteAllocator::available_bytes(&a), 0x5000);
    assert_eq!(PageAllocator::available_pages(&a), 5);
}
