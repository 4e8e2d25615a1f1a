//! Address-space allocators for early kernel memory management.
//!
//! - `interface`: the allocation contract (base, byte and page allocation).
//! - `early`: a dual-arena bump allocator over one growable interval.
//! - `talc`: the bookkeeping of a byte allocator whose requests a general-purpose
//!   heap engine serves.
//! - `dtb`: decoding of the device-tree values that describe memory regions.
//! - `fifo`: a cooperative first-in, first-out task scheduler.
//! - `rand`: the pseudo-random generator that seeds hasher keys.
use vstd::prelude::*;

pub mod align;
pub mod dtb;
pub mod early;
pub mod fifo;
pub mod interface;
pub mod rand;
pub mod talc;

verus! {

/// Errors reported by the allocators.
#[derive(Clone, Copy, Debug, PartialEq, Eq, Structural)]
pub enum AllocError {
    /// The request cannot be satisfied from the free space (out of memory).
    NoMemory,
    /// A region handed to `add_memory` does not abut the managed interval.
    MemoryOverlap,
}

/// Result type of the allocator operations.
pub type AllocResult<T = ()> = Result<T, AllocError>;

} // verus!
