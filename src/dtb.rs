use vstd::prelude::*;

verus! {

/// The memory layout found in a flattened device tree.
pub struct DtbInfo {
    /// Start of the memory the tree describes.
    pub memory_addr: usize,
    /// Size of that memory.
    pub memory_size: usize,
    /// `(address, size)` of each virtio MMIO region, in the order of the tree.
    pub mmio_regions: Vec<(usize, usize)>,
}

/// The bytes of the node-name prefix `virtio_mmio`.
pub open spec fn virtio_mmio_prefix() -> Seq<u8> {
    seq![118u8, 105u8, 114u8, 116u8, 105u8, 111u8, 95u8, 109u8, 109u8, 105u8, 111u8]
}

/// The bytes of the property name `reg`.
pub open spec fn reg_name() -> Seq<u8> {
    seq![114u8, 101u8, 103u8]
}

/// The big-endian 32-bit value of the four bytes of `b` at `off`.
pub open spec fn be_u32(b: Seq<u8>, off: int) -> int {
    b[off] * 0x1000000 + b[off + 1] * 0x10000 + b[off + 2] * 0x100 + b[off + 3]
}

/// Whether `s` begins with `prefix`.
pub fn has_prefix(s: &[u8], prefix: &[u8]) -> (r: bool)
    ensures
        r == (prefix@.len() <= s@.len() && s@.subrange(0, prefix@.len() as int) == prefix@),
{
    if prefix.len() > s.len() {
        return false;
    }
    let mut i: usize = 0;
    while i < prefix.len()
        invariant
            prefix@.len() <= s@.len(),
            0 <= i <= prefix@.len(),
            forall|k: int| 0 <= k < i ==> s@[k] == prefix@[k],
        decreases prefix@.len() - i,
    {
        if s[i] != prefix[i] {
            assert(s@.subrange(0, prefix@.len() as int)[i as int] != prefix@[i as int]);
            return false;
        }
        i = i + 1;
    }
    assert(s@.subrange(0, prefix@.len() as int) =~= prefix@);
    true
}

/// Whether a node with this name describes a virtio MMIO device.
pub fn is_virtio_mmio_node(name: &[u8]) -> (r: bool)
    ensures
        r == (virtio_mmio_prefix().len() <= name@.len() && name@.subrange(
            0,
            virtio_mmio_prefix().len() as int,
        ) == virtio_mmio_prefix()),
{
    let prefix: Vec<u8> = vec![118u8, 105u8, 114u8, 116u8, 105u8, 111u8, 95u8, 109u8, 109u8, 105u8, 111u8];
    assert(prefix@ =~= virtio_mmio_prefix());
    has_prefix(name, prefix.as_slice())
}

/// Whether a property with this name is the `reg` property.
pub fn is_reg_prop(name: &[u8]) -> (r: bool)
    ensures
        r == (name@ == reg_name()),
{
    let reg: Vec<u8> = vec![114u8, 101u8, 103u8];
    assert(reg@ =~= reg_name());
    let r = name.len() == reg.len() && has_prefix(name, reg.as_slice());
    proof {
        if name@.len() == 3 {
            assert(name@ =~= name@.subrange(0, 3));
        }
        if name@ == reg_name() {
            assert(name@.len() == 3);
        }
    }
    r
}

/// Reads the big-endian 32-bit value of the four bytes of `b` at `off`.
pub fn read_be_u32(b: &[u8], off: usize) -> (r: u32)
    requires
        off + 4 <= b@.len(),
    ensures
        r == be_u32(b@, off as int),
{
    let b0 = b[off] as u32;
    let b1 = b[off + 1] as u32;
    let b2 = b[off + 2] as u32;
    let b3 = b[off + 3] as u32;
    assert(b0 * 0x1000000 + b1 * 0x10000 + b2 * 0x100 + b3 <= 0xffff_ffff) by (nonlinear_arith)
        requires
            b0 < 256,
            b1 < 256,
            b2 < 256,
            b3 < 256,
    ;
    b0 * 0x1000000 + b1 * 0x10000 + b2 * 0x100 + b3
}

/// The `(address, size)` that the raw value of a virtio MMIO node's `reg` property
/// gives: the low halves of its two big-endian 64-bit cells, at bytes 4 and 12.
pub fn mmio_region(raw: &[u8]) -> (r: (usize, usize))
    requires
        raw@.len() >= 16,
    ensures
        r.0 == be_u32(raw@, 4),
        r.1 == be_u32(raw@, 12),
{
    let addr = read_be_u32(raw, 4);
    let size = read_be_u32(raw, 12);
    (addr as usize, size as usize)
}

} // verus!
