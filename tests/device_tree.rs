use allocator::dtb::{has_prefix, is_reg_prop, is_virtio_mmio_node, mmio_region, read_be_u32};

#[test]
fn reads_big_endian() {
    assert_eq!(read_be_u32(&[0x12, 0x34, 0x56, 0x78], 0), 0x1234_5678);
    assert_eq!(read_be_u32(&[0, 0xff, 0, 0, 0, 1], 2), 1);
}

#[test]
fn decodes_reg_cells() {
    let raw = [
        0, 0, 0, 0, 0x10, 0x00, 0x10, 0x00, 0, 0, 0, 0, 0x00, 0x00, 0x02, 0x00,
    ];
    assert_eq!(mmio_region(&raw), (0x1000_1000, 0x200));
}

#[test]
fn matches_names() {
    assert!(is_virtio_mmio_node(b"virtio_mmio@10001000"));
    assert!(is_virtio_mmio_node(b"virtio_mmio"));
    assert!(!is_virtio_mmio_node(b"virtio_mm"));
    assert!(!is_virtio_mmio_node(b"uart@10000000"));
    assert!(is_reg_prop(b"reg"));
    assert!(!is_reg_prop(b"regs"));
    assert!(!is_reg_prop(b"re"));
    assert!(has_prefix(b"abc", b""));
    assert!(!has_prefix(b"ab", b"abc"));
}
