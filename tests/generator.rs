use allocator::rand::{lehmer_random, lehmer_step, split_keys};

#[test]
fn lehmer_known_values() {
    assert_eq!(lehmer_step(1), 48271);
    assert_eq!(lehmer_step(48271), 182605794);
    assert_eq!(lehmer_step(0), 0);
    assert_eq!(lehmer_step(u32::MAX), ((u32::MAX as u64 * 48271) % 2_147_483_647) as u32);
}

#[test]
fn lehmer_packs_four_steps() {
    let (v, next) = lehmer_random(1);
    let n1 = lehmer_step(1) as u128;
    let n2 = lehmer_step(n1 as u32) as u128;
    let n3 = lehmer_step(n2 as u32) as u128;
    let n4 = lehmer_step(n3 as u32);
    assert_eq!(v, (n1 << 96) | (n2 << 64) | (n3 << 32) | n4 as u128);
    assert_eq!(next, n4);
}

#[test]
fn keys_split_high_first() {
    let state: u128 = (0x1122_3344_5566_7788u128 << 64) | 0x99aa_bbcc_ddee_ff00u128;
    assert_eq!(split_keys(state), (0x1122_3344_5566_7788, 0x99aa_bbcc_ddee_ff00));
}
