use vstd::prelude::*;

verus! {

/// Modulus of the Park–Miller–Lehmer generator, `2^31 - 1`.
pub const RAND_MAX: u64 = 2_147_483_647;

/// The generator's next seed after `s`.
pub open spec fn lehmer_next(s: int) -> int {
    (s * 48271) % (RAND_MAX as int)
}

/// The four seeds that follow `seed`, packed from the first (highest 32 bits) to
/// the fourth (lowest 32 bits).
pub open spec fn lehmer_pack(seed: int) -> int {
    let n1 = lehmer_next(seed);
    let n2 = lehmer_next(n1);
    let n3 = lehmer_next(n2);
    let n4 = lehmer_next(n3);
    ((n1 * 0x1_0000_0000 + n2) * 0x1_0000_0000 + n3) * 0x1_0000_0000 + n4
}

/// Advances the generator by one step.
pub fn lehmer_step(s: u32) -> (r: u32)
    ensures
        r == lehmer_next(s as int),
        r < RAND_MAX,
{
    assert(s as u64 * 48271 <= u64::MAX) by (nonlinear_arith)
        requires
            s <= u32::MAX,
    ;
    ((s as u64 * 48271) % RAND_MAX) as u32
}

/// A 128-bit random value drawn from the generator state `seed`, with the state
/// that follows it: four steps, each adding 32 bits below the previous ones.
pub fn lehmer_random(seed: u32) -> (r: (u128, u32))
    ensures
        r.0 == lehmer_pack(seed as int),
        r.1 == lehmer_next(lehmer_next(lehmer_next(lehmer_next(seed as int)))),
{
    let n1 = lehmer_step(seed);
    let n2 = lehmer_step(n1);
    let n3 = lehmer_step(n2);
    let n4 = lehmer_step(n3);
    let w: u128 = 0x1_0000_0000;
    assert(((n1 * w + n2) * w + n3) * w + n4 <= u128::MAX) by (nonlinear_arith)
        requires
            n1 < w,
            n2 < w,
            n3 < w,
            n4 < w,
            w == 0x1_0000_0000,
    ;
    assert((n1 * w + n2) * w + n3 < w * w * w) by (nonlinear_arith)
        requires
            n1 < w,
            n2 < w,
            n3 < w,
            w == 0x1_0000_0000,
    ;
    assert(n1 * w + n2 < w * w) by (nonlinear_arith)
        requires
            n1 < w,
            n2 < w,
            w == 0x1_0000_0000,
    ;
    let hi = n1 as u128 * w + n2 as u128;
    let mid = hi * w + n3 as u128;
    let ret = mid * w + n4 as u128;
    (ret, n4)
}

/// Splits a 128-bit random value into the two 64-bit keys of a hasher: the high
/// half first.
pub fn split_keys(state: u128) -> (r: (u64, u64))
    ensures
        r.0 == state as int / 0x1_0000_0000_0000_0000,
        r.1 == state as int % 0x1_0000_0000_0000_0000,
{
    let k0 = (state / 0x1_0000_0000_0000_0000) as u64;
    let k1 = (state % 0x1_0000_0000_0000_0000) as u64;
    (k0, k1)
}

} // verus!
