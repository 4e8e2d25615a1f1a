use vstd::prelude::*;

verus! {

/// `n` is a power of two.
pub open spec fn is_pow2(n: int) -> bool
    decreases n,
{
    if n <= 0 {
        false
    } else if n == 1 {
        true
    } else {
        n % 2 == 0 && is_pow2(n / 2)
    }
}

/// The smallest multiple of `align` that is not below `pos`.
pub open spec fn align_up_spec(pos: int, align: int) -> int {
    if pos % align == 0 {
        pos
    } else {
        pos - pos % align + align
    }
}

/// The largest multiple of `align` that is not above `pos`.
pub open spec fn align_down_spec(pos: int, align: int) -> int {
    pos - pos % align
}

/// Rounds `pos` up to a multiple of `align`; `None` when the result does not fit in `usize`.
pub fn align_up(pos: usize, align: usize) -> (r: Option<usize>)
    requires
        align > 0,
    ensures
        align_up_spec(pos as int, align as int) <= usize::MAX ==> r == Some(
            align_up_spec(pos as int, align as int) as usize,
        ),
        align_up_spec(pos as int, align as int) > usize::MAX ==> r.is_none(),
{
    let rem: usize = pos % align;
    if rem == 0 {
        Some(pos)
    } else {
        pos.checked_add(align - rem)
    }
}

/// Rounds `pos` down to a multiple of `align`.
pub fn align_down(pos: usize, align: usize) -> (r: usize)
    requires
        align > 0,
    ensures
        r == align_down_spec(pos as int, align as int),
{
    let rem: usize = pos % align;
    proof {
        lemma_align_down(pos as int, align as int);
    }
    pos - rem
}

/// Facts about aligning up: the result is a multiple of `align`, not below `pos`,
/// and less than `align` above it.
pub proof fn lemma_align_up(pos: int, align: int)
    requires
        pos >= 0,
        align > 0,
    ensures
        align_up_spec(pos, align) % align == 0,
        pos <= align_up_spec(pos, align) < pos + align,
        align == 1 ==> align_up_spec(pos, align) == pos,
{
    vstd::arithmetic::div_mod::lemma_fundamental_div_mod(pos, align);
    let q = pos / align;
    if pos % align != 0 {
        assert(pos - pos % align + align == align * (q + 1)) by (nonlinear_arith)
            requires
                pos == align * q + pos % align,
        ;
        vstd::arithmetic::div_mod::lemma_mod_multiples_basic(q + 1, align);
        assert((q + 1) * align == align * (q + 1)) by (nonlinear_arith);
    }
    if align == 1 {
        assert(pos % 1 == 0);
    }
}

/// Facts about aligning down: the result is a multiple of `align`, not above `pos`,
/// and less than `align` below it.
pub proof fn lemma_align_down(pos: int, align: int)
    requires
        pos >= 0,
        align > 0,
    ensures
        align_down_spec(pos, align) % align == 0,
        pos - align < align_down_spec(pos, align) <= pos,
        align_down_spec(pos, align) >= 0,
{
    vstd::arithmetic::div_mod::lemma_fundamental_div_mod(pos, align);
    let q = pos / align;
    vstd::arithmetic::div_mod::lemma_mod_multiples_basic(q, align);
    assert(q * align == align * q) by (nonlinear_arith);
    vstd::arithmetic::div_mod::lemma_div_pos_is_pos(pos, align);
    assert(align * q >= 0) by (nonlinear_arith)
        requires
            q >= 0,
            align > 0,
    ;
}

} // verus!
