//! Exact products of 128-bit numbers, computed in two 128-bit halves.

use vstd::prelude::*;

verus! {

/// The weight of one 64-bit limb: 2^64.
pub const LIMB: u128 = 0x1_0000_0000_0000_0000;

/// The weight of the high half of a 256-bit product: 2^128.
pub open spec fn two_pow_128() -> int {
    u128::MAX + 1
}

/// The product of two limbs fits in 128 bits, with room to spare.
proof fn lemma_limb_product(x: int, y: int)
    requires
        0 <= x < LIMB,
        0 <= y < LIMB,
    ensures
        0 <= x * y <= 0xFFFF_FFFF_FFFF_FFFE_0000_0000_0000_0001,
{
    assert(0 <= x * y <= (LIMB - 1) * (LIMB - 1)) by (nonlinear_arith)
        requires
            0 <= x <= LIMB - 1,
            0 <= y <= LIMB - 1,
    ;
}

/// Schoolbook multiplication on two limbs each.
proof fn lemma_limb_expansion(a1: int, a0: int, b1: int, b0: int, w: int)
    ensures
        (a1 * w + a0) * (b1 * w + b0) == (a1 * b1) * (w * w) + (a0 * b1 + a1 * b0) * w + a0
            * b0,
{
    let b = b1 * w + b0;
    assert((a1 * w + a0) * b == (a1 * w) * b + a0 * b) by (nonlinear_arith);
    assert((a1 * w) * b == (a1 * w) * (b1 * w) + (a1 * w) * b0) by (nonlinear_arith)
        requires
            b == b1 * w + b0,
    ;
    assert(a0 * b == a0 * (b1 * w) + a0 * b0) by (nonlinear_arith)
        requires
            b == b1 * w + b0,
    ;
    assert((a1 * w) * (b1 * w) == (a1 * b1) * (w * w)) by (nonlinear_arith);
    assert((a1 * w) * b0 == (a1 * b0) * w) by (nonlinear_arith);
    assert(a0 * (b1 * w) == (a0 * b1) * w) by (nonlinear_arith);
    assert((a0 * b1 + a1 * b0) * w == (a0 * b1) * w + (a1 * b0) * w) by (nonlinear_arith);
}

/// The full product of `a` and `b` as a pair `(high, low)` of 128-bit halves.
pub fn wide_product(a: u128, b: u128) -> (r: (u128, u128))
    ensures
        r.0 * two_pow_128() + r.1 == a * b,
{
    let a0: u128 = a % LIMB;
    let a1: u128 = a / LIMB;
    let b0: u128 = b % LIMB;
    let b1: u128 = b / LIMB;
    proof {
        lemma_limb_product(a0 as int, b0 as int);
        lemma_limb_product(a0 as int, b1 as int);
        lemma_limb_product(a1 as int, b0 as int);
        lemma_limb_product(a1 as int, b1 as int);
        lemma_limb_expansion(a1 as int, a0 as int, b1 as int, b0 as int, LIMB as int);
    }
    let ll: u128 = a0 * b0;
    let lh: u128 = a0 * b1;
    let hl: u128 = a1 * b0;
    let hh: u128 = a1 * b1;
    let cross: u128 = ll / LIMB + lh % LIMB + hl % LIMB;
    let lo: u128 = (cross % LIMB) * LIMB + ll % LIMB;
    let hi: u128 = hh + lh / LIMB + hl / LIMB + cross / LIMB;
    proof {
        let w = LIMB as int;
        assert(w * w == two_pow_128());
        assert(a == a1 * w + a0);
        assert(b == b1 * w + b0);
        assert(a * b == hh * two_pow_128() + (lh + hl) * w + ll);
    }
    (hi, lo)
}

/// Whether `a * b` and `c * d` are the same number, decided without overflow.
pub fn products_equal(a: u128, b: u128, c: u128, d: u128) -> (r: bool)
    ensures
        r == (a * b == c * d),
{
    let (h1, l1) = wide_product(a, b);
    let (h2, l2) = wide_product(c, d);
    proof {
        let p = two_pow_128();
        if h1 < h2 {
            assert(h1 * p + p <= h2 * p) by (nonlinear_arith)
                requires
                    h1 + 1 <= h2,
                    p > 0,
            ;
        }
        if h2 < h1 {
            assert(h2 * p + p <= h1 * p) by (nonlinear_arith)
                requires
                    h2 + 1 <= h1,
                    p > 0,
            ;
        }
    }
    h1 == h2 && l1 == l2
}

} // verus!
