//! Integer square root and a scaling identity for integer division.
//!
//! The resonance formula takes the square root of a scaled stiffness/mass
//! ratio.  In fixed point that is the integer square root, defined here with
//! its characteristic bounds, plus the identity that lets an overflowing
//! product `a * c / b` be computed as quotient and remainder parts.

use vstd::prelude::*;

verus! {

use vstd::arithmetic::div_mod::{lemma_fundamental_div_mod, lemma_hoist_over_denominator};

/// The integer square root: the largest `r` with `r * r <= s`.
pub open spec fn spec_isqrt(s: nat) -> nat
    decreases s,
{
    if s == 0 {
        0
    } else {
        let p = spec_isqrt((s - 1) as nat);
        if (p + 1) * (p + 1) <= s {
            p + 1
        } else {
            p
        }
    }
}

/// The integer square root of `s` squares to at most `s`, and its successor
/// squares to more than `s`.
pub proof fn lemma_isqrt_bounds(s: nat)
    ensures
        spec_isqrt(s) * spec_isqrt(s) <= s,
        s < (spec_isqrt(s) + 1) * (spec_isqrt(s) + 1),
    decreases s,
{
    if s == 0 {
        assert(spec_isqrt(s) == 0);
        assert(s < (spec_isqrt(s) + 1) * (spec_isqrt(s) + 1)) by (nonlinear_arith)
            requires
                s == 0,
                spec_isqrt(s) == 0,
        ;
    } else {
        let sm = (s - 1) as nat;
        let p = spec_isqrt(sm);
        lemma_isqrt_bounds(sm);
        assert(p * p <= sm);
        assert(sm < (p + 1) * (p + 1));
        if (p + 1) * (p + 1) <= s {
            assert(spec_isqrt(s) == p + 1);
            assert(s <= (p + 1) * (p + 1));
            assert(s < (p + 2) * (p + 2)) by (nonlinear_arith)
                requires
                    s <= (p + 1) * (p + 1),
                    0 <= p,
            ;
            assert((p + 2) * (p + 2) == (spec_isqrt(s) + 1) * (spec_isqrt(s) + 1));
        } else {
            assert(spec_isqrt(s) == p);
            assert(spec_isqrt(s) * spec_isqrt(s) <= s);
            assert(s < (spec_isqrt(s) + 1) * (spec_isqrt(s) + 1));
        }
    }
}

/// Any `r` satisfying the two square-root bounds is the integer square root.
pub proof fn lemma_isqrt_unique(s: nat, r: nat)
    requires
        r * r <= s,
        s < (r + 1) * (r + 1),
    ensures
        r == spec_isqrt(s),
{
    let q = spec_isqrt(s);
    lemma_isqrt_bounds(s);
    if r < q {
        assert((r + 1) * (r + 1) <= q * q) by (nonlinear_arith)
            requires
                r + 1 <= q,
                0 <= r,
        ;
    }
    if q < r {
        assert((q + 1) * (q + 1) <= r * r) by (nonlinear_arith)
            requires
                q + 1 <= r,
                0 <= q,
        ;
    }
}

/// The integer square root, by binary search on `[0, 2^64]`.
pub fn integer_sqrt(s: u128) -> (r: u128)
    ensures
        r == spec_isqrt(s as nat),
        r * r <= s,
        s < (r + 1) * (r + 1),
{
    let mut lo: u128 = 0;
    let mut hi: u128 = 18_446_744_073_709_551_616;
    assert(hi * hi > s) by (nonlinear_arith)
        requires
            hi == 18_446_744_073_709_551_616u128,
            s <= u128::MAX,
    ;
    while lo + 1 < hi
        invariant
            lo < hi <= 18_446_744_073_709_551_616,
            lo * lo <= s,
            hi * hi > s,
        decreases hi - lo,
    {
        let mid = lo + (hi - lo) / 2;
        assert(lo < mid < hi);
        assert(mid * mid <= u128::MAX) by (nonlinear_arith)
            requires
                mid <= 18_446_744_073_709_551_615u128,
                0 <= mid,
        ;
        let m2 = mid * mid;
        if m2 <= s {
            lo = mid;
        } else {
            hi = mid;
        }
    }
    proof {
        lemma_isqrt_unique(s as nat, lo as nat);
    }
    lo
}

/// A square is never negative.
pub proof fn lemma_square_nonneg(e: int)
    by (nonlinear_arith)
    ensures
        e * e >= 0,
{
}

/// A square vanishes exactly when its root does.
pub proof fn lemma_square_zero_iff(e: int)
    by (nonlinear_arith)
    ensures
        e * e == 0 <==> e == 0,
{
}

/// Squaring preserves order on the non-negative integers.
pub proof fn lemma_square_monotone(a: int, b: int)
    by (nonlinear_arith)
    requires
        0 <= a <= b,
    ensures
        a * a <= b * b,
{
}

/// Splitting a scaled quotient: `a * c / b` equals `c` copies of the whole
/// quotient of `a / b` plus the scaled remainder's quotient.  This computes
/// `a * c / b` exactly even where the product `a * c` itself would overflow.
pub proof fn lemma_div_mul_split(a: int, b: int, c: int)
    requires
        0 <= a,
        0 < b,
        0 <= c,
    ensures
        (a / b) * c + ((a % b) * c) / b == (a * c) / b,
{
    let q = a / b;
    let r = a % b;
    lemma_fundamental_div_mod(a, b);
    assert(a == b * q + r);
    assert(a * c == (r * c) + (q * c) * b) by (nonlinear_arith)
        requires
            a == b * q + r,
    ;
    lemma_hoist_over_denominator(r * c, q * c, b as nat);
    assert((r * c) / b + q * c == (r * c + (q * c) * b) / b);
}

} // verus!
