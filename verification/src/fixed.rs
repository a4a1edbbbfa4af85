use vstd::arithmetic::div_mod::{lemma_div_basics_4, lemma_div_basics_5, lemma_div_pos_is_pos};
use vstd::prelude::*;

verus! {

/// Number of fixed-point steps per engineering unit: values are thousandths.
pub const SCALE: i64 = 1000;

/// Largest magnitude a quantity may have, in thousandths.  A value outside
/// `[-FX_MAX, FX_MAX]` plays the role a non-finite float plays for the
/// engine: it is rejected at the boundary rather than computed with.
pub const FX_MAX: i64 = 1_000_000_000_000;

/// Whether `x` lies in the representable fixed-point range.
pub open spec fn in_range(x: int) -> bool {
    -(FX_MAX as int) <= x <= FX_MAX as int
}

/// Division truncating toward zero, the rounding that the executable `/`
/// operator performs; spec-level `/` alone is Euclidean.
pub open spec fn div_trunc(a: int, b: int) -> int {
    if b >= 0 {
        if a >= 0 {
            a / b
        } else {
            -((-a) / b)
        }
    } else {
        if a >= 0 {
            -(a / (-b))
        } else {
            (-a) / (-b)
        }
    }
}

/// Truncating division never grows the magnitude of the dividend when the
/// divisor is at least one in magnitude.
pub proof fn lemma_div_trunc_bound(a: int, b: int, m: int)
    requires
        b != 0,
        -m <= a <= m,
    ensures
        -m <= div_trunc(a, b) <= m,
{
    let p = if b >= 0 { b } else { -b };
    let n = if a >= 0 { a } else { -a };
    assert(p >= 1);
    assert(0 <= n <= m);
    lemma_div_basics_4(n, p);
    lemma_div_basics_5(n, p);
    assert(0 <= n / p <= n);
}

/// Truncating division of a non-negative dividend by a positive divisor is
/// non-negative.
pub proof fn lemma_div_trunc_nonneg(a: int, b: int)
    requires
        b > 0,
        a >= 0,
    ensures
        div_trunc(a, b) >= 0,
{
    lemma_div_pos_is_pos(a, b);
}

/// Truncating division of two `i64` values.
pub fn div_trunc_i64(a: i64, b: i64) -> (q: i64)
    requires
        b != 0,
        a > i64::MIN,
    ensures
        q == div_trunc(a as int, b as int),
{
    proof {
        lemma_div_trunc_bound(a as int, b as int, i64::MAX as int);
    }
    match a.checked_div(b) {
        Some(q) => q,
        None => {
            proof {
                assert(false);
            }
            0
        },
    }
}

/// Truncating division of two `i128` values.
pub fn div_trunc_i128(a: i128, b: i128) -> (q: i128)
    requires
        b != 0,
        a > i128::MIN,
    ensures
        q == div_trunc(a as int, b as int),
{
    proof {
        lemma_div_trunc_bound(a as int, b as int, i128::MAX as int);
    }
    match a.checked_div(b) {
        Some(q) => q,
        None => {
            proof {
                assert(false);
            }
            0
        },
    }
}

/// Full-width product of two `i64` values.
pub fn mul_wide(a: i64, b: i64) -> (r: i128)
    ensures
        r == a as int * b as int,
{
    proof {
        lemma_mul_bound(a as int, b as int, 0x8000_0000_0000_0000, 0x8000_0000_0000_0000);
    }
    (a as i128) * (b as i128)
}

/// The product of two integers is bounded by the product of their bounds.
pub proof fn lemma_mul_bound(a: int, b: int, m1: int, m2: int)
    requires
        -m1 <= a <= m1,
        -m2 <= b <= m2,
    ensures
        -(m1 * m2) <= a * b <= m1 * m2,
{
    assert(-(m1 * m2) <= a * b <= m1 * m2) by (nonlinear_arith)
        requires
            -m1 <= a <= m1,
            -m2 <= b <= m2,
    ;
}

} // verus!
