//! Fixed-point arithmetic. A quantity is an integer count of thousandths of
//! its unit (metres, newtons, radians, seconds, ...): `1500` is one and a half.
//! Products and quotients round toward zero.
use vstd::prelude::*;

verus! {

/// Raw value of one unit.
pub const SCALE: i64 = 1000;

/// Integer division of `a` by a positive `b`, rounding toward zero.
pub open spec fn trunc_div(a: int, b: int) -> int {
    if a >= 0 {
        a / b
    } else {
        -((-a) / b)
    }
}

/// Fixed-point product.
pub open spec fn fmul(a: int, b: int) -> int {
    trunc_div(a * b, SCALE as int)
}

/// Fixed-point quotient by a positive `b`.
pub open spec fn fdiv(a: int, b: int) -> int {
    trunc_div(a * SCALE, b)
}

pub open spec fn abs(a: int) -> int {
    if a < 0 {
        -a
    } else {
        a
    }
}

/// The sign of `a`: 1, -1, or 0 for zero.
pub open spec fn signum(a: int) -> int {
    if a > 0 {
        1
    } else if a < 0 {
        -1
    } else {
        0
    }
}

pub open spec fn clamp(a: int, lo: int, hi: int) -> int {
    if a < lo {
        lo
    } else if a > hi {
        hi
    } else {
        a
    }
}

pub open spec fn min(a: int, b: int) -> int {
    if a <= b {
        a
    } else {
        b
    }
}

/// `trunc_div` keeps the magnitude bound of its dividend, divided.
pub proof fn lemma_trunc_div_bound(a: int, b: int, m: int)
    requires
        b > 0,
        abs(a) <= m,
    ensures
        abs(trunc_div(a, b)) <= m / b,
        abs(trunc_div(a, b)) <= abs(a),
        abs(trunc_div(a, b)) == abs(a) / b,
{
    vstd::arithmetic::div_mod::lemma_div_is_ordered(abs(a), m, b);
    vstd::arithmetic::div_mod::lemma_div_is_ordered_by_denominator(abs(a), 1, b);
    vstd::arithmetic::div_mod::lemma_div_pos_is_pos(abs(a), b);
}

/// A bound on the magnitude of a product.
pub proof fn lemma_mul_abs_bound(a: int, b: int, ma: int, mb: int)
    requires
        abs(a) <= ma,
        abs(b) <= mb,
    ensures
        abs(a * b) <= ma * mb,
        abs(a * b) == abs(a) * abs(b),
{
    assert(abs(a * b) == abs(a) * abs(b)) by (nonlinear_arith);
    assert(abs(a) * abs(b) <= ma * mb) by (nonlinear_arith)
        requires
            0 <= abs(a) <= ma,
            0 <= abs(b) <= mb,
    ;
}

/// Division rounding toward zero, on 128-bit intermediates.
pub fn div_trunc(a: i128, b: i128) -> (r: i128)
    requires
        b > 0,
        a > i128::MIN,
    ensures
        r == trunc_div(a as int, b as int),
        abs(r as int) <= abs(a as int),
{
    proof {
        lemma_trunc_div_bound(a as int, b as int, abs(a as int));
    }
    if a >= 0 {
        a / b
    } else {
        let n = -a;
        -(n / b)
    }
}

} // verus!
