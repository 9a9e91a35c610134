//! Time-optimal (bang-bang) angular-velocity planner for one axis.
use vstd::prelude::*;
use crate::fixed::{SCALE, abs, signum, fmul, trunc_div, div_trunc, lemma_mul_abs_bound, lemma_trunc_div_bound};

verus! {

/// Half a turn, in thousandths of a radian.
pub const PI: i64 = 3142;

/// A full turn, in thousandths of a radian.
pub const TAU: i64 = 6284;

/// Angular rate the planner commands, toward or away from the target
/// (10 rad/s).
pub const MAX_RATE: i64 = 10_000;

/// Time to target assumed when no positive root is found (1000 s).
pub const FALLBACK_TIME: i64 = 1_000_000;

/// Largest magnitude of an angular velocity the planner accepts (raw).
pub const MAX_ANGVEL: i64 = 1_000_000_000;

/// `d` brought into `(-PI, PI]` by whole turns.
pub open spec fn wrap_angle(d: int) -> int {
    let m = d % (TAU as int);
    if m > PI {
        m - TAU
    } else {
        m
    }
}

/// `r` is the integer square root of `x`, rounded down.
pub open spec fn is_floor_sqrt(r: int, x: int) -> bool {
    0 <= r && r * r <= x && x < (r + 1) * (r + 1)
}

/// Fixed-point square root, rounded down.
pub open spec fn fsqrt(x: int) -> int {
    choose|r: int| #[trigger] is_floor_sqrt(r, x * SCALE)
}

/// `best` lowered to `t` when `t` is a positive time below it.
pub open spec fn keep_positive(t: int, best: int) -> int {
    if 0 < t && t < best {
        t
    } else {
        best
    }
}

/// Smallest positive root, over both branches `rem = ±(v·t + a·t²/2)`, of the
/// time needed to cover the remaining angle `rem` at velocity `v` with the
/// acceleration `a = torque / inertia`; `FALLBACK_TIME` when none is smaller.
/// Every quotient by `a` is taken as a product by `inertia` over `torque`, so
/// that no rounded acceleration stands in between.
pub open spec fn least_time_to_target(rem: int, v: int, torque: int, inertia: int) -> int {
    let q = trunc_div(v * inertia, 2 * torque);
    let qq = fmul(q, q);
    let c1 = trunc_div(rem * inertia, torque) + qq;
    let c2 = trunc_div(-rem * inertia, torque) + qq;
    let t0 = FALLBACK_TIME as int;
    let t1 = if c1 > 0 {
        keep_positive(-q - fsqrt(c1), keep_positive(-q + fsqrt(c1), t0))
    } else {
        t0
    };
    if c2 > 0 {
        keep_positive(q - fsqrt(c2), keep_positive(q + fsqrt(c2), t1))
    } else {
        t1
    }
}

/// Time to brake from `v` to rest with the acceleration `torque / inertia`.
pub open spec fn time_to_stop(v: int, torque: int, inertia: int) -> int {
    trunc_div(abs(v) * inertia, torque)
}

/// The angular velocity to aim for about one axis: `v` itself when the axis
/// has no inertia or no torque to turn it (a budget that is not positive);
/// otherwise full rate against the current motion when stopping takes longer
/// than reaching the target, and full rate toward the target when not.
pub open spec fn target_angular_velocity(
    target_angle: int,
    angle: int,
    v: int,
    max_torque: int,
    inertia: int,
) -> int {
    if inertia == 0 || max_torque <= 0 {
        v
    } else {
        let rem = wrap_angle(target_angle - angle);
        if time_to_stop(v, max_torque, inertia) > least_time_to_target(rem, v, max_torque, inertia) {
            -signum(v) * MAX_RATE
        } else {
            signum(rem) * MAX_RATE
        }
    }
}

/// The least time to target is positive and never exceeds `FALLBACK_TIME`.
pub proof fn lemma_least_time_at_most_fallback(rem: int, v: int, torque: int, inertia: int)
    ensures
        0 < least_time_to_target(rem, v, torque, inertia) <= FALLBACK_TIME,
{
}

/// `Some(v)` when `v` is positive.
pub fn positive(v: i128) -> (r: Option<i128>)
    ensures
        r == if v > 0 { Some(v) } else { None::<i128> },
{
    if v > 0 {
        Some(v)
    } else {
        None
    }
}

/// The signed shortest angle from `b` to `a`, in `(-PI, PI]`.
pub fn angle_difference(a: i64, b: i64) -> (r: i64)
    ensures
        r == wrap_angle(a - b),
        -PI < r <= PI,
{
    let d = a as i128 - b as i128;
    let tau = TAU as i128;
    let m: i128 = if d >= 0 {
        d % tau
    } else {
        let n = -d;
        let k = n % tau;
        proof {
            let q = n / tau;
            vstd::arithmetic::div_mod::lemma_fundamental_div_mod(n as int, tau as int);
            if k == 0 {
                vstd::arithmetic::div_mod::lemma_fundamental_div_mod_converse(d as int, tau as int, -q, 0);
            } else {
                vstd::arithmetic::div_mod::lemma_fundamental_div_mod_converse(d as int, tau as int, -q - 1, tau - k);
            }
        }
        if k == 0 {
            0
        } else {
            tau - k
        }
    };
    assert(m == (d as int) % (TAU as int));
    if m > PI as i128 {
        (m - tau) as i64
    } else {
        m as i64
    }
}

/// Integer square root, rounded down.
fn isqrt(x: u128) -> (r: u128)
    requires
        x < 0x100_0000_0000_0000_0000_0000_0000_0000,
    ensures
        is_floor_sqrt(r as int, x as int),
        r < 0x1000_0000_0000_0000,
{
    let mut lo: u128 = 0;
    let mut hi: u128 = 0x1000_0000_0000_0000;
    assert(hi * hi == 0x100_0000_0000_0000_0000_0000_0000_0000) by (nonlinear_arith)
        requires hi == 0x1000_0000_0000_0000;
    while hi - lo > 1
        invariant
            lo < hi <= 0x1000_0000_0000_0000,
            lo * lo <= x,
            x < hi * hi,
        decreases hi - lo,
    {
        let mid = lo + (hi - lo) / 2;
        assert(mid * mid <= 0x100_0000_0000_0000_0000_0000_0000_0000) by (nonlinear_arith)
            requires mid <= 0x1000_0000_0000_0000;
        if mid * mid <= x {
            lo = mid;
        } else {
            hi = mid;
        }
    }
    lo
}

/// The floor square root is unique.
proof fn lemma_floor_sqrt_unique(r1: int, r2: int, x: int)
    requires
        is_floor_sqrt(r1, x),
        is_floor_sqrt(r2, x),
    ensures
        r1 == r2,
{
    if r1 < r2 {
        assert((r1 + 1) * (r1 + 1) <= r2 * r2) by (nonlinear_arith)
            requires 0 <= r1 + 1 <= r2;
    } else if r2 < r1 {
        assert((r2 + 1) * (r2 + 1) <= r1 * r1) by (nonlinear_arith)
            requires 0 <= r2 + 1 <= r1;
    }
}

/// Fixed-point square root of a positive value.
fn fixed_sqrt(x: i128) -> (r: i128)
    requires
        0 < x <= 1_000_000_000_000_000_000_000_000_000,
    ensures
        r == fsqrt(x as int),
        0 <= r < 0x1000_0000_0000_0000,
{
    let r = isqrt((x * 1000) as u128);
    proof {
        assert(is_floor_sqrt(r as int, x * SCALE));
        let c = choose|c: int| #[trigger] is_floor_sqrt(c, x * SCALE);
        lemma_floor_sqrt_unique(r as int, c, x * SCALE);
    }
    r as i128
}

/// Lowers `best` to `t` when `t` is a positive time below it.
fn keep_if_positive(t: i128, best: i128) -> (r: i128)
    ensures
        r == keep_positive(t as int, best as int),
{
    match positive(t) {
        Some(p) => if p < best {
            p
        } else {
            best
        },
        None => best,
    }
}

/// The angular velocity to command about one axis so that a following rate
/// loop reaches `target_angle` in about the least time the torque limit
/// allows (see `target_angular_velocity`).
pub fn calculate_target_angular_velocity(
    target_angle: i64,
    angle: i64,
    angular_velocity: i64,
    max_torque: i64,
    angular_inertia: i64,
) -> (r: i64)
    ensures
        r == target_angular_velocity(
            target_angle as int,
            angle as int,
            angular_velocity as int,
            max_torque as int,
            angular_inertia as int,
        ),
        angular_inertia == 0 ==> r == angular_velocity,
        angular_inertia != 0 && max_torque > 0 ==> r == -MAX_RATE || r == 0 || r == MAX_RATE,
        abs(r as int) <= abs(angular_velocity as int) || abs(r as int) <= MAX_RATE,
{
    if angular_inertia == 0 || max_torque <= 0 {
        return angular_velocity;
    }
    let inertia = angular_inertia as i128;
    let torque = max_torque as i128;
    let remaining_angle = angle_difference(target_angle, angle) as i128;
    if angular_inertia < 0 {
        // The time to stop, |v|·I/T, is not positive, and the time to target
        // is: the rule always drives toward the target.
        proof {
            let v = angular_velocity as int;
            assert(abs(v) * inertia <= 0) by (nonlinear_arith)
                requires
                    inertia < 0,
            ;
            lemma_least_time_at_most_fallback(remaining_angle as int, v, torque as int, inertia as int);
            assert(time_to_stop(v, torque as int, inertia as int) <= 0);
        }
        return if remaining_angle > 0 {
            MAX_RATE
        } else if remaining_angle < 0 {
            -MAX_RATE
        } else {
            0
        };
    }
    let v = angular_velocity as i128;
    let speed = if v < 0 { -v } else { v };
    proof {
        lemma_mul_abs_bound(speed as int, inertia as int, 0x8000_0000_0000_0000, 0x8000_0000_0000_0000);
        lemma_mul_abs_bound(v as int, inertia as int, 0x8000_0000_0000_0000, 0x8000_0000_0000_0000);
        lemma_mul_abs_bound(remaining_angle as int, inertia as int, PI as int, 0x8000_0000_0000_0000);
        lemma_mul_abs_bound(-remaining_angle, inertia as int, PI as int, 0x8000_0000_0000_0000);
        lemma_least_time_at_most_fallback(remaining_angle as int, v as int, torque as int, inertia as int);
    }
    let time_to_stop = div_trunc(speed * inertia, torque);
    if time_to_stop > FALLBACK_TIME as i128 {
        return if v > 0 {
            -MAX_RATE
        } else if v < 0 {
            MAX_RATE
        } else {
            0
        };
    }
    let q = div_trunc(v * inertia, 2 * torque);
    proof {
        let x = abs(v * inertia);
        assert(x == speed * inertia) by (nonlinear_arith)
            requires
                x == abs(v * inertia),
                speed == abs(v as int),
                inertia > 0,
        ;
        lemma_trunc_div_bound(v * inertia, 2 * torque, x);
        vstd::arithmetic::div_mod::lemma_div_is_ordered_by_denominator(x, torque as int, 2 * torque);
        lemma_mul_abs_bound(q as int, q as int, FALLBACK_TIME as int, FALLBACK_TIME as int);
    }
    let qq = div_trunc(q * q, 1000);
    let a1 = div_trunc(remaining_angle * inertia, torque);
    let a2 = div_trunc(-remaining_angle * inertia, torque);
    let cube_1 = a1 + qq;
    let cube_2 = a2 + qq;

    let mut time_to_target: i128 = FALLBACK_TIME as i128;
    if cube_1 > 0 {
        let s = fixed_sqrt(cube_1);
        time_to_target = keep_if_positive(-q + s, time_to_target);
        time_to_target = keep_if_positive(-q - s, time_to_target);
    }
    if cube_2 > 0 {
        let s = fixed_sqrt(cube_2);
        time_to_target = keep_if_positive(q + s, time_to_target);
        time_to_target = keep_if_positive(q - s, time_to_target);
    }
    assert(time_to_target == least_time_to_target(remaining_angle as int, v as int, torque as int, inertia as int));

    if time_to_stop > time_to_target {
        if v > 0 {
            -MAX_RATE
        } else if v < 0 {
            MAX_RATE
        } else {
            0
        }
    } else if remaining_angle > 0 {
        MAX_RATE
    } else if remaining_angle < 0 {
        -MAX_RATE
    } else {
        0
    }
}

} // verus!
