//! PID regulation of the body's angular velocity onto the rotation channels.
use vstd::prelude::*;
use crate::fixed::{SCALE, abs, clamp, fdiv, fmul, min, div_trunc, lemma_mul_abs_bound, lemma_trunc_div_bound};
use crate::group::{ThrusterGroup, CHANNELS};
use crate::rig::{Vec3, Thrusters};
use crate::budget::MaxTorque;
use crate::planner::{calculate_target_angular_velocity, target_angular_velocity, MAX_ANGVEL};

verus! {

/// Largest magnitude of a gain (raw).
pub const MAX_GAIN: i64 = 1_000_000_000;

/// Largest tick length (raw).
pub const MAX_DT: i64 = 1_000_000_000;

/// Regulator state, kept from tick to tick.
#[derive(Copy, Clone, Debug, PartialEq, Eq, Structural)]
pub struct OrientationRegulator {
    /// Target attitude as angles about X, Y and Z (used in angle mode).
    pub target: Vec3,
    /// Target angular velocity in body axes.
    pub target_angvel: Vec3,
    /// Angular velocity in body axes, as last measured.
    pub local_angvel: Vec3,
    pub p_gain: i64,
    pub i_gain: i64,
    pub d_gain: i64,
    /// Error of the previous tick.
    pub prev_error: Vec3,
    /// Accumulated error, each component within `[-SCALE, SCALE]`.
    pub integral_error: Vec3,
    pub enable: bool,
    /// When set, the target angular velocity is planned from `target` each tick.
    pub angle_mode: bool,
}

/// The rotation channel slot `c` (6 to 11) acts about this axis.
pub open spec fn channel_axis(c: int) -> int {
    (c - 6) / 2
}

/// Whether rotation channel slot `c` acts in the positive sense.
pub open spec fn channel_positive(c: int) -> bool {
    (c - 6) % 2 == 0
}

/// Slot `c` is the rotation channel chosen for an error vector `e`: its axis
/// has a nonzero error of the channel's sign.
pub open spec fn chosen(e: Vec3, c: int) -> bool {
    &&& 6 <= c < 12
    &&& e.at(channel_axis(c)) != 0
    &&& (e.at(channel_axis(c)) > 0) == channel_positive(c)
}

/// Rate of change of the error; zero over an empty tick.
pub open spec fn derivative(e: int, prev: int, dt: int) -> int {
    if dt == 0 {
        0
    } else {
        fdiv(e - prev, dt)
    }
}

/// The integral after one more tick, clamped to `[-1, 1]`.
pub open spec fn integrate(integral: int, e: int, dt: int) -> int {
    clamp(integral + fmul(e, dt), -SCALE, SCALE as int)
}

/// Thrust demand `p·|e| + i·integral + d·derivative`.
pub open spec fn demand(r: OrientationRegulator, e: int, integral: int, deriv: int) -> int {
    fmul(r.p_gain as int, abs(e)) + fmul(r.i_gain as int, integral) + fmul(r.d_gain as int, deriv)
}

/// The target angular velocity for this tick about `axis`.
pub open spec fn planned(
    r: OrientationRegulator,
    local_angvel: Vec3,
    angle: Vec3,
    inertia: Vec3,
    max_torque: MaxTorque,
    axis: int,
) -> int {
    if r.angle_mode {
        target_angular_velocity(
            r.target.at(axis),
            angle.at(axis),
            local_angvel.at(axis),
            min(max_torque.positive_torque.at(axis), max_torque.negative_torque.at(axis)),
            inertia.at(axis),
        )
    } else {
        r.target_angvel.at(axis)
    }
}

/// With no integral or derivative gain the demand is the proportional term
/// `p·|e|` alone, exact whenever that product is a whole number of raw units.
pub proof fn lemma_proportional_demand(r: OrientationRegulator, e: int, integral: int, deriv: int)
    requires
        r.p_gain > 0,
        r.i_gain == 0,
        r.d_gain == 0,
    ensures
        demand(r, e, integral, deriv) == fmul(r.p_gain as int, abs(e)),
        (r.p_gain * abs(e)) % (SCALE as int) == 0 ==> demand(r, e, integral, deriv) * SCALE == r.p_gain
            * abs(e),
{
    assert(0 * integral == 0 && 0 * deriv == 0);
    let x = r.p_gain * abs(e);
    assert(x >= 0) by (nonlinear_arith)
        requires
            r.p_gain > 0,
            abs(e) >= 0,
            x == r.p_gain * abs(e),
    ;
    if x % (SCALE as int) == 0 {
        vstd::arithmetic::div_mod::lemma_fundamental_div_mod(x, SCALE as int);
    }
}

/// The integral never leaves `[-1, 1]`, whatever the error and the tick.
pub proof fn lemma_integral_clamped(integral: int, e: int, dt: int)
    ensures
        -SCALE <= integrate(integral, e, dt) <= SCALE,
{
}

/// The integral after `n` ticks of the same error `e` over ticks of the same
/// length `dt`, from `integral`.
pub open spec fn integrate_n(integral: int, e: int, dt: int, n: nat) -> int
    decreases n,
{
    if n == 0 {
        integral
    } else {
        integrate(integrate_n(integral, e, dt, (n - 1) as nat), e, dt)
    }
}

/// Under a constant error the clamp composes: from an integral within
/// `[-1, 1]`, `n` ticks give the `n`-fold step clamped once, so the integral
/// stays within `[-1, 1]` throughout and, once saturated, stays saturated.
pub proof fn lemma_integral_after_ticks(integral: int, e: int, dt: int, n: nat)
    requires
        -SCALE <= integral <= SCALE,
    ensures
        integrate_n(integral, e, dt, n) == clamp(integral + n * fmul(e, dt), -SCALE, SCALE as int),
        -SCALE <= integrate_n(integral, e, dt, n) <= SCALE,
    decreases n,
{
    if n > 0 {
        lemma_integral_after_ticks(integral, e, dt, (n - 1) as nat);
        let s = fmul(e, dt);
        assert(integral + n * s == integral + (n - 1) * s + s) by (nonlinear_arith);
        if s >= 0 {
            assert(integral + (n - 1) * s >= -SCALE) by (nonlinear_arith)
                requires
                    s >= 0,
                    n >= 1,
                    integral >= -SCALE,
            ;
        } else {
            assert(integral + (n - 1) * s <= SCALE) by (nonlinear_arith)
                requires
                    s < 0,
                    n >= 1,
                    integral <= SCALE,
            ;
        }
    }
}

impl OrientationRegulator {
    pub open spec fn wf(self) -> bool {
        &&& self.target_angvel.bounded(MAX_ANGVEL as int)
        &&& self.local_angvel.bounded(MAX_ANGVEL as int)
        &&& self.prev_error.bounded(2 * MAX_ANGVEL)
        &&& self.integral_error.bounded(SCALE as int)
        &&& abs(self.p_gain as int) <= MAX_GAIN
        &&& abs(self.i_gain as int) <= MAX_GAIN
        &&& abs(self.d_gain as int) <= MAX_GAIN
    }

    /// A regulator with the given gains, holding zero angular velocity.
    pub fn new(p_gain: i64, i_gain: i64, d_gain: i64) -> (r: OrientationRegulator)
        ensures
            r.p_gain == p_gain && r.i_gain == i_gain && r.d_gain == d_gain,
            r.target == Vec3::zero_spec() && r.target_angvel == Vec3::zero_spec(),
            r.local_angvel == Vec3::zero_spec(),
            r.prev_error == Vec3::zero_spec() && r.integral_error == Vec3::zero_spec(),
            r.enable,
            !r.angle_mode,
            abs(p_gain as int) <= MAX_GAIN && abs(i_gain as int) <= MAX_GAIN && abs(d_gain as int)
                <= MAX_GAIN ==> r.wf(),
    {
        OrientationRegulator {
            target: Vec3::zero(),
            target_angvel: Vec3::zero(),
            local_angvel: Vec3::zero(),
            p_gain,
            i_gain,
            d_gain,
            prev_error: Vec3::zero(),
            integral_error: Vec3::zero(),
            enable: true,
            angle_mode: false,
        }
    }
}

impl Default for OrientationRegulator {
    /// Proportional gain 10, enabled, holding a yaw of half a radian.
    fn default() -> (r: OrientationRegulator)
        ensures
            r.p_gain == 10 * SCALE && r.i_gain == 0 && r.d_gain == 0,
            r.target == (Vec3 { x: 0, y: 500, z: 0 }),
            r.target_angvel == Vec3::zero_spec() && r.local_angvel == Vec3::zero_spec(),
            r.prev_error == Vec3::zero_spec() && r.integral_error == Vec3::zero_spec(),
            r.enable && r.angle_mode,
            r.wf(),
    {
        OrientationRegulator {
            target: Vec3::new(0, 500, 0),
            target_angvel: Vec3::zero(),
            local_angvel: Vec3::zero(),
            p_gain: 10 * SCALE,
            i_gain: 0,
            d_gain: 0,
            prev_error: Vec3::zero(),
            integral_error: Vec3::zero(),
            enable: true,
            angle_mode: true,
        }
    }
}

/// One tick of regulation. Records the measured angular velocity; when
/// enabled, refreshes the target angular velocity (planned per axis in angle
/// mode, from the smaller of the two torque budgets), computes the error
/// `target - measured`, its derivative and its clamped integral, and for each
/// axis with a nonzero error selects the rotation channel of the error's sign,
/// adds it to the fire mask and writes the axis's demand into its slot.
pub fn orientation_regulator(
    regulator: &mut OrientationRegulator,
    local_angvel: Vec3,
    angle: Vec3,
    inertia: Vec3,
    max_torque: &MaxTorque,
    dt: i64,
    thrusters: &mut Thrusters,
)
    requires
        old(regulator).wf(),
        local_angvel.bounded(MAX_ANGVEL as int),
        max_torque.wf(),
        inertia.x >= 0 && inertia.y >= 0 && inertia.z >= 0,
        0 <= dt <= MAX_DT,
    ensures
        final(regulator).wf(),
        final(regulator).local_angvel == local_angvel,
        final(thrusters).thrusters@ == old(thrusters).thrusters@,
        !old(regulator).enable ==> {
            &&& *final(regulator) == (OrientationRegulator { local_angvel, ..*old(regulator) })
            &&& final(thrusters).group_thrust@ == old(thrusters).group_thrust@
            &&& final(thrusters).groups_to_fire == old(thrusters).groups_to_fire
        },
        old(regulator).enable ==> {
            let r = *final(regulator);
            let o = *old(regulator);
            &&& r == (OrientationRegulator {
                target_angvel: r.target_angvel,
                local_angvel,
                prev_error: r.prev_error,
                integral_error: r.integral_error,
                ..o
            })
            &&& forall|a: int|
                0 <= a < 3 ==> {
                    &&& #[trigger] r.target_angvel.at(a) == planned(o, local_angvel, angle, inertia, *max_torque, a)
                    &&& r.prev_error.at(a) == r.target_angvel.at(a) - local_angvel.at(a)
                    &&& r.integral_error.at(a) == integrate(o.integral_error.at(a), r.prev_error.at(a), dt as int)
                }
            &&& forall|c: int|
                #[trigger] final(thrusters).groups_to_fire.has(c) == (old(thrusters).groups_to_fire.has(c)
                    || chosen(r.prev_error, c))
            &&& forall|c: int|
                0 <= c < CHANNELS ==> #[trigger] final(thrusters).group_thrust@[c] == if chosen(r.prev_error, c) {
                    let a = channel_axis(c);
                    demand(
                        o,
                        r.prev_error.at(a),
                        r.integral_error.at(a),
                        derivative(r.prev_error.at(a), o.prev_error.at(a), dt as int),
                    )
                } else {
                    old(thrusters).group_thrust@[c] as int
                }
        },
{
    regulator.local_angvel = local_angvel;
    if !regulator.enable {
        return;
    }
    let ghost o = *old(regulator);
    if regulator.angle_mode {
        regulator.target_angvel = Vec3 {
            x: plan_axis(regulator, local_angvel, angle, inertia, max_torque, 0),
            y: plan_axis(regulator, local_angvel, angle, inertia, max_torque, 1),
            z: plan_axis(regulator, local_angvel, angle, inertia, max_torque, 2),
        };
    }
    assert(forall|a: int| 0 <= a < 3 ==> #[trigger] regulator.target_angvel.at(a) == planned(o, local_angvel, angle, inertia, *max_torque, a));
    let (ex, ix, tx) = pid_axis(regulator, local_angvel, dt, 0);
    let (ey, iy, ty) = pid_axis(regulator, local_angvel, dt, 1);
    let (ez, iz, tz) = pid_axis(regulator, local_angvel, dt, 2);
    let error = Vec3 { x: ex, y: ey, z: ez };
    let thrust = Vec3 { x: tx, y: ty, z: tz };
    regulator.prev_error = error;
    regulator.integral_error = Vec3 { x: ix, y: iy, z: iz };

    let mut groups_to_fire = ThrusterGroup::none();
    let mut axis: usize = 0;
    while axis < 3
        invariant
            axis <= 3,
            thrusters.thrusters@ == old(thrusters).thrusters@,
            thrusters.groups_to_fire == old(thrusters).groups_to_fire,
            forall|c: int| #[trigger] groups_to_fire.has(c) == (chosen(error, c) && channel_axis(c) < axis),
            forall|c: int|
                0 <= c < CHANNELS ==> #[trigger] thrusters.group_thrust@[c] == if chosen(error, c) && channel_axis(c) < axis {
                    thrust.at(channel_axis(c))
                } else {
                    old(thrusters).group_thrust@[c] as int
                },
        decreases 3 - axis,
    {
        let e = error.get(axis);
        if e != 0 {
            let group = if e > 0 {
                ThrusterGroup::positive_rotation(axis)
            } else {
                ThrusterGroup::negative_rotation(axis)
            };
            groups_to_fire.bitor_assign(group);
            let slot = group.index();
            thrusters.group_thrust[slot] = thrust.get(axis);
        }
        axis = axis + 1;
    }
    thrusters.groups_to_fire.bitor_assign(groups_to_fire);
}

/// The planned target angular velocity about `axis`.
fn plan_axis(
    r: &OrientationRegulator,
    local_angvel: Vec3,
    angle: Vec3,
    inertia: Vec3,
    max_torque: &MaxTorque,
    axis: usize,
) -> (v: i64)
    requires
        r.angle_mode,
        axis < 3,
        local_angvel.bounded(MAX_ANGVEL as int),
        max_torque.wf(),
        inertia.x >= 0 && inertia.y >= 0 && inertia.z >= 0,
    ensures
        v == planned(*r, local_angvel, angle, inertia, *max_torque, axis as int),
        abs(v as int) <= MAX_ANGVEL,
{
    let pos = max_torque.positive_torque.get(axis);
    let neg = max_torque.negative_torque.get(axis);
    let limit = if pos <= neg { pos } else { neg };
    calculate_target_angular_velocity(
        r.target.get(axis),
        angle.get(axis),
        local_angvel.get(axis),
        limit,
        inertia.get(axis),
    )
}

/// Error, new integral and thrust demand about `axis`.
fn pid_axis(r: &OrientationRegulator, local_angvel: Vec3, dt: i64, axis: usize) -> (out: (i64, i64, i64))
    requires
        r.wf(),
        axis < 3,
        local_angvel.bounded(MAX_ANGVEL as int),
        0 <= dt <= MAX_DT,
    ensures
        out.0 == r.target_angvel.at(axis as int) - local_angvel.at(axis as int),
        abs(out.0 as int) <= 2 * MAX_ANGVEL,
        out.1 == integrate(r.integral_error.at(axis as int), out.0 as int, dt as int),
        out.2 == demand(*r, out.0 as int, out.1 as int, derivative(out.0 as int, r.prev_error.at(axis as int), dt as int)),
{
    let e = r.target_angvel.get(axis) as i128 - local_angvel.get(axis) as i128;
    let prev = r.prev_error.get(axis) as i128;
    let dtw = dt as i128;
    let deriv: i128 = if dt == 0 {
        0
    } else {
        div_trunc((e - prev) * 1000, dtw)
    };
    assert(abs(deriv as int) <= 4 * MAX_ANGVEL * SCALE);
    proof {
        lemma_mul_abs_bound(e as int, dt as int, 2 * MAX_ANGVEL, MAX_DT as int);
    }
    let step = div_trunc(e * dtw, 1000);
    let raw = r.integral_error.get(axis) as i128 + step;
    let integ: i128 = if raw < -1000 {
        -1000
    } else if raw > 1000 {
        1000
    } else {
        raw
    };
    let mag = if e < 0 { -e } else { e };
    proof {
        lemma_mul_abs_bound(r.p_gain as int, mag as int, MAX_GAIN as int, 2 * MAX_ANGVEL);
        lemma_mul_abs_bound(r.i_gain as int, integ as int, MAX_GAIN as int, SCALE as int);
        lemma_mul_abs_bound(r.d_gain as int, deriv as int, MAX_GAIN as int, 4 * MAX_ANGVEL * SCALE);
        lemma_trunc_div_bound(r.p_gain * mag, SCALE as int, MAX_GAIN * (2 * MAX_ANGVEL));
        lemma_trunc_div_bound(r.i_gain * integ, SCALE as int, MAX_GAIN * SCALE);
        lemma_trunc_div_bound(r.d_gain * deriv, SCALE as int, MAX_GAIN * (4 * MAX_ANGVEL * SCALE));
    }
    let demand_p = div_trunc(r.p_gain as i128 * mag, 1000);
    let demand_i = div_trunc(r.i_gain as i128 * integ, 1000);
    let demand_d = div_trunc(r.d_gain as i128 * deriv, 1000);
    let total = demand_p + demand_i + demand_d;
    (e as i64, integ as i64, total as i64)
}

} // verus!
