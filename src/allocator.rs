//! Allocation of channel demand onto the physical thrusters, and the
//! per-tick fire state around it.
use vstd::prelude::*;
use crate::fixed::{SCALE, abs, clamp, trunc_div, div_trunc, lemma_mul_abs_bound, lemma_trunc_div_bound};
use crate::group::{ThrusterGroup, CHANNELS};
use crate::rig::{Vec3, Thruster, Thrusters, MAX_COORD, MAX_THRUST, MAX_THRUSTERS};

verus! {

/// Largest magnitude of the force of one thruster (raw).
pub const MAX_FORCE: i64 = 1_000_000_000;

/// Largest magnitude of the torque of one thruster about the centre of mass (raw).
pub const MAX_TORQUE: i64 = 4_000_000_000_000;

/// What one thruster does this tick.
#[derive(Copy, Clone, Debug, Default, PartialEq, Eq, Structural)]
pub struct AppliedThrust {
    /// Whether one of the thruster's channels is requested to fire.
    pub firing: bool,
    /// Fraction of rated thrust used (`SCALE` is full thrust); 0 when idle.
    pub magnitude: i64,
    /// Where the force acts, in body axes.
    pub point: Vec3,
    /// The force, in body axes.
    pub force: Vec3,
    /// The force's torque about the centre of mass, in body axes.
    pub torque: Vec3,
}

/// The net effect of all thrusters this tick, and each thruster's share.
#[derive(Clone, Debug)]
pub struct ThrustOutput {
    pub force: Vec3,
    pub torque: Vec3,
    /// One entry per thruster of the rig, in rig order.
    pub applied: Vec<AppliedThrust>,
}

/// Sum of the slots of the channels of `group` below `n`.
pub open spec fn channel_sum(group: ThrusterGroup, slots: Seq<i64>, n: int) -> int
    decreases n,
{
    if n <= 0 {
        0
    } else {
        channel_sum(group, slots, n - 1) + if group.has(n - 1) { slots[n - 1] as int } else { 0 }
    }
}

/// The fraction of rated thrust a firing thruster of `group` uses: the sum of
/// its channels' slots clamped to `[0, SCALE]`, or full thrust when that sum
/// is zero (channels fired without a computed magnitude).
pub open spec fn thruster_magnitude(group: ThrusterGroup, slots: Seq<i64>) -> int {
    let m = channel_sum(group, slots, CHANNELS as int);
    if m == 0 {
        SCALE as int
    } else {
        clamp(m, 0, SCALE as int)
    }
}

/// Whether a thruster of `group` fires under the fire mask.
pub open spec fn fires(group: ThrusterGroup, mask: ThrusterGroup) -> bool {
    exists|c: int| #[trigger] group.has(c) && mask.has(c)
}

/// Component `axis` of the force of thruster `t` at `magnitude`.
pub open spec fn force_at(t: Thruster, magnitude: int, axis: int) -> int {
    trunc_div(magnitude * t.thrust * t.direction.at(axis), SCALE * SCALE)
}

/// Component `axis` of `lever × f`, in fixed point.
pub open spec fn cross_at(lever: Vec3, f: Vec3, axis: int) -> int {
    let a = (axis + 1) % 3;
    let b = (axis + 2) % 3;
    trunc_div(lever.at(a) * f.at(b) - lever.at(b) * f.at(a), SCALE as int)
}

/// `v` holds, axis by axis, the values of `f`.
pub open spec fn is_vec(v: Vec3, f: spec_fn(int) -> int) -> bool {
    forall|axis: int| 0 <= axis < 3 ==> #[trigger] v.at(axis) == f(axis)
}

/// What thruster `t` does under the given fire state, its torque taken about
/// `center_of_mass`.
pub open spec fn applied_of(
    t: Thruster,
    slots: Seq<i64>,
    mask: ThrusterGroup,
    center_of_mass: Vec3,
    a: AppliedThrust,
) -> bool {
    if fires(t.group, mask) {
        let m = thruster_magnitude(t.group, slots);
        &&& a.firing
        &&& a.magnitude == m
        &&& a.point == t.offset
        &&& is_vec(a.force, |axis: int| force_at(t, m, axis))
        &&& is_vec(
            a.torque,
            |axis: int|
                cross_at(
                    Vec3 {
                        x: (t.offset.x - center_of_mass.x) as i64,
                        y: (t.offset.y - center_of_mass.y) as i64,
                        z: (t.offset.z - center_of_mass.z) as i64,
                    },
                    a.force,
                    axis,
                ),
        )
    } else {
        a == AppliedThrust {
            firing: false,
            magnitude: 0,
            point: t.offset,
            force: Vec3::zero_spec(),
            torque: Vec3::zero_spec(),
        }
    }
}

/// Sum of the forces of the entries, about `axis`.
pub open spec fn total_force(applied: Seq<AppliedThrust>, axis: int) -> int
    decreases applied.len(),
{
    if applied.len() == 0 {
        0
    } else {
        total_force(applied.drop_last(), axis) + applied.last().force.at(axis)
    }
}

/// Sum of the torques of the entries, about `axis`.
pub open spec fn total_torque(applied: Seq<AppliedThrust>, axis: int) -> int
    decreases applied.len(),
{
    if applied.len() == 0 {
        0
    } else {
        total_torque(applied.drop_last(), axis) + applied.last().torque.at(axis)
    }
}

/// The slot sum of a single-channel group is that channel's slot, once the
/// sum has passed it.
proof fn lemma_channel_sum_single(group: ThrusterGroup, slots: Seq<i64>, c: int, n: int)
    requires
        forall|k: int| #[trigger] group.has(k) == (k == c),
        0 <= n,
    ensures
        channel_sum(group, slots, n) == if c < n && 0 <= c { slots[c] as int } else { 0 },
    decreases n,
{
    if n > 0 {
        lemma_channel_sum_single(group, slots, c, n - 1);
        assert(group.has(n - 1) == (n - 1 == c));
    }
}

/// A thruster serving the single channel `c` uses that channel's slot alone,
/// clamped to `[0, SCALE]` (full thrust for a zero slot), whatever any other
/// thruster of the same channel does: the clamp is per thruster.
pub proof fn lemma_single_channel_magnitude(group: ThrusterGroup, slots: Seq<i64>, c: int)
    requires
        group@ == set![c],
        0 <= c < CHANNELS,
    ensures
        thruster_magnitude(group, slots) == if slots[c] == 0 {
            SCALE as int
        } else {
            clamp(slots[c] as int, 0, SCALE as int)
        },
        0 <= thruster_magnitude(group, slots) <= SCALE,
{
    assert forall|k: int| #[trigger] group.has(k) == (k == c) by {
        assert(group@.contains(k) == group.has(k));
    }
    lemma_channel_sum_single(group, slots, c, CHANNELS as int);
}

/// A firing thruster never uses more than its rated thrust, nor less than none.
pub proof fn lemma_magnitude_in_range(group: ThrusterGroup, slots: Seq<i64>)
    ensures
        0 <= thruster_magnitude(group, slots) <= SCALE,
{
}

/// Clears the fire state: no channel requested, every slot zero.
pub fn reset_thrusters(thrusters: &mut Thrusters)
    ensures
        final(thrusters).thrusters@ == old(thrusters).thrusters@,
        final(thrusters).groups_to_fire@ == Set::<int>::empty(),
        forall|c: int| !#[trigger] final(thrusters).groups_to_fire.has(c),
        forall|c: int| 0 <= c < CHANNELS ==> #[trigger] final(thrusters).group_thrust@[c] == 0,
{
    thrusters.groups_to_fire = ThrusterGroup::none();
    let mut i: usize = 0;
    while i < CHANNELS
        invariant
            i <= CHANNELS,
            thrusters.thrusters@ == old(thrusters).thrusters@,
            thrusters.groups_to_fire@ == Set::<int>::empty(),
            forall|c: int| !#[trigger] thrusters.groups_to_fire.has(c),
            forall|c: int| 0 <= c < i ==> #[trigger] thrusters.group_thrust@[c] == 0,
        decreases CHANNELS - i,
    {
        thrusters.group_thrust[i] = 0;
        i = i + 1;
    }
}

/// Adds manually requested channels to this tick's fire mask.
pub fn player_thrusters(thrusters: &mut Thrusters, requested: ThrusterGroup)
    ensures
        final(thrusters).thrusters@ == old(thrusters).thrusters@,
        final(thrusters).group_thrust@ == old(thrusters).group_thrust@,
        forall|c: int| #[trigger] final(thrusters).groups_to_fire.has(c) == (old(thrusters).groups_to_fire.has(c) || requested.has(c)),
{
    thrusters.groups_to_fire.bitor_assign(requested);
}

/// The magnitude a firing thruster of `group` uses.
fn magnitude_of(group: ThrusterGroup, slots: &[i64; CHANNELS]) -> (m: i64)
    ensures
        m == thruster_magnitude(group, slots@),
        0 <= m <= SCALE,
{
    let mut sum: i128 = 0;
    let mut c: usize = 0;
    while c < CHANNELS
        invariant
            c <= CHANNELS,
            sum == channel_sum(group, slots@, c as int),
            abs(sum as int) <= c * 0x8000_0000_0000_0000,
        decreases CHANNELS - c,
    {
        let bit = (group.0 >> (c as u32)) & 1u32;
        if bit == 1 {
            sum = sum + slots[c] as i128;
        }
        c = c + 1;
    }
    if sum == 0 {
        1000
    } else if sum < 0 {
        0
    } else if sum > 1000 {
        1000
    } else {
        sum as i64
    }
}

/// What one thruster does under the fire state.
fn apply_thruster(t: &Thruster, thrusters: &Thrusters, center_of_mass: Vec3) -> (a: AppliedThrust)
    requires
        t.wf(),
        center_of_mass.bounded(MAX_COORD as int),
    ensures
        applied_of(*t, thrusters.group_thrust@, thrusters.groups_to_fire, center_of_mass, a),
        entry_bounded(a),
{
    if !t.group.intersects(thrusters.groups_to_fire) {
        return AppliedThrust { firing: false, magnitude: 0, point: t.offset, force: Vec3::zero(), torque: Vec3::zero() };
    }
    let m = magnitude_of(t.group, &thrusters.group_thrust);
    proof {
        lemma_mul_abs_bound(m as int, t.thrust as int, SCALE as int, MAX_THRUST as int);
    }
    let mt = m as i128 * t.thrust as i128;
    proof {
        lemma_mul_abs_bound(mt as int, t.direction.x as int, SCALE * MAX_THRUST, SCALE as int);
        lemma_mul_abs_bound(mt as int, t.direction.y as int, SCALE * MAX_THRUST, SCALE as int);
        lemma_mul_abs_bound(mt as int, t.direction.z as int, SCALE * MAX_THRUST, SCALE as int);
        lemma_trunc_div_bound(mt * t.direction.x, SCALE * SCALE, SCALE * MAX_THRUST * SCALE);
        lemma_trunc_div_bound(mt * t.direction.y, SCALE * SCALE, SCALE * MAX_THRUST * SCALE);
        lemma_trunc_div_bound(mt * t.direction.z, SCALE * SCALE, SCALE * MAX_THRUST * SCALE);
    }
    let force = Vec3 {
        x: div_trunc(mt * t.direction.x as i128, 1_000_000) as i64,
        y: div_trunc(mt * t.direction.y as i128, 1_000_000) as i64,
        z: div_trunc(mt * t.direction.z as i128, 1_000_000) as i64,
    };
    let lever = Vec3 {
        x: t.offset.x - center_of_mass.x,
        y: t.offset.y - center_of_mass.y,
        z: t.offset.z - center_of_mass.z,
    };
    let torque = cross(lever, force);
    AppliedThrust { firing: true, magnitude: m, point: t.offset, force, torque }
}

/// `lever × f`, in fixed point.
fn cross(lever: Vec3, f: Vec3) -> (r: Vec3)
    requires
        lever.bounded(2 * MAX_COORD),
        f.bounded(MAX_FORCE as int),
    ensures
        is_vec(r, |axis: int| cross_at(lever, f, axis)),
        r.bounded(MAX_TORQUE as int),
{
    let lx = lever.x as i128;
    let ly = lever.y as i128;
    let lz = lever.z as i128;
    let fx = f.x as i128;
    let fy = f.y as i128;
    let fz = f.z as i128;
    proof {
        lemma_mul_abs_bound(ly as int, fz as int, 2 * MAX_COORD, MAX_FORCE as int);
        lemma_mul_abs_bound(lz as int, fy as int, 2 * MAX_COORD, MAX_FORCE as int);
        lemma_mul_abs_bound(lz as int, fx as int, 2 * MAX_COORD, MAX_FORCE as int);
        lemma_mul_abs_bound(lx as int, fz as int, 2 * MAX_COORD, MAX_FORCE as int);
        lemma_mul_abs_bound(lx as int, fy as int, 2 * MAX_COORD, MAX_FORCE as int);
        lemma_mul_abs_bound(ly as int, fx as int, 2 * MAX_COORD, MAX_FORCE as int);
        lemma_trunc_div_bound(ly * fz - lz * fy, SCALE as int, 4 * MAX_COORD * MAX_FORCE);
        lemma_trunc_div_bound(lz * fx - lx * fz, SCALE as int, 4 * MAX_COORD * MAX_FORCE);
        lemma_trunc_div_bound(lx * fy - ly * fx, SCALE as int, 4 * MAX_COORD * MAX_FORCE);
    }
    Vec3 {
        x: div_trunc(ly * fz - lz * fy, 1000) as i64,
        y: div_trunc(lz * fx - lx * fz, 1000) as i64,
        z: div_trunc(lx * fy - ly * fx, 1000) as i64,
    }
}

/// The force and torque of an entry are within the per-thruster bounds.
pub open spec fn entry_bounded(a: AppliedThrust) -> bool {
    a.force.bounded(MAX_FORCE as int) && a.torque.bounded(MAX_TORQUE as int)
}

/// Sums of forces and torques stay within the per-thruster bounds times the count.
proof fn lemma_total_bound(applied: Seq<AppliedThrust>, axis: int)
    requires
        forall|i: int| 0 <= i < applied.len() ==> #[trigger] entry_bounded(applied[i]),
        0 <= axis < 3,
    ensures
        abs(total_force(applied, axis)) <= applied.len() * MAX_FORCE,
        abs(total_torque(applied, axis)) <= applied.len() * MAX_TORQUE,
    decreases applied.len(),
{
    if applied.len() > 0 {
        let rest = applied.drop_last();
        assert forall|i: int| 0 <= i < rest.len() implies #[trigger] entry_bounded(rest[i]) by {
            assert(rest[i] == applied[i]);
        }
        lemma_total_bound(rest, axis);
        assert(applied.last() == applied[applied.len() - 1]);
        let last = applied[applied.len() - 1];
        assert(entry_bounded(last));
        assert(abs(last.force.at(axis)) <= MAX_FORCE);
        assert(abs(last.torque.at(axis)) <= MAX_TORQUE);
        assert(total_force(applied, axis) == total_force(rest, axis) + last.force.at(axis));
        assert(total_torque(applied, axis) == total_torque(rest, axis) + last.torque.at(axis));
        let n = rest.len() as int;
        assert(n * MAX_FORCE + MAX_FORCE == (n + 1) * MAX_FORCE) by (nonlinear_arith);
        assert(n * MAX_TORQUE + MAX_TORQUE == (n + 1) * MAX_TORQUE) by (nonlinear_arith);
    }
}

/// `lemma_total_bound` on every axis.
proof fn lemma_totals_bound(applied: Seq<AppliedThrust>)
    requires
        forall|i: int| 0 <= i < applied.len() ==> #[trigger] entry_bounded(applied[i]),
    ensures
        forall|axis: int| 0 <= axis < 3 ==> abs(#[trigger] total_force(applied, axis)) <= applied.len() * MAX_FORCE
            && abs(total_torque(applied, axis)) <= applied.len() * MAX_TORQUE,
{
    lemma_total_bound(applied, 0);
    lemma_total_bound(applied, 1);
    lemma_total_bound(applied, 2);
}

/// Converts this tick's channel demand into thruster forces. A thruster fires
/// when one of its channels is in the fire mask; it uses the sum of its
/// channels' slots, clamped to `[0, SCALE]`, or full thrust when that sum is
/// zero. The net force and torque (about `center_of_mass`) are the sums over
/// all thrusters.
pub fn thrusters(state: &Thrusters, center_of_mass: Vec3) -> (out: ThrustOutput)
    requires
        state.wf(),
        center_of_mass.bounded(MAX_COORD as int),
    ensures
        out.applied@.len() == state.thrusters@.len(),
        forall|i: int|
            0 <= i < out.applied@.len() ==> applied_of(
                state.thrusters@[i],
                state.group_thrust@,
                state.groups_to_fire,
                center_of_mass,
                #[trigger] out.applied@[i],
            ),
        is_vec(out.force, |axis: int| total_force(out.applied@, axis)),
        is_vec(out.torque, |axis: int| total_torque(out.applied@, axis)),
{
    let rig = &state.thrusters;
    let mut applied: Vec<AppliedThrust> = Vec::new();
    let mut force = Vec3::zero();
    let mut torque = Vec3::zero();
    let mut i: usize = 0;
    while i < rig.len()
        invariant
            state.wf(),
            rig == &state.thrusters,
            center_of_mass.bounded(MAX_COORD as int),
            i <= rig@.len(),
            applied@.len() == i,
            forall|j: int|
                0 <= j < i ==> applied_of(
                    rig@[j],
                    state.group_thrust@,
                    state.groups_to_fire,
                    center_of_mass,
                    #[trigger] applied@[j],
                ),
            forall|j: int| 0 <= j < i ==> #[trigger] entry_bounded(applied@[j]),
            is_vec(force, |axis: int| total_force(applied@, axis)),
            is_vec(torque, |axis: int| total_torque(applied@, axis)),
        decreases rig@.len() - i,
    {
        let a = apply_thruster(&rig[i], state, center_of_mass);
        let ghost before = applied@;
        proof {
            assert(force.at(0) == total_force(before, 0) && force.at(1) == total_force(before, 1) && force.at(2) == total_force(before, 2));
            assert(torque.at(0) == total_torque(before, 0) && torque.at(1) == total_torque(before, 1) && torque.at(2) == total_torque(before, 2));
            lemma_totals_bound(before);
            assert(i * MAX_TORQUE <= MAX_THRUSTERS * MAX_TORQUE) by (nonlinear_arith)
                requires i <= MAX_THRUSTERS;
            assert(i * MAX_FORCE <= MAX_THRUSTERS * MAX_FORCE) by (nonlinear_arith)
                requires i <= MAX_THRUSTERS;
        }
        force = Vec3 { x: force.x + a.force.x, y: force.y + a.force.y, z: force.z + a.force.z };
        torque = Vec3 { x: torque.x + a.torque.x, y: torque.y + a.torque.y, z: torque.z + a.torque.z };
        applied.push(a);
        proof {
            assert(applied@.drop_last() =~= before);
            assert(applied@.last() == a);
        }
        i = i + 1;
    }
    ThrustOutput { force, torque, applied }
}

} // verus!
