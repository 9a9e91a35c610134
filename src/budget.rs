//! Torque budget: the largest torque a rig can produce about each body axis,
//! in each sense, with every contributing thruster at full rated thrust.
use vstd::prelude::*;
use crate::fixed::{SCALE, abs, trunc_div, div_trunc, lemma_mul_abs_bound, lemma_trunc_div_bound};
use crate::rig::{Vec3, Thruster, Thrusters, MAX_COORD, MAX_THRUST, MAX_THRUSTERS};

verus! {

/// Largest magnitude of the torque of one thruster (raw).
pub const MAX_THRUSTER_TORQUE: i64 = 2_000_000_000_000;

/// Per-axis torque capability: both vectors hold magnitudes.
#[derive(Copy, Clone, Debug, Default, PartialEq, Eq, Structural)]
pub struct MaxTorque {
    pub positive_torque: Vec3,
    pub negative_torque: Vec3,
}

/// Component `axis` of the force a thruster applies at full rated thrust.
pub open spec fn full_force(t: Thruster, axis: int) -> int {
    trunc_div(t.thrust * t.direction.at(axis), SCALE as int)
}

/// Component `axis` of the torque, about the body origin, of a thruster at
/// full rated thrust: `offset × force`.
pub open spec fn torque_of(t: Thruster, axis: int) -> int {
    let a = (axis + 1) % 3;
    let b = (axis + 2) % 3;
    trunc_div(t.offset.at(a) * full_force(t, b) - t.offset.at(b) * full_force(t, a), SCALE as int)
}

/// Sum over the rig of the positive torques about `axis`.
pub open spec fn positive_budget(rig: Seq<Thruster>, axis: int) -> int
    decreases rig.len(),
{
    if rig.len() == 0 {
        0
    } else {
        let t = torque_of(rig.last(), axis);
        positive_budget(rig.drop_last(), axis) + if t > 0 { t } else { 0 }
    }
}

/// Sum over the rig of the magnitudes of the negative torques about `axis`.
pub open spec fn negative_budget(rig: Seq<Thruster>, axis: int) -> int
    decreases rig.len(),
{
    if rig.len() == 0 {
        0
    } else {
        let t = torque_of(rig.last(), axis);
        negative_budget(rig.drop_last(), axis) + if t < 0 { -t } else { 0 }
    }
}

impl MaxTorque {
    /// This budget is the one that `rig` gives.
    pub open spec fn is_budget_of(self, rig: Seq<Thruster>) -> bool {
        forall|axis: int|
            0 <= axis < 3 ==> #[trigger] self.positive_torque.at(axis) == positive_budget(rig, axis)
                && self.negative_torque.at(axis) == negative_budget(rig, axis)
    }

    pub open spec fn wf(self) -> bool {
        forall|axis: int|
            0 <= axis < 3 ==> 0 <= #[trigger] self.positive_torque.at(axis) && 0
                <= self.negative_torque.at(axis)
    }
}

/// The torque of a well-formed thruster is bounded.
pub proof fn lemma_torque_bound(t: Thruster, axis: int)
    requires
        t.wf(),
        0 <= axis < 3,
    ensures
        abs(torque_of(t, axis)) <= MAX_THRUSTER_TORQUE,
{
    assert forall|k: int| 0 <= k < 3 implies abs(#[trigger] full_force(t, k)) <= MAX_THRUST by {
        lemma_mul_abs_bound(t.thrust as int, t.direction.at(k), MAX_THRUST as int, SCALE as int);
        lemma_trunc_div_bound(t.thrust * t.direction.at(k), SCALE as int, MAX_THRUST * SCALE);
        assert((MAX_THRUST * SCALE) / (SCALE as int) == MAX_THRUST);
    }
    let a = (axis + 1) % 3;
    let b = (axis + 2) % 3;
    lemma_mul_abs_bound(t.offset.at(a), full_force(t, b), MAX_COORD as int, MAX_THRUST as int);
    lemma_mul_abs_bound(t.offset.at(b), full_force(t, a), MAX_COORD as int, MAX_THRUST as int);
    let n = t.offset.at(a) * full_force(t, b) - t.offset.at(b) * full_force(t, a);
    lemma_trunc_div_bound(n, SCALE as int, 2 * MAX_COORD * MAX_THRUST);
}

/// Both budgets are non-negative and grow by at most one thruster's torque
/// per thruster.
pub proof fn lemma_budget_bound(rig: Seq<Thruster>, axis: int)
    requires
        0 <= axis < 3,
        forall|i: int| 0 <= i < rig.len() ==> #[trigger] rig[i].wf(),
    ensures
        0 <= positive_budget(rig, axis) <= rig.len() * MAX_THRUSTER_TORQUE,
        0 <= negative_budget(rig, axis) <= rig.len() * MAX_THRUSTER_TORQUE,
    decreases rig.len(),
{
    if rig.len() > 0 {
        lemma_budget_bound(rig.drop_last(), axis);
        lemma_torque_bound(rig.last(), axis);
    }
}

/// A rig of one thruster whose torque about `axis` is positive has that
/// torque as its positive budget and nothing as its negative budget.
pub proof fn lemma_single_thruster_budget(t: Thruster, axis: int)
    requires
        0 <= axis < 3,
        torque_of(t, axis) > 0,
    ensures
        positive_budget(seq![t], axis) == torque_of(t, axis),
        negative_budget(seq![t], axis) == 0,
{
    let rig = seq![t];
    assert(rig.drop_last() =~= Seq::<Thruster>::empty());
    assert(rig.last() == t);
    assert(positive_budget(rig.drop_last(), axis) == 0);
    assert(negative_budget(rig.drop_last(), axis) == 0);
    assert(positive_budget(rig, axis) == positive_budget(rig.drop_last(), axis) + torque_of(t, axis));
    assert(negative_budget(rig, axis) == negative_budget(rig.drop_last(), axis));
}

/// The budget is a function of the rig alone: two budgets computed from the
/// same rig are equal, so computing it again on an unchanged rig gives the
/// same result.
pub proof fn lemma_budget_deterministic(rig: Seq<Thruster>, m1: MaxTorque, m2: MaxTorque)
    requires
        m1.is_budget_of(rig),
        m2.is_budget_of(rig),
    ensures
        m1 == m2,
{
    assert(m1.positive_torque.at(0) == m2.positive_torque.at(0));
    assert(m1.positive_torque.at(1) == m2.positive_torque.at(1));
    assert(m1.positive_torque.at(2) == m2.positive_torque.at(2));
    assert(m1.negative_torque.at(0) == m2.negative_torque.at(0));
    assert(m1.negative_torque.at(1) == m2.negative_torque.at(1));
    assert(m1.negative_torque.at(2) == m2.negative_torque.at(2));
}

/// The torque of one thruster at full rated thrust.
fn thruster_torque(t: &Thruster) -> (r: Vec3)
    requires
        t.wf(),
    ensures
        forall|axis: int| 0 <= axis < 3 ==> #[trigger] r.at(axis) == torque_of(*t, axis),
{
    proof {
        assert forall|k: int| 0 <= k < 3 implies abs(#[trigger] full_force(*t, k)) <= MAX_THRUST
            && abs(t.thrust * t.direction.at(k)) <= MAX_THRUST * SCALE by {
            lemma_mul_abs_bound(t.thrust as int, t.direction.at(k), MAX_THRUST as int, SCALE as int);
            lemma_trunc_div_bound(t.thrust * t.direction.at(k), SCALE as int, MAX_THRUST * SCALE);
        }
        assert(abs(full_force(*t, 0)) <= MAX_THRUST);
        assert(abs(full_force(*t, 1)) <= MAX_THRUST);
        assert(abs(full_force(*t, 2)) <= MAX_THRUST);
    }
    let thrust = t.thrust as i128;
    let fx = div_trunc(thrust * (t.direction.x as i128), 1000);
    let fy = div_trunc(thrust * (t.direction.y as i128), 1000);
    let fz = div_trunc(thrust * (t.direction.z as i128), 1000);
    assert(fx == full_force(*t, 0) && fy == full_force(*t, 1) && fz == full_force(*t, 2));
    let ox = t.offset.x as i128;
    let oy = t.offset.y as i128;
    let oz = t.offset.z as i128;
    proof {
        lemma_mul_abs_bound(oy as int, fz as int, MAX_COORD as int, MAX_THRUST as int);
        lemma_mul_abs_bound(oz as int, fy as int, MAX_COORD as int, MAX_THRUST as int);
        lemma_mul_abs_bound(oz as int, fx as int, MAX_COORD as int, MAX_THRUST as int);
        lemma_mul_abs_bound(ox as int, fz as int, MAX_COORD as int, MAX_THRUST as int);
        lemma_mul_abs_bound(ox as int, fy as int, MAX_COORD as int, MAX_THRUST as int);
        lemma_mul_abs_bound(oy as int, fx as int, MAX_COORD as int, MAX_THRUST as int);
        lemma_torque_bound(*t, 0);
        lemma_torque_bound(*t, 1);
        lemma_torque_bound(*t, 2);
    }
    let tx = div_trunc(oy * fz - oz * fy, 1000);
    let ty = div_trunc(oz * fx - ox * fz, 1000);
    let tz = div_trunc(ox * fy - oy * fx, 1000);
    Vec3 { x: tx as i64, y: ty as i64, z: tz as i64 }
}

/// Recomputes the torque budget of the rig. Each thruster's torque goes,
/// axis by axis, to the positive budget when positive and to the negative
/// budget (as a magnitude) otherwise. Whatever `max_torque` held before is
/// replaced.
pub fn update_max_torque(thrusters: &Thrusters, max_torque: &mut MaxTorque)
    requires
        thrusters.wf(),
    ensures
        final(max_torque).is_budget_of(thrusters.thrusters@),
        final(max_torque).wf(),
{
    let rig = &thrusters.thrusters;
    let mut pos = Vec3::zero();
    let mut neg = Vec3::zero();
    let mut i: usize = 0;
    while i < rig.len()
        invariant
            thrusters.wf(),
            rig == &thrusters.thrusters,
            i <= rig@.len(),
            forall|axis: int|
                0 <= axis < 3 ==> #[trigger] pos.at(axis) == positive_budget(rig@.subrange(0, i as int), axis)
                    && neg.at(axis) == negative_budget(rig@.subrange(0, i as int), axis),
        decreases rig@.len() - i,
    {
        let ghost prefix = rig@.subrange(0, i as int);
        let ghost next = rig@.subrange(0, i + 1);
        proof {
            assert(next.drop_last() =~= prefix);
            assert(next.last() == rig@[i as int]);
            assert forall|axis: int| 0 <= axis < 3 implies {
                &&& 0 <= #[trigger] positive_budget(next, axis) <= MAX_THRUSTERS * MAX_THRUSTER_TORQUE
                &&& 0 <= negative_budget(next, axis) <= MAX_THRUSTERS * MAX_THRUSTER_TORQUE
            } by {
                assert forall|j: int| 0 <= j < next.len() implies #[trigger] next[j].wf() by {
                    assert(next[j] == rig@[j]);
                }
                lemma_budget_bound(next, axis);
                assert(next.len() * MAX_THRUSTER_TORQUE <= MAX_THRUSTERS * MAX_THRUSTER_TORQUE) by (nonlinear_arith)
                    requires next.len() <= MAX_THRUSTERS;
            }
        }
        let t = thruster_torque(&rig[i]);
        proof {
            assert(positive_budget(next, 0) == pos.at(0) + if t.at(0) > 0 { t.at(0) } else { 0 });
            assert(positive_budget(next, 1) == pos.at(1) + if t.at(1) > 0 { t.at(1) } else { 0 });
            assert(positive_budget(next, 2) == pos.at(2) + if t.at(2) > 0 { t.at(2) } else { 0 });
        }
        if t.x > 0 {
            pos.x = pos.x + t.x;
        } else {
            neg.x = neg.x - t.x;
        }
        if t.y > 0 {
            pos.y = pos.y + t.y;
        } else {
            neg.y = neg.y - t.y;
        }
        if t.z > 0 {
            pos.z = pos.z + t.z;
        } else {
            neg.z = neg.z - t.z;
        }
        i = i + 1;
    }
    proof {
        assert(rig@.subrange(0, rig@.len() as int) =~= rig@);
        assert forall|axis: int| 0 <= axis < 3 implies 0 <= #[trigger] pos.at(axis) && 0 <= neg.at(axis) by {
            lemma_budget_bound(rig@, axis);
        }
    }
    max_torque.positive_torque = pos;
    max_torque.negative_torque = neg;
}

} // verus!
