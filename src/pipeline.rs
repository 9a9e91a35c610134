//! The per-tick control pipeline of one body.
use vstd::prelude::*;
use crate::allocator::{applied_of, is_vec, player_thrusters, reset_thrusters, thrusters, total_force, total_torque, ThrustOutput};
use crate::budget::{update_max_torque, MaxTorque};
use crate::group::{ThrusterGroup, CHANNELS};
use crate::planner::MAX_ANGVEL;
use crate::regulator::{chosen, channel_axis, demand, derivative, integrate, orientation_regulator, planned, OrientationRegulator, MAX_DT};
use crate::rig::{Vec3, Thrusters, MAX_COORD};

verus! {

/// The control half of a body's physics step: runs the control systems of one
/// body for one tick, in their fixed order (clear the fire state, recompute
/// the torque budget, add the manually requested channels, regulate, allocate
/// thrust) and yields the force and torque to hand to the physics engine. It
/// integrates nothing itself: moving the body is the engine's work.
pub struct PhysicsPlugin;

impl PhysicsPlugin {
    /// One tick. `local_angvel` is the body's angular velocity in body axes,
    /// `angle` its attitude as angles about X, Y and Z, `inertia` its
    /// principal moments and `center_of_mass` its centre of mass in body axes.
    pub fn tick(
        rig: &mut Thrusters,
        budget: &mut MaxTorque,
        regulator: &mut OrientationRegulator,
        requested: ThrusterGroup,
        local_angvel: Vec3,
        angle: Vec3,
        inertia: Vec3,
        center_of_mass: Vec3,
        dt: i64,
    ) -> (out: ThrustOutput)
        requires
            old(rig).wf(),
            old(regulator).wf(),
            local_angvel.bounded(MAX_ANGVEL as int),
            inertia.x >= 0 && inertia.y >= 0 && inertia.z >= 0,
            center_of_mass.bounded(MAX_COORD as int),
            0 <= dt <= MAX_DT,
        ensures
            final(rig).thrusters@ == old(rig).thrusters@,
            final(budget).is_budget_of(old(rig).thrusters@),
            final(regulator).wf(),
            final(regulator).local_angvel == local_angvel,
            !old(regulator).enable ==> *final(regulator) == (OrientationRegulator {
                local_angvel,
                ..*old(regulator)
            }),
            old(regulator).enable ==> {
                let r = *final(regulator);
                let o = *old(regulator);
                &&& r == (OrientationRegulator {
                    target_angvel: r.target_angvel,
                    local_angvel,
                    prev_error: r.prev_error,
                    integral_error: r.integral_error,
                    ..o
                })
                &&& forall|a: int|
                    0 <= a < 3 ==> {
                        &&& #[trigger] r.target_angvel.at(a) == planned(o, local_angvel, angle, inertia, *final(budget), a)
                        &&& r.prev_error.at(a) == r.target_angvel.at(a) - local_angvel.at(a)
                        &&& r.integral_error.at(a) == integrate(o.integral_error.at(a), r.prev_error.at(a), dt as int)
                    }
            },
            forall|c: int|
                #[trigger] final(rig).groups_to_fire.has(c) == (requested.has(c) || (old(regulator).enable
                    && chosen(final(regulator).prev_error, c))),
            forall|c: int|
                0 <= c < CHANNELS ==> #[trigger] final(rig).group_thrust@[c] == if old(regulator).enable
                    && chosen(final(regulator).prev_error, c) {
                    let a = channel_axis(c);
                    demand(
                        *old(regulator),
                        final(regulator).prev_error.at(a),
                        final(regulator).integral_error.at(a),
                        derivative(final(regulator).prev_error.at(a), old(regulator).prev_error.at(a), dt as int),
                    )
                } else {
                    0
                },
            out.applied@.len() == old(rig).thrusters@.len(),
            forall|i: int|
                0 <= i < out.applied@.len() ==> applied_of(
                    old(rig).thrusters@[i],
                    final(rig).group_thrust@,
                    final(rig).groups_to_fire,
                    center_of_mass,
                    #[trigger] out.applied@[i],
                ),
            is_vec(out.force, |axis: int| total_force(out.applied@, axis)),
            is_vec(out.torque, |axis: int| total_torque(out.applied@, axis)),
    {
        reset_thrusters(rig);
        update_max_torque(rig, budget);
        player_thrusters(rig, requested);
        orientation_regulator(regulator, local_angvel, angle, inertia, budget, dt, rig);
        thrusters(rig, center_of_mass)
    }
}

} // verus!
