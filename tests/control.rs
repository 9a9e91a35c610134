use thruster_control::fixed::SCALE;
use thruster_control::planner::{MAX_RATE, PI};
use thruster_control::{
    angle_difference, calculate_target_angular_velocity, orientation_regulator, player_thrusters,
    positive, reset_thrusters, thrusters, update_max_torque, Channel, MaxTorque,
    OrientationRegulator, Thruster, ThrusterGroup, Thrusters, Vec3,
};

fn thruster(offset: Vec3, direction: Vec3, thrust: i64, group: ThrusterGroup) -> Thruster {
    Thruster { offset, direction, thrust, group }
}

fn rate_regulator(p: i64, i: i64, d: i64, target_angvel: Vec3) -> OrientationRegulator {
    let mut r = OrientationRegulator::new(p, i, d);
    r.target_angvel = target_angvel;
    r
}

fn tick(reg: &mut OrientationRegulator, local: Vec3, dt: i64, rig: &mut Thrusters) {
    let budget = MaxTorque::default();
    orientation_regulator(reg, local, Vec3::zero(), Vec3::zero(), &budget, dt, rig);
}

#[test]
fn group_of_and_index() {
    let g = ThrusterGroup::of(Channel::RotY);
    assert_eq!(g.index(), 8);
    assert_eq!(ThrusterGroup::of(Channel::Forward).index(), 0);
    assert_eq!(ThrusterGroup::of(Channel::NegRotZ).index(), 11);
    let both = ThrusterGroup::of(Channel::Left).bitor(ThrusterGroup::of(Channel::RotZ));
    assert_eq!(both.index(), 2);
}

#[test]
fn group_union_and_intersection() {
    let a = ThrusterGroup::of(Channel::Left).bitor(ThrusterGroup::of(Channel::RotY));
    let b = ThrusterGroup::of(Channel::RotY);
    let c = ThrusterGroup::of(Channel::Up);
    assert!(a.intersects(b));
    assert!(!a.intersects(c));
    assert!(!ThrusterGroup::none().intersects(a));
    let mut d = ThrusterGroup::none();
    d.bitor_assign(c);
    d.bitor_assign(b);
    assert!(d.intersects(a));
    assert!(d.intersects(c));
    assert_eq!(a.bitor(ThrusterGroup::none()), a);
    assert_eq!(a.bitor(c), c.bitor(a));
}

#[test]
fn rotation_channels() {
    assert_eq!(ThrusterGroup::positive_rotation(0), ThrusterGroup::of(Channel::RotX));
    assert_eq!(ThrusterGroup::positive_rotation(1), ThrusterGroup::of(Channel::RotY));
    assert_eq!(ThrusterGroup::positive_rotation(2), ThrusterGroup::of(Channel::RotZ));
    assert_eq!(ThrusterGroup::negative_rotation(0), ThrusterGroup::of(Channel::NegRotX));
    assert_eq!(ThrusterGroup::negative_rotation(1), ThrusterGroup::of(Channel::NegRotY));
    assert_eq!(ThrusterGroup::negative_rotation(2), ThrusterGroup::of(Channel::NegRotZ));
}

#[test]
fn single_positive_x_torque_budget() {
    // offset (0, 1, 0), pushing along +Z with 1 unit of thrust: torque (1, 0, 0).
    let t = thruster(Vec3::new(0, 1000, 0), Vec3::new(0, 0, 1000), 1000, ThrusterGroup::of(Channel::RotX));
    let rig = Thrusters::new(vec![t]);
    let mut m = MaxTorque::default();
    update_max_torque(&rig, &mut m);
    assert_eq!(m.positive_torque, Vec3::new(1000, 0, 0));
    assert_eq!(m.negative_torque.x, 0);
}

#[test]
fn budget_splits_signs_per_axis() {
    // offset (1, 1, 0), pushing along +Z: torque (1, -1, 0).
    let a = thruster(Vec3::new(1000, 1000, 0), Vec3::new(0, 0, 1000), 1000, ThrusterGroup::of(Channel::RotX));
    // offset (0, 0, 2), pushing along +X with 3 units: torque (0, 6, 0).
    let b = thruster(Vec3::new(0, 0, 2000), Vec3::new(1000, 0, 0), 3000, ThrusterGroup::of(Channel::RotY));
    let rig = Thrusters::new(vec![a, b]);
    let mut m = MaxTorque::default();
    update_max_torque(&rig, &mut m);
    assert_eq!(m.positive_torque, Vec3::new(1000, 6000, 0));
    assert_eq!(m.negative_torque, Vec3::new(0, 1000, 0));
}

#[test]
fn empty_rig_has_zero_budget() {
    let rig = Thrusters::new(vec![]);
    let mut m = MaxTorque { positive_torque: Vec3::new(5, 5, 5), negative_torque: Vec3::new(5, 5, 5) };
    update_max_torque(&rig, &mut m);
    assert_eq!(m, MaxTorque::default());
}

#[test]
fn budget_twice_is_identical() {
    let a = thruster(Vec3::new(1000, -2000, 500), Vec3::new(0, 600, 800), 7000, ThrusterGroup::of(Channel::RotZ));
    let b = thruster(Vec3::new(-300, 0, 4000), Vec3::new(0, 0, -1000), 200000, ThrusterGroup::of(Channel::Forward));
    let rig = Thrusters::new(vec![a, b]);
    let mut first = MaxTorque::default();
    update_max_torque(&rig, &mut first);
    let mut second = first;
    update_max_torque(&rig, &mut second);
    assert_eq!(first, second);
}

#[test]
fn planner_zero_inertia_returns_velocity() {
    for v in [-7000i64, 0, 1, 123456] {
        assert_eq!(calculate_target_angular_velocity(1000, -500, v, 5000, 0), v);
    }
}

#[test]
fn planner_at_rest_on_target() {
    assert_eq!(calculate_target_angular_velocity(0, 0, 0, 10 * SCALE, SCALE), 0);
}

#[test]
fn planner_accelerates_toward_target() {
    assert_eq!(calculate_target_angular_velocity(1000, 0, 0, SCALE, SCALE), MAX_RATE);
    assert_eq!(calculate_target_angular_velocity(-1000, 0, 0, SCALE, SCALE), -MAX_RATE);
}

#[test]
fn planner_brakes_when_too_fast() {
    // 5 rad/s toward a target 0.1 rad away at 1 rad/s²: stopping takes 5 s,
    // reaching the target about 0.019 s.
    assert_eq!(calculate_target_angular_velocity(100, 0, 5000, SCALE, SCALE), -MAX_RATE);
    assert_eq!(calculate_target_angular_velocity(-100, 0, -5000, SCALE, SCALE), MAX_RATE);
}

#[test]
fn planner_zero_torque_leaves_velocity() {
    assert_eq!(calculate_target_angular_velocity(1000, 0, 2500, 0, SCALE), 2500);
}

#[test]
fn angle_difference_wraps() {
    assert_eq!(angle_difference(1000, 0), 1000);
    assert_eq!(angle_difference(0, 4000), 2284);
    assert_eq!(angle_difference(PI, 0), PI);
    assert_eq!(angle_difference(-PI, 0), PI);
    assert_eq!(angle_difference(7000, 0), 716);
    assert_eq!(angle_difference(-7000, 0), -716);
}

#[test]
fn positive_filters() {
    assert_eq!(positive(3), Some(3));
    assert_eq!(positive(0), None);
    assert_eq!(positive(-2), None);
}

#[test]
fn proportional_demand_is_gain_times_error() {
    let mut reg = rate_regulator(2000, 0, 0, Vec3::new(-3000, 0, 0));
    let mut rig = Thrusters::new(vec![]);
    tick(&mut reg, Vec3::zero(), 100, &mut rig);
    assert_eq!(rig.group_thrust[7], 6000);
    assert!(rig.groups_to_fire.intersects(ThrusterGroup::of(Channel::NegRotX)));
    assert!(!rig.groups_to_fire.intersects(ThrusterGroup::of(Channel::RotX)));
}

#[test]
fn integral_stays_clamped() {
    let mut reg = rate_regulator(0, 1000, 0, Vec3::new(50000, -50000, 0));
    let mut rig = Thrusters::new(vec![]);
    for _ in 0..100 {
        tick(&mut reg, Vec3::zero(), 100, &mut rig);
        for v in [reg.integral_error.x, reg.integral_error.y, reg.integral_error.z] {
            assert!(-SCALE <= v && v <= SCALE);
        }
    }
    assert_eq!(reg.integral_error, Vec3::new(SCALE, -SCALE, 0));
}

#[test]
fn zero_tick_has_no_derivative() {
    let mut reg = rate_regulator(1000, 0, 5000, Vec3::new(0, 0, 2000));
    let mut rig = Thrusters::new(vec![]);
    tick(&mut reg, Vec3::zero(), 0, &mut rig);
    assert_eq!(rig.group_thrust[10], 2000);
    assert_eq!(reg.prev_error, Vec3::new(0, 0, 2000));
}

#[test]
fn derivative_term() {
    let mut reg = rate_regulator(0, 0, 1000, Vec3::new(0, 0, 2000));
    let mut rig = Thrusters::new(vec![]);
    // error goes from 0 to 2 in 0.5 s: derivative 4.
    tick(&mut reg, Vec3::zero(), 500, &mut rig);
    assert_eq!(rig.group_thrust[10], 4000);
}

#[test]
fn disabled_regulator_only_records() {
    let mut reg = rate_regulator(1000, 0, 0, Vec3::new(0, 3000, 0));
    reg.enable = false;
    let mut rig = Thrusters::new(vec![]);
    tick(&mut reg, Vec3::new(1, 2, 3), 100, &mut rig);
    assert_eq!(reg.local_angvel, Vec3::new(1, 2, 3));
    assert_eq!(reg.prev_error, Vec3::zero());
    assert!(!rig.groups_to_fire.intersects(ThrusterGroup::of(Channel::RotY)));
    assert_eq!(rig.group_thrust, [0; 12]);
}

#[test]
fn angle_mode_plans_every_axis() {
    let mut reg = OrientationRegulator::default();
    let mut rig = Thrusters::new(vec![]);
    let budget = MaxTorque { positive_torque: Vec3::new(1000, 1000, 1000), negative_torque: Vec3::new(1000, 1000, 1000) };
    orientation_regulator(&mut reg, Vec3::zero(), Vec3::zero(), Vec3::new(1000, 1000, 1000), &budget, 100, &mut rig);
    assert_eq!(reg.target_angvel, Vec3::new(0, MAX_RATE, 0));
    assert_eq!(rig.group_thrust[8], 10 * MAX_RATE);
}

#[test]
fn regulator_scenario_positive_y() {
    let mut reg = rate_regulator(10 * SCALE, 0, 0, Vec3::new(0, 5000, 0));
    let mut rig = Thrusters::new(vec![]);
    tick(&mut reg, Vec3::zero(), 100, &mut rig);
    assert_eq!(reg.prev_error, Vec3::new(0, 5000, 0));
    for c in [
        Channel::Forward, Channel::Backward, Channel::Left, Channel::Right, Channel::Up, Channel::Down,
        Channel::RotX, Channel::NegRotX, Channel::NegRotY, Channel::RotZ, Channel::NegRotZ,
    ] {
        assert!(!rig.groups_to_fire.intersects(ThrusterGroup::of(c)));
    }
    assert!(rig.groups_to_fire.intersects(ThrusterGroup::of(Channel::RotY)));
    assert_eq!(rig.group_thrust[8], 50 * SCALE);
}

#[test]
fn forward_thruster_scenario() {
    // Mounted at (0, 0, 4), turned half a turn about Y: pushes along -Z.
    let t = thruster(Vec3::new(0, 0, 4000), Vec3::new(0, 0, -1000), 200 * SCALE, ThrusterGroup::of(Channel::Forward));
    let mut rig = Thrusters::new(vec![t]);
    player_thrusters(&mut rig, ThrusterGroup::of(Channel::Forward));
    let out = thrusters(&rig, Vec3::zero());
    assert_eq!(out.applied.len(), 1);
    let a = out.applied[0];
    assert!(a.firing);
    assert_eq!(a.magnitude, SCALE);
    assert_eq!(a.point, Vec3::new(0, 0, 4000));
    assert_eq!(a.force, Vec3::new(0, 0, -200 * SCALE));
    assert_eq!(out.force, Vec3::new(0, 0, -200 * SCALE));
    assert_eq!(out.torque, Vec3::zero());
}

#[test]
fn clamp_is_per_thruster() {
    let g = ThrusterGroup::of(Channel::RotY);
    let a = thruster(Vec3::new(1000, 0, 0), Vec3::new(0, 0, -1000), 2000, g);
    let b = thruster(Vec3::new(-1000, 0, 0), Vec3::new(0, 0, 1000), 2000, g);
    let mut rig = Thrusters::new(vec![a, b]);
    rig.group_thrust[8] = 500;
    rig.groups_to_fire = g;
    let out = thrusters(&rig, Vec3::zero());
    assert_eq!(out.applied[0].magnitude, 500);
    assert_eq!(out.applied[1].magnitude, 500);
    assert_eq!(out.applied[0].force, Vec3::new(0, 0, -1000));
    assert_eq!(out.applied[1].force, Vec3::new(0, 0, 1000));
    assert_eq!(out.force, Vec3::zero());
    // (1, 0, 0) × (0, 0, -1) = (0, 1, 0) twice.
    assert_eq!(out.torque, Vec3::new(0, 2000, 0));
}

#[test]
fn magnitude_sums_and_clamps() {
    let g = ThrusterGroup::of(Channel::Left).bitor(ThrusterGroup::of(Channel::RotZ));
    let t = thruster(Vec3::zero(), Vec3::new(1000, 0, 0), 1000, g);
    let mut rig = Thrusters::new(vec![t]);
    rig.groups_to_fire = ThrusterGroup::of(Channel::RotZ);
    rig.group_thrust[2] = 300;
    rig.group_thrust[10] = 400;
    assert_eq!(thrusters(&rig, Vec3::zero()).applied[0].magnitude, 700);
    rig.group_thrust[10] = 900;
    assert_eq!(thrusters(&rig, Vec3::zero()).applied[0].magnitude, SCALE);
    rig.group_thrust[10] = -900;
    assert_eq!(thrusters(&rig, Vec3::zero()).applied[0].magnitude, 0);
    rig.group_thrust[10] = -300;
    // the sum is zero: full thrust
    assert_eq!(thrusters(&rig, Vec3::zero()).applied[0].magnitude, SCALE);
}

#[test]
fn idle_thrusters_apply_nothing() {
    let t = thruster(Vec3::new(1000, 0, 0), Vec3::new(0, 1000, 0), 5000, ThrusterGroup::of(Channel::Up));
    let mut rig = Thrusters::new(vec![t]);
    rig.groups_to_fire = ThrusterGroup::of(Channel::Down);
    let out = thrusters(&rig, Vec3::zero());
    assert!(!out.applied[0].firing);
    assert_eq!(out.force, Vec3::zero());
    assert_eq!(out.torque, Vec3::zero());
}

#[test]
fn torque_about_center_of_mass() {
    let t = thruster(Vec3::new(2000, 0, 0), Vec3::new(0, 1000, 0), 3000, ThrusterGroup::of(Channel::Up));
    let mut rig = Thrusters::new(vec![t]);
    player_thrusters(&mut rig, ThrusterGroup::of(Channel::Up));
    // lever (1, 0, 0), force (0, 3, 0): torque (0, 0, 3).
    let out = thrusters(&rig, Vec3::new(1000, 0, 0));
    assert_eq!(out.torque, Vec3::new(0, 0, 3000));
    assert_eq!(out.force, Vec3::new(0, 3000, 0));
}

#[test]
fn reset_clears_fire_state() {
    let mut rig = Thrusters::new(vec![]);
    rig.group_thrust[4] = 77;
    rig.group_thrust[11] = -5;
    player_thrusters(&mut rig, ThrusterGroup::of(Channel::Backward));
    reset_thrusters(&mut rig);
    assert_eq!(rig.group_thrust, [0; 12]);
    assert_eq!(rig.groups_to_fire, ThrusterGroup::none());
}

#[test]
fn planner_small_budget_is_still_bang_bang() {
    // 0.001 N·m on 1000 kg·m² at 2.5 rad/s, the target 1 rad ahead: stopping
    // takes far longer than reaching the target, so reverse at full rate.
    assert_eq!(calculate_target_angular_velocity(1000, 0, 2500, 1, 1_000_000), -MAX_RATE);
    // at rest with the same tiny budget: turn toward the target
    assert_eq!(calculate_target_angular_velocity(1000, 0, 0, 1, 1_000_000), MAX_RATE);
    assert_eq!(calculate_target_angular_velocity(-1000, 0, 0, 1, 1_000_000), -MAX_RATE);
}

#[test]
fn planner_extreme_inputs() {
    assert_eq!(calculate_target_angular_velocity(0, 0, i64::MIN, i64::MAX, 0), i64::MIN);
    assert_eq!(calculate_target_angular_velocity(0, 0, i64::MAX, 1, i64::MAX), -MAX_RATE);
    assert_eq!(calculate_target_angular_velocity(500, 0, 0, 1, i64::MAX), MAX_RATE);
}

#[test]
fn planner_negative_inertia_follows_the_rule() {
    // stopping time |v|·I/T is negative: drive toward the target
    assert_eq!(calculate_target_angular_velocity(0, 0, 5000, 1000, -1000), 0);
    assert_eq!(calculate_target_angular_velocity(0, 0, 1, 1000, -1), 0);
    assert_eq!(calculate_target_angular_velocity(1000, 0, 5000, 1000, -1000), MAX_RATE);
    assert_eq!(calculate_target_angular_velocity(-1000, 0, -5000, 1000, -1000), -MAX_RATE);
}
