use thruster_control::camera::MAX_PITCH;
use thruster_control::fixed::SCALE;
use thruster_control::{
    Channel, FlyCam, MaxTorque, OrientationRegulator, PhysicsPlugin, Thruster, ThrusterGroup,
    Thrusters, Vec3,
};

#[test]
fn tick_runs_the_whole_pipeline() {
    let yaw = ThrusterGroup::of(Channel::RotY);
    let forward = ThrusterGroup::of(Channel::Forward);
    let rig = vec![
        // (1, 0, 0) pushing along -Z: +Y torque.
        Thruster { offset: Vec3::new(1000, 0, 0), direction: Vec3::new(0, 0, -1000), thrust: 2000, group: yaw },
        Thruster { offset: Vec3::new(0, 0, 4000), direction: Vec3::new(0, 0, -1000), thrust: 200 * SCALE, group: forward },
    ];
    let mut rig = Thrusters::new(rig);
    // stale fire state from an earlier tick
    rig.group_thrust[3] = 999;
    rig.groups_to_fire = ThrusterGroup::of(Channel::Right);
    let mut budget = MaxTorque::default();
    let mut reg = OrientationRegulator::new(100, 0, 0);
    reg.target_angvel = Vec3::new(0, 3000, 0);
    let out = PhysicsPlugin::tick(
        &mut rig,
        &mut budget,
        &mut reg,
        ThrusterGroup::none(),
        Vec3::zero(),
        Vec3::zero(),
        Vec3::new(1000, 1000, 1000),
        Vec3::zero(),
        100,
    );
    assert_eq!(budget.positive_torque, Vec3::new(0, 2000, 0));
    assert_eq!(budget.negative_torque, Vec3::zero());
    assert_eq!(rig.group_thrust[3], 0);
    assert!(!rig.groups_to_fire.intersects(ThrusterGroup::of(Channel::Right)));
    assert!(!rig.groups_to_fire.intersects(forward));
    // demand 0.1 * 3 = 0.3 on +Y rotation
    assert_eq!(rig.group_thrust[8], 300);
    assert_eq!(out.applied[0].magnitude, 300);
    assert!(!out.applied[1].firing);
    assert_eq!(out.force, Vec3::new(0, 0, -600));
    assert_eq!(out.torque, Vec3::new(0, 600, 0));
}

#[test]
fn tick_with_manual_forward() {
    let forward = ThrusterGroup::of(Channel::Forward);
    let t = Thruster { offset: Vec3::new(0, 0, 4000), direction: Vec3::new(0, 0, -1000), thrust: 200 * SCALE, group: forward };
    let mut rig = Thrusters::new(vec![t]);
    let mut budget = MaxTorque::default();
    let mut reg = OrientationRegulator::new(SCALE, 0, 0);
    reg.enable = false;
    let out = PhysicsPlugin::tick(
        &mut rig, &mut budget, &mut reg, forward, Vec3::zero(), Vec3::zero(), Vec3::zero(), Vec3::zero(), 100,
    );
    assert_eq!(out.force, Vec3::new(0, 0, -200 * SCALE));
    assert_eq!(out.applied[0].point, Vec3::new(0, 0, 4000));
}

#[test]
fn fly_cam_pitch_is_clamped() {
    let mut cam = FlyCam::default();
    cam.look(-1000, 0);
    assert_eq!(cam.pitch, 1000);
    cam.look(-1000, 0);
    assert_eq!(cam.pitch, MAX_PITCH);
    cam.look(5000, 0);
    assert_eq!(cam.pitch, -MAX_PITCH);
}

#[test]
fn fly_cam_yaw_wraps() {
    let mut cam = FlyCam::default();
    cam.look(0, 1000);
    assert_eq!(cam.yaw, -1000);
    cam.look(0, 3000);
    assert_eq!(cam.yaw, 2284);
}
