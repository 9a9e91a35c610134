//! Reaction-control logic for a rigid body carrying directional thrusters:
//! channel masks, per-axis torque budgets, a time-optimal angular-velocity
//! planner, a PID regulator and the allocation of channel demand onto
//! physical thrusters. All quantities are fixed-point integers (see `fixed`).
pub mod fixed;
pub mod group;
pub mod rig;
pub mod budget;
pub mod planner;
pub mod regulator;
pub mod allocator;
pub mod pipeline;
pub mod camera;

pub use allocator::{player_thrusters, reset_thrusters, thrusters, AppliedThrust, ThrustOutput};
pub use camera::FlyCam;
pub use pipeline::PhysicsPlugin;
pub use budget::{update_max_torque, MaxTorque};
pub use group::{Channel, ThrusterGroup};
pub use planner::{angle_difference, calculate_target_angular_velocity, positive};
pub use regulator::{orientation_regulator, OrientationRegulator};
pub use rig::{Thruster, Thrusters, Vec3};
