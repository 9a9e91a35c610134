//! Vectors, thrusters and the per-tick fire state of a rig.
use vstd::prelude::*;
use crate::group::{ThrusterGroup, CHANNELS};
use crate::fixed::{SCALE, abs};

verus! {

/// Largest magnitude of a mounting offset or centre of mass coordinate (raw).
pub const MAX_COORD: i64 = 1_000_000;

/// Largest rated thrust (raw).
pub const MAX_THRUST: i64 = 1_000_000_000;

/// Largest number of thrusters on one rig.
pub const MAX_THRUSTERS: usize = 1_000_000;

/// Largest squared length of a thruster direction (raw): one unit squared,
/// with room for rounding each component to the nearest thousandth.
pub const MAX_DIRECTION_LENGTH_SQUARED: i64 = 1_002_000;

/// A fixed-point 3-vector in body axes.
#[derive(Copy, Clone, Debug, Default, PartialEq, Eq, Structural)]
pub struct Vec3 {
    pub x: i64,
    pub y: i64,
    pub z: i64,
}

impl Vec3 {
    pub open spec fn at(self, axis: int) -> int {
        if axis == 0 {
            self.x as int
        } else if axis == 1 {
            self.y as int
        } else {
            self.z as int
        }
    }

    /// Squared length, in raw units squared.
    pub open spec fn length_squared(self) -> int {
        self.x * self.x + self.y * self.y + self.z * self.z
    }

    /// Every component has magnitude at most `m`.
    pub open spec fn bounded(self, m: int) -> bool {
        abs(self.x as int) <= m && abs(self.y as int) <= m && abs(self.z as int) <= m
    }

    pub fn new(x: i64, y: i64, z: i64) -> (r: Vec3)
        ensures
            r == (Vec3 { x, y, z }),
    {
        Vec3 { x, y, z }
    }

    pub open spec fn zero_spec() -> Vec3 {
        Vec3 { x: 0, y: 0, z: 0 }
    }

    pub fn zero() -> (r: Vec3)
        ensures
            r == Vec3::zero_spec(),
    {
        Vec3 { x: 0, y: 0, z: 0 }
    }

    /// The component along `axis` (0, 1, 2 for X, Y, Z).
    pub fn get(&self, axis: usize) -> (r: i64)
        requires
            axis < 3,
        ensures
            r == self.at(axis as int),
    {
        if axis == 0 {
            self.x
        } else if axis == 1 {
            self.y
        } else {
            self.z
        }
    }

    /// Replaces the component along `axis`.
    pub fn set(&mut self, axis: usize, v: i64)
        requires
            axis < 3,
        ensures
            final(self).at(axis as int) == v,
            forall|a: int| 0 <= a < 3 && a != axis ==> #[trigger] final(self).at(a) == old(self).at(a),
    {
        if axis == 0 {
            self.x = v;
        } else if axis == 1 {
            self.y = v;
        } else {
            self.z = v;
        }
    }
}

/// One physical thruster.
#[derive(Copy, Clone, Debug, Default, PartialEq, Eq, Structural)]
pub struct Thruster {
    /// Mounting point in body axes.
    pub offset: Vec3,
    /// Unit vector (components scaled by `SCALE`) along which the thruster
    /// pushes the body, in body axes.
    pub direction: Vec3,
    /// Rated thrust.
    pub thrust: i64,
    /// The channels the thruster serves.
    pub group: ThrusterGroup,
}

impl Thruster {
    pub open spec fn wf(self) -> bool {
        &&& self.offset.bounded(MAX_COORD as int)
        &&& self.direction.bounded(SCALE as int)
        &&& self.direction.length_squared() <= MAX_DIRECTION_LENGTH_SQUARED
        &&& 0 <= self.thrust <= MAX_THRUST
    }
}

/// A rig of thrusters and its fire state for the current tick.
#[derive(Clone, Debug)]
pub struct Thrusters {
    pub thrusters: Vec<Thruster>,
    /// Commanded magnitude for each channel slot (`SCALE` is full thrust).
    pub group_thrust: [i64; CHANNELS],
    /// Channels requested to fire this tick.
    pub groups_to_fire: ThrusterGroup,
}

impl Thrusters {
    pub open spec fn wf(self) -> bool {
        &&& self.thrusters@.len() <= MAX_THRUSTERS
        &&& forall|i: int| 0 <= i < self.thrusters@.len() ==> #[trigger] self.thrusters@[i].wf()
    }

    /// A rig with the given thrusters and an empty fire state.
    pub fn new(thrusters: Vec<Thruster>) -> (r: Thrusters)
        ensures
            r.thrusters@ == thrusters@,
            r.groups_to_fire@ == Set::<int>::empty(),
            forall|c: int| 0 <= c < CHANNELS ==> #[trigger] r.group_thrust@[c] == 0,
    {
        Thrusters { thrusters, group_thrust: [0i64; CHANNELS], groups_to_fire: ThrusterGroup::none() }
    }
}

} // verus!
