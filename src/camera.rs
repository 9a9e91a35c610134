//! Mouse-look state of the free-flying camera.
use vstd::prelude::*;
use crate::fixed::clamp;
use crate::planner::{angle_difference, wrap_angle};

verus! {

/// Largest pitch magnitude, in thousandths of a radian, short of straight up
/// or down so that the view never rolls over.
pub const MAX_PITCH: i64 = 1540;

/// Pitch and yaw of the free-flying camera, in thousandths of a radian.
#[derive(Copy, Clone, Debug, Default, PartialEq, Eq, Structural)]
pub struct FlyCam {
    pub pitch: i64,
    pub yaw: i64,
}

impl FlyCam {
    pub open spec fn wf(self) -> bool {
        -MAX_PITCH <= self.pitch <= MAX_PITCH
    }

    /// Turns the view by a mouse motion already converted to angles: pitch
    /// down by `dpitch`, held within `[-MAX_PITCH, MAX_PITCH]`, and yaw by
    /// `dyaw`, kept within half a turn either way.
    pub fn look(&mut self, dpitch: i64, dyaw: i64)
        ensures
            final(self).pitch == clamp(old(self).pitch - dpitch, -MAX_PITCH, MAX_PITCH as int),
            final(self).yaw == wrap_angle(old(self).yaw - dyaw),
            final(self).wf(),
    {
        let p = self.pitch as i128 - dpitch as i128;
        self.pitch = if p < -MAX_PITCH as i128 {
            -MAX_PITCH
        } else if p > MAX_PITCH as i128 {
            MAX_PITCH
        } else {
            p as i64
        };
        self.yaw = angle_difference(self.yaw, dyaw);
    }
}

} // verus!
