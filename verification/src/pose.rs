//! Head and face channels, and the optional upper-body joint rotations.

use vstd::prelude::*;
use crate::binary32::{
    angle_clamped, angle_in_range, clamp_angle, clamp_unit, unit_clamped, unit_in_range, word,
    Binary32, ZERO_BITS,
};

verus! {

/// The latest head and face sample: three angles in radians and two ratios.
#[derive(Clone, Copy, Debug, PartialEq, Eq, Structural)]
pub struct Pose {
    pub yaw: Binary32,
    pub pitch: Binary32,
    pub roll: Binary32,
    pub blink: Binary32,
    pub mouth: Binary32,
}

impl Pose {
    /// Every channel a number: every angle within a quarter turn either way,
    /// every ratio within `0 ..= 1`. A pose with a NaN channel is not in range.
    pub open spec fn in_range(self) -> bool {
        &&& angle_in_range(self.yaw)
        &&& angle_in_range(self.pitch)
        &&& angle_in_range(self.roll)
        &&& unit_in_range(self.blink)
        &&& unit_in_range(self.mouth)
    }

    /// The pose at rest: every channel `0.0`.
    pub open spec fn rest() -> Pose {
        Pose {
            yaw: word(ZERO_BITS),
            pitch: word(ZERO_BITS),
            roll: word(ZERO_BITS),
            blink: word(ZERO_BITS),
            mouth: word(ZERO_BITS),
        }
    }

    /// The sample as it is stored: each channel brought into its range on its
    /// own, a NaN channel set to `0.0`.
    pub open spec fn clamped(self) -> Pose {
        Pose {
            yaw: angle_clamped(self.yaw),
            pitch: angle_clamped(self.pitch),
            roll: angle_clamped(self.roll),
            blink: unit_clamped(self.blink),
            mouth: unit_clamped(self.mouth),
        }
    }

    /// Brings an incoming sample into range channel by channel. Nothing is
    /// refused and nothing out of range is stored: a channel past its limit
    /// takes the limit, a NaN channel becomes `0.0`, every other channel is
    /// kept.
    pub fn clamp(self) -> (r: Pose)
        ensures
            r == self.clamped(),
            r.in_range(),
            !r.yaw.nan() && !r.pitch.nan() && !r.roll.nan() && !r.blink.nan() && !r.mouth.nan(),
            self.in_range() ==> r == self,
    {
        Pose {
            yaw: clamp_angle(self.yaw),
            pitch: clamp_angle(self.pitch),
            roll: clamp_angle(self.roll),
            blink: clamp_unit(self.blink),
            mouth: clamp_unit(self.mouth),
        }
    }
}

impl Default for Pose {
    fn default() -> (r: Pose)
        ensures
            r == Pose::rest(),
    {
        let zero = Binary32::from_bits(ZERO_BITS);
        Pose { yaw: zero, pitch: zero, roll: zero, blink: zero, mouth: zero }
    }
}

/// A rotation as a quaternion. It is carried as given, never normalised.
#[derive(Clone, Copy, Debug, PartialEq, Eq, Structural)]
pub struct Quat {
    pub x: Binary32,
    pub y: Binary32,
    pub z: Binary32,
    pub w: Binary32,
}

/// The upper-body joints, in the order in which they are reported.
#[derive(Clone, Copy, Debug, PartialEq, Eq, Structural)]
pub enum Joint {
    Chest,
    LeftShoulder,
    RightShoulder,
    LeftUpperArm,
    RightUpperArm,
    LeftLowerArm,
    RightLowerArm,
    LeftWrist,
    RightWrist,
}

/// Number of upper-body joints.
pub const JOINT_COUNT: usize = 9;

impl Joint {
    /// Place of the joint in the reporting order, from 0.
    pub open spec fn index(self) -> int {
        match self {
            Joint::Chest => 0,
            Joint::LeftShoulder => 1,
            Joint::RightShoulder => 2,
            Joint::LeftUpperArm => 3,
            Joint::RightUpperArm => 4,
            Joint::LeftLowerArm => 5,
            Joint::RightLowerArm => 6,
            Joint::LeftWrist => 7,
            Joint::RightWrist => 8,
        }
    }

    /// The joint at a place of the reporting order.
    pub open spec fn at(i: int) -> Joint {
        if i == 0 {
            Joint::Chest
        } else if i == 1 {
            Joint::LeftShoulder
        } else if i == 2 {
            Joint::RightShoulder
        } else if i == 3 {
            Joint::LeftUpperArm
        } else if i == 4 {
            Joint::RightUpperArm
        } else if i == 5 {
            Joint::LeftLowerArm
        } else if i == 6 {
            Joint::RightLowerArm
        } else if i == 7 {
            Joint::LeftWrist
        } else {
            Joint::RightWrist
        }
    }

    /// The joint at place `i` of the reporting order; none from
    /// [`JOINT_COUNT`] on.
    pub fn from_index(i: usize) -> (r: Option<Joint>)
        ensures
            i < JOINT_COUNT ==> r == Some(Joint::at(i as int)) && Joint::at(i as int).index() == i,
            i >= JOINT_COUNT ==> r is None,
    {
        if i == 0 {
            Some(Joint::Chest)
        } else if i == 1 {
            Some(Joint::LeftShoulder)
        } else if i == 2 {
            Some(Joint::RightShoulder)
        } else if i == 3 {
            Some(Joint::LeftUpperArm)
        } else if i == 4 {
            Some(Joint::RightUpperArm)
        } else if i == 5 {
            Some(Joint::LeftLowerArm)
        } else if i == 6 {
            Some(Joint::RightLowerArm)
        } else if i == 7 {
            Some(Joint::LeftWrist)
        } else if i == 8 {
            Some(Joint::RightWrist)
        } else {
            None
        }
    }
}

/// One snapshot of the upper body. Each joint is present or absent on its
/// own; a new snapshot replaces the previous one whole.
#[derive(Clone, Copy, Debug, PartialEq, Eq, Structural)]
pub struct UpperBody {
    pub chest: Option<Quat>,
    pub l_shoulder: Option<Quat>,
    pub r_shoulder: Option<Quat>,
    pub l_upper_arm: Option<Quat>,
    pub r_upper_arm: Option<Quat>,
    pub l_lower_arm: Option<Quat>,
    pub r_lower_arm: Option<Quat>,
    pub l_wrist: Option<Quat>,
    pub r_wrist: Option<Quat>,
}

impl UpperBody {
    /// The snapshot with no joint present.
    pub open spec fn empty() -> UpperBody {
        UpperBody {
            chest: None,
            l_shoulder: None,
            r_shoulder: None,
            l_upper_arm: None,
            r_upper_arm: None,
            l_lower_arm: None,
            r_lower_arm: None,
            l_wrist: None,
            r_wrist: None,
        }
    }

    /// The rotation stored for a joint, if any.
    pub open spec fn rotation(self, joint: Joint) -> Option<Quat> {
        match joint {
            Joint::Chest => self.chest,
            Joint::LeftShoulder => self.l_shoulder,
            Joint::RightShoulder => self.r_shoulder,
            Joint::LeftUpperArm => self.l_upper_arm,
            Joint::RightUpperArm => self.r_upper_arm,
            Joint::LeftLowerArm => self.l_lower_arm,
            Joint::RightLowerArm => self.r_lower_arm,
            Joint::LeftWrist => self.l_wrist,
            Joint::RightWrist => self.r_wrist,
        }
    }

    /// The rotation stored for a joint, if any.
    pub fn get(&self, joint: Joint) -> (r: Option<Quat>)
        ensures
            r == self.rotation(joint),
    {
        match joint {
            Joint::Chest => self.chest,
            Joint::LeftShoulder => self.l_shoulder,
            Joint::RightShoulder => self.r_shoulder,
            Joint::LeftUpperArm => self.l_upper_arm,
            Joint::RightUpperArm => self.r_upper_arm,
            Joint::LeftLowerArm => self.l_lower_arm,
            Joint::RightLowerArm => self.r_lower_arm,
            Joint::LeftWrist => self.l_wrist,
            Joint::RightWrist => self.r_wrist,
        }
    }
}

impl Default for UpperBody {
    fn default() -> (r: UpperBody)
        ensures
            r == UpperBody::empty(),
    {
        UpperBody {
            chest: None,
            l_shoulder: None,
            r_shoulder: None,
            l_upper_arm: None,
            r_upper_arm: None,
            l_lower_arm: None,
            r_lower_arm: None,
            l_wrist: None,
            r_wrist: None,
        }
    }
}

} // verus!
