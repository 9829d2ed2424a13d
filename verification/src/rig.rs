//! The pitcher rig: the articulated chain of body segments, the handles the
//! physics engine assigned to them, the anthropometric lengths derived at
//! build time, and the delivery-phase value.

use vstd::prelude::*;

verus! {

use crate::math::{HALF_PI_MILLI, LENGTH_ONE};
use crate::pitch::PitchingArm;
use crate::vec::Vec3Fx;

/// Distance from the core anchor down to the back hip, position units.
pub const DISTANCE_CORE_HIP: i64 = 2000;
/// Distance from the chest centre out to the shoulder, position units.
pub const DISTANCE_CHEST_SHOULDER: i64 = 4000;

/// One rigid body segment of the pitcher chain.
#[derive(Debug, Clone, Copy, PartialEq, Eq, Structural)]
pub enum PitcherBodyPart {
    BackFoot,
    BackHip,
    Core,
    Pelvis,
    Torso,
    Shoulder,
    Elbow,
    Wrist,
}

/// The delivery phase, totally ordered; it only ever moves forward within
/// one pitch.
#[derive(Debug, Clone, Copy, PartialEq, Eq, Structural)]
pub enum PitchStage {
    WindUp,
    Stride,
    ArmCocking,
    ArmAcceleration,
    ArmDeceleration,
}

impl Default for PitchStage {
    fn default() -> (r: Self)
        ensures
            r == PitchStage::WindUp,
    {
        PitchStage::WindUp
    }
}

impl PitchStage {
    /// The position of a stage in the delivery order.
    pub open spec fn spec_index(self) -> int {
        match self {
            PitchStage::WindUp => 0,
            PitchStage::Stride => 1,
            PitchStage::ArmCocking => 2,
            PitchStage::ArmAcceleration => 3,
            PitchStage::ArmDeceleration => 4,
        }
    }

    pub fn index(&self) -> (r: i64)
        ensures
            r == self.spec_index(),
    {
        match self {
            PitchStage::WindUp => 0,
            PitchStage::Stride => 1,
            PitchStage::ArmCocking => 2,
            PitchStage::ArmAcceleration => 3,
            PitchStage::ArmDeceleration => 4,
        }
    }
}

/// The rig's mapping from body-part kind to the rigid-body handle the
/// engine assigned. A rig may be partially specified: a missing handle
/// means the segment does not exist for this rig.
#[derive(Debug, Clone, Copy, PartialEq, Eq, Structural)]
pub struct BodyHandles {
    pub back_foot: Option<u64>,
    pub back_hip: Option<u64>,
    pub core: Option<u64>,
    pub pelvis: Option<u64>,
    pub torso: Option<u64>,
    pub shoulder: Option<u64>,
    pub elbow: Option<u64>,
    pub wrist: Option<u64>,
}

impl BodyHandles {
    /// The handle stored for one body part.
    pub open spec fn spec_get(self, part: PitcherBodyPart) -> Option<u64> {
        match part {
            PitcherBodyPart::BackFoot => self.back_foot,
            PitcherBodyPart::BackHip => self.back_hip,
            PitcherBodyPart::Core => self.core,
            PitcherBodyPart::Pelvis => self.pelvis,
            PitcherBodyPart::Torso => self.torso,
            PitcherBodyPart::Shoulder => self.shoulder,
            PitcherBodyPart::Elbow => self.elbow,
            PitcherBodyPart::Wrist => self.wrist,
        }
    }

    /// An empty mapping.
    pub fn new() -> (r: BodyHandles)
        ensures
            forall|p: PitcherBodyPart| r.spec_get(p) is None,
    {
        BodyHandles {
            back_foot: None,
            back_hip: None,
            core: None,
            pelvis: None,
            torso: None,
            shoulder: None,
            elbow: None,
            wrist: None,
        }
    }

    pub fn get(&self, part: PitcherBodyPart) -> (r: Option<u64>)
        ensures
            r == self.spec_get(part),
    {
        match part {
            PitcherBodyPart::BackFoot => self.back_foot,
            PitcherBodyPart::BackHip => self.back_hip,
            PitcherBodyPart::Core => self.core,
            PitcherBodyPart::Pelvis => self.pelvis,
            PitcherBodyPart::Torso => self.torso,
            PitcherBodyPart::Shoulder => self.shoulder,
            PitcherBodyPart::Elbow => self.elbow,
            PitcherBodyPart::Wrist => self.wrist,
        }
    }

    /// Records the handle for one body part, leaving every other part as
    /// it was.
    pub fn insert(&mut self, part: PitcherBodyPart, handle: u64)
        ensures
            final(self).spec_get(part) == Some(handle),
            forall|p: PitcherBodyPart| p != part ==> final(self).spec_get(p) == old(self).spec_get(p),
    {
        match part {
            PitcherBodyPart::BackFoot => {
                self.back_foot = Some(handle);
            },
            PitcherBodyPart::BackHip => {
                self.back_hip = Some(handle);
            },
            PitcherBodyPart::Core => {
                self.core = Some(handle);
            },
            PitcherBodyPart::Pelvis => {
                self.pelvis = Some(handle);
            },
            PitcherBodyPart::Torso => {
                self.torso = Some(handle);
            },
            PitcherBodyPart::Shoulder => {
                self.shoulder = Some(handle);
            },
            PitcherBodyPart::Elbow => {
                self.elbow = Some(handle);
            },
            PitcherBodyPart::Wrist => {
                self.wrist = Some(handle);
            },
        }
    }
}

/// The build-time parameters and run-time ownership of one pitcher rig:
/// the throwing arm, the lateral trunk tilt, the aim direction sampled at
/// the knee-up trigger, the segment lengths (fixed for the rig's
/// lifetime), and the handles of the segments and auxiliary bodies.
#[derive(Debug, Clone, Copy, PartialEq, Eq, Structural)]
pub struct PitcherParams {
    pub pitching_arm: PitchingArm,
    /// Lateral trunk tilt in milliradians; joint targets use the
    /// complement to a quarter turn.
    pub lateral_trunk_tilt: i64,
    /// Aim direction, a unit vector at length scale.
    pub direction: Vec3Fx,
    /// Where the rig was spawned, position units.
    pub starting_pos: Vec3Fx,
    pub leg_length: i64,
    pub chest_length: i64,
    pub waist_length: i64,
    pub upper_arm_length: i64,
    pub forearm_length: i64,
    /// How far the core sinks before the stride foot plants.
    pub torso_drop: i64,
    pub body_parts: BodyHandles,
    pub ball: Option<u64>,
    pub pelvic_break: Option<u64>,
    pub balance_weight: Option<u64>,
}

impl Default for PitcherParams {
    /// A left-handed rig of default proportions, aimed straight down the
    /// z axis from the origin, with no bodies spawned yet.
    fn default() -> (r: Self)
        ensures
            r.pitching_arm == PitchingArm::Left,
            r.lateral_trunk_tilt == HALF_PI_MILLI,
            r.direction == (Vec3Fx { x: 0, y: 0, z: LENGTH_ONE }),
            r.starting_pos == (Vec3Fx { x: 0, y: 0, z: 0 }),
            r.leg_length == 10_000,
            r.chest_length == 3750,
            r.waist_length == 2500,
            r.upper_arm_length == 3000,
            r.forearm_length == 3000,
            r.torso_drop == 3000,
            forall|p: PitcherBodyPart| r.body_parts.spec_get(p) is None,
            r.ball is None,
            r.pelvic_break is None,
            r.balance_weight is None,
            r.wf(),
    {
        PitcherParams {
            pitching_arm: PitchingArm::Left,
            lateral_trunk_tilt: HALF_PI_MILLI,
            direction: Vec3Fx { x: 0, y: 0, z: LENGTH_ONE },
            starting_pos: Vec3Fx { x: 0, y: 0, z: 0 },
            leg_length: 10_000,
            chest_length: 3750,
            waist_length: 2500,
            upper_arm_length: 3000,
            forearm_length: 3000,
            torso_drop: 3000,
            body_parts: BodyHandles::new(),
            ball: None,
            pelvic_break: None,
            balance_weight: None,
        }
    }
}

impl PitcherParams {
    /// The ranges a rig is kept within: human-scaled segment lengths, a
    /// trunk tilt within a quarter turn, a unit-scale aim direction and a
    /// bounded spawn position.
    pub open spec fn wf(self) -> bool {
        &&& 0 <= self.lateral_trunk_tilt <= HALF_PI_MILLI
        &&& 0 < self.leg_length <= 100_000
        &&& 0 < self.chest_length <= 100_000
        &&& 0 < self.waist_length <= 100_000
        &&& 0 < self.upper_arm_length <= 100_000
        &&& 0 < self.forearm_length <= 100_000
        &&& 0 <= self.torso_drop <= 100_000
        &&& -10_000 <= self.direction.x <= 10_000
        &&& -10_000 <= self.direction.y <= 10_000
        &&& -10_000 <= self.direction.z <= 10_000
        &&& self.starting_pos.in_pos_range()
    }
}

/// One active pitcher: its engine handle, its build parameters and its
/// current delivery phase.
#[derive(Debug, Clone, Copy, PartialEq, Eq, Structural)]
pub struct PitcherRig {
    /// The engine handle of the pitcher entity itself; transition events
    /// carry it.
    pub entity: u64,
    pub params: PitcherParams,
    pub stage: PitchStage,
}

impl PitcherRig {
    pub open spec fn wf(self) -> bool {
        self.params.wf()
    }
}

} // verus!
