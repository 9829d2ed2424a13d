//! The joint-reconfiguration policy: for each transition event, the new
//! joint specification of every affected body segment, as a pure function
//! of (body-part kind, event, pitching-arm sign). Segments not named by an
//! entry keep their joint: the table returns nothing for them.
//!
//! Every sideways quantity is mirrored by the pitching-arm sign; the
//! forward-tilt axis (x) is arm-independent.

use vstd::prelude::*;

verus! {

use crate::joint::{
    mirror_opt_joint,
    view_opt_joint,
    AxisMath,
    AxisSpec,
    JointSpec,
    JointSpecMath,
    Motor,
    MotorMath,
    Vec3Math,
};
use crate::math::{HALF_PI_MILLI, QUARTER_PI_MILLI, SIXTH_PI_MILLI};
use crate::pitch::PitchingArm;
use crate::rig::{PitcherBodyPart, PitcherParams, DISTANCE_CORE_HIP, DISTANCE_CHEST_SHOULDER};
use crate::vec::Vec3Fx;

/// The lateral-tilt motor target: the complement of the configured trunk
/// tilt to a quarter turn, mirrored by the arm sign.
pub open spec fn spec_ang_z_target(p: PitcherParams) -> int {
    p.pitching_arm.spec_sign() * (HALF_PI_MILLI - p.lateral_trunk_tilt)
}

/// A locked axis in the mathematical view.
pub open spec fn axis_locked() -> AxisMath {
    AxisMath { limits: Some((0int, 0int)), motor: None }
}

/// A free axis in the mathematical view.
pub open spec fn axis_free() -> AxisMath {
    AxisMath { limits: None, motor: None }
}

/// A limited axis without a motor.
pub open spec fn axis_limited(lo: int, hi: int) -> AxisMath {
    AxisMath { limits: Some((lo, hi)), motor: None }
}

/// A limited axis driven by a position motor.
pub open spec fn axis_driven(lo: int, hi: int, target: int, stiffness: int, damping: int) -> AxisMath {
    AxisMath {
        limits: Some((lo, hi)),
        motor: Some(MotorMath { target, stiffness, damping }),
    }
}

/// An anchor pair: a local offset on the parent, the origin on the child.
pub open spec fn anchors(x: int, y: int, z: int) -> (Vec3Math, Vec3Math) {
    (Vec3Math { x, y, z }, Vec3Math { x: 0, y: 0, z: 0 })
}

/// Knee up: the drive leg relaxes. The back foot and back hip free their
/// forward-ankle axis so the leg can push the rig toward the target;
/// everything else keeps its joint.
pub open spec fn spec_on_knee_up(p: PitcherParams, part: PitcherBodyPart) -> Option<
    JointSpecMath,
> {
    match part {
        PitcherBodyPart::BackFoot => {
            let a = anchors(0, -p.leg_length as int, 0);
            Some(
                JointSpecMath {
                    anchor1: a.0,
                    anchor2: a.1,
                    ang_x: axis_free(),
                    ang_y: axis_locked(),
                    ang_z: axis_locked(),
                },
            )
        },
        PitcherBodyPart::BackHip => {
            let a = anchors(0, -DISTANCE_CORE_HIP as int, 0);
            Some(
                JointSpecMath {
                    anchor1: a.0,
                    anchor2: a.1,
                    ang_x: axis_free(),
                    ang_y: axis_locked(),
                    ang_z: axis_locked(),
                },
            )
        },
        _ => None,
    }
}

/// Foot contact: the pelvis gains a motored vertical rotation with
/// asymmetric limits (wider on the throwing side) and a widened lateral
/// range up to the tilt target; the torso widens similarly with a small
/// forward-tilt allowance.
pub open spec fn spec_on_foot_contact(p: PitcherParams, part: PitcherBodyPart) -> Option<
    JointSpecMath,
> {
    let sign = p.pitching_arm.spec_sign();
    let tgt = spec_ang_z_target(p);
    match part {
        PitcherBodyPart::Pelvis => {
            let a = anchors(0, p.waist_length as int, 0);
            let y_range: (int, int) = match p.pitching_arm {
                PitchingArm::Left => (-100, HALF_PI_MILLI as int),
                PitchingArm::Right => (-HALF_PI_MILLI as int, 100),
            };
            let z_range: (int, int) = match p.pitching_arm {
                PitchingArm::Left => (0, tgt),
                PitchingArm::Right => (tgt, 0),
            };
            Some(
                JointSpecMath {
                    anchor1: a.0,
                    anchor2: a.1,
                    ang_x: axis_locked(),
                    ang_y: axis_driven(y_range.0, y_range.1, sign * 100, 1_000_000, 1000),
                    ang_z: axis_limited(z_range.0, z_range.1),
                },
            )
        },
        PitcherBodyPart::Torso => {
            let a = anchors(0, p.chest_length as int, 0);
            let y_range: (int, int) = match p.pitching_arm {
                PitchingArm::Left => (-SIXTH_PI_MILLI as int, 1000),
                PitchingArm::Right => (-1000, SIXTH_PI_MILLI as int),
            };
            Some(
                JointSpecMath {
                    anchor1: a.0,
                    anchor2: a.1,
                    ang_x: axis_limited(-100, 100),
                    ang_y: axis_driven(y_range.0, y_range.1, 0, 1_000_000, 100),
                    ang_z: axis_locked(),
                },
            )
        },
        _ => None,
    }
}

/// Maximum external rotation (the pelvic break): the pelvis motor targets
/// advance on both the vertical and the lateral-tilt axes, and the
/// forward-tilt axis opens up to a quarter-pi.
pub open spec fn spec_on_max_er(p: PitcherParams, part: PitcherBodyPart) -> Option<
    JointSpecMath,
> {
    let sign = p.pitching_arm.spec_sign();
    let tgt = spec_ang_z_target(p);
    match part {
        PitcherBodyPart::Pelvis => {
            let a = anchors(0, p.waist_length as int, 0);
            let y_range: (int, int) = match p.pitching_arm {
                PitchingArm::Left => (-100, 1000),
                PitchingArm::Right => (-1000, 100),
            };
            let z_range: (int, int) = match p.pitching_arm {
                PitchingArm::Left => (0, tgt),
                PitchingArm::Right => (tgt, 0),
            };
            Some(
                JointSpecMath {
                    anchor1: a.0,
                    anchor2: a.1,
                    ang_x: axis_limited(0, QUARTER_PI_MILLI as int),
                    ang_y: axis_driven(y_range.0, y_range.1, sign * 100, 800_000, 1000),
                    ang_z: axis_driven(z_range.0, z_range.1, tgt, 800_000, 1000),
                },
            )
        },
        _ => None,
    }
}

/// Maximum internal rotation: the pelvis and torso tighten to their final
/// delivery-stance ranges around the tilt target, and the shoulder locks
/// to its fixed lateral offset.
pub open spec fn spec_on_max_ir(p: PitcherParams, part: PitcherBodyPart) -> Option<
    JointSpecMath,
> {
    let sign = p.pitching_arm.spec_sign();
    let tgt = spec_ang_z_target(p);
    match part {
        PitcherBodyPart::Pelvis => {
            let a = anchors(0, p.waist_length as int, 0);
            let y_range: (int, int) = match p.pitching_arm {
                PitchingArm::Left => (-100, 1000),
                PitchingArm::Right => (-1000, 100),
            };
            let z_range: (int, int) = match p.pitching_arm {
                PitchingArm::Left => (tgt - 200, tgt),
                PitchingArm::Right => (tgt, tgt + 200),
            };
            Some(
                JointSpecMath {
                    anchor1: a.0,
                    anchor2: a.1,
                    ang_x: axis_limited(0, QUARTER_PI_MILLI as int),
                    ang_y: axis_driven(y_range.0, y_range.1, sign * 100, 800_000, 1000),
                    ang_z: axis_limited(z_range.0, z_range.1),
                },
            )
        },
        PitcherBodyPart::Torso => {
            let a = anchors(0, p.chest_length as int, 0);
            let y_range: (int, int) = match p.pitching_arm {
                PitchingArm::Left => (-SIXTH_PI_MILLI as int, 100),
                PitchingArm::Right => (-100, SIXTH_PI_MILLI as int),
            };
            Some(
                JointSpecMath {
                    anchor1: a.0,
                    anchor2: a.1,
                    ang_x: axis_limited(-100, 100),
                    ang_y: axis_limited(y_range.0, y_range.1),
                    ang_z: axis_locked(),
                },
            )
        },
        PitcherBodyPart::Shoulder => {
            let a = anchors(sign * DISTANCE_CHEST_SHOULDER as int, 0, 0);
            Some(
                JointSpecMath {
                    anchor1: a.0,
                    anchor2: a.1,
                    ang_x: axis_locked(),
                    ang_y: axis_free(),
                    ang_z: axis_locked(),
                },
            )
        },
        _ => None,
    }
}

impl PitcherParams {
    /// The lateral-tilt motor target in milliradians.
    pub fn ang_z_target(&self) -> (r: i64)
        requires
            self.wf(),
        ensures
            r == spec_ang_z_target(*self),
    {
        match self.pitching_arm {
            PitchingArm::Left => HALF_PI_MILLI - self.lateral_trunk_tilt,
            PitchingArm::Right => -(HALF_PI_MILLI - self.lateral_trunk_tilt),
        }
    }

    /// The signed vertical-rotation motor target used after foot contact.
    fn ang_y_motor_target(&self) -> (r: i64)
        ensures
            r == self.pitching_arm.spec_sign() * 100,
    {
        match self.pitching_arm {
            PitchingArm::Left => 100,
            PitchingArm::Right => -100,
        }
    }

    /// The new joint of `part` on the knee-up transition, if that entry
    /// exists in the table.
    pub fn on_knee_up(&self, part: PitcherBodyPart) -> (r: Option<JointSpec>)
        requires
            self.wf(),
        ensures
            view_opt_joint(r) == spec_on_knee_up(*self, part),
    {
        match part {
            PitcherBodyPart::BackFoot => Some(
                JointSpec {
                    anchor1: Vec3Fx { x: 0, y: -self.leg_length, z: 0 },
                    anchor2: Vec3Fx { x: 0, y: 0, z: 0 },
                    ang_x: AxisSpec::free(),
                    ang_y: AxisSpec::locked(),
                    ang_z: AxisSpec::locked(),
                },
            ),
            PitcherBodyPart::BackHip => Some(
                JointSpec {
                    anchor1: Vec3Fx { x: 0, y: -DISTANCE_CORE_HIP, z: 0 },
                    anchor2: Vec3Fx { x: 0, y: 0, z: 0 },
                    ang_x: AxisSpec::free(),
                    ang_y: AxisSpec::locked(),
                    ang_z: AxisSpec::locked(),
                },
            ),
            _ => None,
        }
    }

    /// The new joint of `part` on the foot-contact transition, if that
    /// entry exists in the table.
    pub fn on_foot_contact(&self, part: PitcherBodyPart) -> (r: Option<JointSpec>)
        requires
            self.wf(),
        ensures
            view_opt_joint(r) == spec_on_foot_contact(*self, part),
    {
        let tgt: i64 = self.ang_z_target();
        match part {
            PitcherBodyPart::Pelvis => {
                let y_range: (i64, i64) = match self.pitching_arm {
                    PitchingArm::Left => (-100, HALF_PI_MILLI),
                    PitchingArm::Right => (-HALF_PI_MILLI, 100),
                };
                let z_range: (i64, i64) = match self.pitching_arm {
                    PitchingArm::Left => (0, tgt),
                    PitchingArm::Right => (tgt, 0),
                };
                Some(
                    JointSpec {
                        anchor1: Vec3Fx { x: 0, y: self.waist_length, z: 0 },
                        anchor2: Vec3Fx { x: 0, y: 0, z: 0 },
                        ang_x: AxisSpec::locked(),
                        ang_y: AxisSpec {
                            limits: Some(y_range),
                            motor: Some(
                                Motor {
                                    target: self.ang_y_motor_target(),
                                    stiffness: 1_000_000,
                                    damping: 1000,
                                },
                            ),
                        },
                        ang_z: AxisSpec { limits: Some(z_range), motor: None },
                    },
                )
            },
            PitcherBodyPart::Torso => {
                let y_range: (i64, i64) = match self.pitching_arm {
                    PitchingArm::Left => (-SIXTH_PI_MILLI, 1000),
                    PitchingArm::Right => (-1000, SIXTH_PI_MILLI),
                };
                Some(
                    JointSpec {
                        anchor1: Vec3Fx { x: 0, y: self.chest_length, z: 0 },
                        anchor2: Vec3Fx { x: 0, y: 0, z: 0 },
                        ang_x: AxisSpec { limits: Some((-100, 100)), motor: None },
                        ang_y: AxisSpec {
                            limits: Some(y_range),
                            motor: Some(Motor { target: 0, stiffness: 1_000_000, damping: 100 }),
                        },
                        ang_z: AxisSpec::locked(),
                    },
                )
            },
            _ => None,
        }
    }

    /// The new joint of `part` on the maximum-external-rotation (pelvic
    /// break) transition, if that entry exists in the table.
    pub fn on_max_er(&self, part: PitcherBodyPart) -> (r: Option<JointSpec>)
        requires
            self.wf(),
        ensures
            view_opt_joint(r) == spec_on_max_er(*self, part),
    {
        let tgt: i64 = self.ang_z_target();
        match part {
            PitcherBodyPart::Pelvis => {
                let y_range: (i64, i64) = match self.pitching_arm {
                    PitchingArm::Left => (-100, 1000),
                    PitchingArm::Right => (-1000, 100),
                };
                let z_range: (i64, i64) = match self.pitching_arm {
                    PitchingArm::Left => (0, tgt),
                    PitchingArm::Right => (tgt, 0),
                };
                Some(
                    JointSpec {
                        anchor1: Vec3Fx { x: 0, y: self.waist_length, z: 0 },
                        anchor2: Vec3Fx { x: 0, y: 0, z: 0 },
                        ang_x: AxisSpec { limits: Some((0, QUARTER_PI_MILLI)), motor: None },
                        ang_y: AxisSpec {
                            limits: Some(y_range),
                            motor: Some(
                                Motor {
                                    target: self.ang_y_motor_target(),
                                    stiffness: 800_000,
                                    damping: 1000,
                                },
                            ),
                        },
                        ang_z: AxisSpec {
                            limits: Some(z_range),
                            motor: Some(Motor { target: tgt, stiffness: 800_000, damping: 1000 }),
                        },
                    },
                )
            },
            _ => None,
        }
    }

    /// The new joint of `part` on the maximum-internal-rotation
    /// transition, if that entry exists in the table.
    pub fn on_max_ir(&self, part: PitcherBodyPart) -> (r: Option<JointSpec>)
        requires
            self.wf(),
        ensures
            view_opt_joint(r) == spec_on_max_ir(*self, part),
    {
        let tgt: i64 = self.ang_z_target();
        match part {
            PitcherBodyPart::Pelvis => {
                let y_range: (i64, i64) = match self.pitching_arm {
                    PitchingArm::Left => (-100, 1000),
                    PitchingArm::Right => (-1000, 100),
                };
                let z_range: (i64, i64) = match self.pitching_arm {
                    PitchingArm::Left => (tgt - 200, tgt),
                    PitchingArm::Right => (tgt, tgt + 200),
                };
                Some(
                    JointSpec {
                        anchor1: Vec3Fx { x: 0, y: self.waist_length, z: 0 },
                        anchor2: Vec3Fx { x: 0, y: 0, z: 0 },
                        ang_x: AxisSpec { limits: Some((0, QUARTER_PI_MILLI)), motor: None },
                        ang_y: AxisSpec {
                            limits: Some(y_range),
                            motor: Some(
                                Motor {
                                    target: self.ang_y_motor_target(),
                                    stiffness: 800_000,
                                    damping: 1000,
                                },
                            ),
                        },
                        ang_z: AxisSpec { limits: Some(z_range), motor: None },
                    },
                )
            },
            PitcherBodyPart::Torso => {
                let y_range: (i64, i64) = match self.pitching_arm {
                    PitchingArm::Left => (-SIXTH_PI_MILLI, 100),
                    PitchingArm::Right => (-100, SIXTH_PI_MILLI),
                };
                Some(
                    JointSpec {
                        anchor1: Vec3Fx { x: 0, y: self.chest_length, z: 0 },
                        anchor2: Vec3Fx { x: 0, y: 0, z: 0 },
                        ang_x: AxisSpec { limits: Some((-100, 100)), motor: None },
                        ang_y: AxisSpec { limits: Some(y_range), motor: None },
                        ang_z: AxisSpec::locked(),
                    },
                )
            },
            PitcherBodyPart::Shoulder => {
                let off: i64 = match self.pitching_arm {
                    PitchingArm::Left => DISTANCE_CHEST_SHOULDER,
                    PitchingArm::Right => -DISTANCE_CHEST_SHOULDER,
                };
                Some(
                    JointSpec {
                        anchor1: Vec3Fx { x: off, y: 0, z: 0 },
                        anchor2: Vec3Fx { x: 0, y: 0, z: 0 },
                        ang_x: AxisSpec::locked(),
                        ang_y: AxisSpec::free(),
                        ang_z: AxisSpec::locked(),
                    },
                )
            },
            _ => None,
        }
    }
}

/// Mirrored pitching arm: two rigs that differ only in the throwing arm
/// have, for every body part and every transition, joint tables that are
/// exact lateral mirrors of each other: sideways anchors and the
/// sign-dependent vertical and lateral axes negate, and the
/// arm-independent forward-tilt axis coincides.
pub proof fn lemma_mirrored_pitching_arm(l: PitcherParams, r: PitcherParams, part: PitcherBodyPart)
    requires
        l.wf(),
        r.wf(),
        l.pitching_arm == PitchingArm::Left,
        r.pitching_arm == PitchingArm::Right,
        l.lateral_trunk_tilt == r.lateral_trunk_tilt,
        l.leg_length == r.leg_length,
        l.chest_length == r.chest_length,
        l.waist_length == r.waist_length,
        l.upper_arm_length == r.upper_arm_length,
        l.forearm_length == r.forearm_length,
    ensures
        spec_on_knee_up(r, part) == mirror_opt_joint(spec_on_knee_up(l, part)),
        spec_on_foot_contact(r, part) == mirror_opt_joint(spec_on_foot_contact(l, part)),
        spec_on_max_er(r, part) == mirror_opt_joint(spec_on_max_er(l, part)),
        spec_on_max_ir(r, part) == mirror_opt_joint(spec_on_max_ir(l, part)),
{
    assert(spec_ang_z_target(l) == 1 * (HALF_PI_MILLI - l.lateral_trunk_tilt));
    assert(spec_ang_z_target(r) == (-1) * (HALF_PI_MILLI - l.lateral_trunk_tilt));
    assert(spec_ang_z_target(r) == -spec_ang_z_target(l));
}

} // verus!
