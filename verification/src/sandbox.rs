//! A reduced sandbox rig: a four-segment chain (pelvis, torso, shoulder,
//! elbow) driven directly from the keyboard, used to tune the joint
//! tables by hand. Its two handlers reshape the chain at foot contact and
//! at the pelvic break with fixed, arm-independent values.

use vstd::prelude::*;

verus! {

use crate::joint::{view_opt_joint, AxisSpec, JointSpec, JointSpecMath, Motor};
use crate::math::{HALF_PI_MILLI, QUARTER_PI_MILLI};
use crate::policy::{axis_driven, axis_free, axis_limited, axis_locked, anchors};
use crate::vec::Vec3Fx;

/// The segments of the sandbox chain.
#[derive(Debug, Clone, Copy, PartialEq, Eq, Structural)]
pub enum BodyPartMarker {
    Pelvis,
    Torso,
    Shoulder,
    Elbow,
}

/// The sandbox's foot-contact table: the pelvis opens its vertical axis
/// a hair past a quarter turn, the torso leans toward a quarter-pi
/// lateral target, and the shoulder swings its forward axis under a
/// motor.
pub open spec fn spec_sandbox_max_er(part: BodyPartMarker) -> Option<JointSpecMath> {
    match part {
        BodyPartMarker::Pelvis => {
            let a = anchors(0, 10_000, 0);
            Some(
                JointSpecMath {
                    anchor1: a.0,
                    anchor2: a.1,
                    ang_x: axis_locked(),
                    ang_y: axis_limited(-10, HALF_PI_MILLI + 10),
                    ang_z: axis_locked(),
                },
            )
        },
        BodyPartMarker::Torso => {
            let a = anchors(0, 6000, 0);
            Some(
                JointSpecMath {
                    anchor1: a.0,
                    anchor2: a.1,
                    ang_x: axis_locked(),
                    ang_y: axis_limited(-100, 100),
                    ang_z: axis_driven(0, QUARTER_PI_MILLI as int, QUARTER_PI_MILLI as int, 1000, 10),
                },
            )
        },
        BodyPartMarker::Shoulder => {
            let a = anchors(8000, 0, 0);
            Some(
                JointSpecMath {
                    anchor1: a.0,
                    anchor2: a.1,
                    ang_x: crate::joint::AxisMath {
                        limits: None,
                        motor: Some(
                            crate::joint::MotorMath {
                                target: -HALF_PI_MILLI as int,
                                stiffness: 900,
                                damping: 100,
                            },
                        ),
                    },
                    ang_y: axis_locked(),
                    ang_z: axis_locked(),
                },
            )
        },
        BodyPartMarker::Elbow => None,
    }
}

/// The sandbox's pelvic-break table: the pelvis pinches back to the rest
/// pose, the torso keeps its lateral lean, and the elbow and shoulder
/// unfold under motors toward the release posture.
pub open spec fn spec_sandbox_release(part: BodyPartMarker) -> Option<JointSpecMath> {
    match part {
        BodyPartMarker::Pelvis => {
            let a = anchors(0, 10_000, 0);
            Some(
                JointSpecMath {
                    anchor1: a.0,
                    anchor2: a.1,
                    ang_x: axis_locked(),
                    ang_y: axis_limited(-10, 10),
                    ang_z: axis_locked(),
                },
            )
        },
        BodyPartMarker::Torso => {
            let a = anchors(0, 6000, 0);
            Some(
                JointSpecMath {
                    anchor1: a.0,
                    anchor2: a.1,
                    ang_x: axis_locked(),
                    ang_y: axis_limited(-QUARTER_PI_MILLI - 10, HALF_PI_MILLI + 10),
                    ang_z: axis_driven(0, QUARTER_PI_MILLI as int, QUARTER_PI_MILLI as int, 1000, 10),
                },
            )
        },
        BodyPartMarker::Elbow => {
            let a = anchors(8000, 0, 0);
            Some(
                JointSpecMath {
                    anchor1: a.0,
                    anchor2: a.1,
                    ang_x: axis_locked(),
                    ang_y: axis_driven(-10, HALF_PI_MILLI + 10, 0, 900, 100),
                    ang_z: axis_driven(-10, HALF_PI_MILLI + 10, 0, 900, 100),
                },
            )
        },
        BodyPartMarker::Shoulder => {
            let a = anchors(8000, 0, 0);
            Some(
                JointSpecMath {
                    anchor1: a.0,
                    anchor2: a.1,
                    ang_x: crate::joint::AxisMath {
                        limits: None,
                        motor: Some(crate::joint::MotorMath { target: 0, stiffness: 900, damping: 100 }),
                    },
                    ang_y: axis_locked(),
                    ang_z: axis_locked(),
                },
            )
        },
    }
}

/// The sandbox foot-contact handler's new joint for one segment.
pub fn max_er(part: BodyPartMarker) -> (r: Option<JointSpec>)
    ensures
        view_opt_joint(r) == spec_sandbox_max_er(part),
{
    match part {
        BodyPartMarker::Pelvis => Some(
            JointSpec {
                anchor1: Vec3Fx { x: 0, y: 10_000, z: 0 },
                anchor2: Vec3Fx { x: 0, y: 0, z: 0 },
                ang_x: AxisSpec::locked(),
                ang_y: AxisSpec { limits: Some((-10, HALF_PI_MILLI + 10)), motor: None },
                ang_z: AxisSpec::locked(),
            },
        ),
        BodyPartMarker::Torso => Some(
            JointSpec {
                anchor1: Vec3Fx { x: 0, y: 6000, z: 0 },
                anchor2: Vec3Fx { x: 0, y: 0, z: 0 },
                ang_x: AxisSpec::locked(),
                ang_y: AxisSpec { limits: Some((-100, 100)), motor: None },
                ang_z: AxisSpec {
                    limits: Some((0, QUARTER_PI_MILLI)),
                    motor: Some(Motor { target: QUARTER_PI_MILLI, stiffness: 1000, damping: 10 }),
                },
            },
        ),
        BodyPartMarker::Shoulder => Some(
            JointSpec {
                anchor1: Vec3Fx { x: 8000, y: 0, z: 0 },
                anchor2: Vec3Fx { x: 0, y: 0, z: 0 },
                ang_x: AxisSpec {
                    limits: None,
                    motor: Some(Motor { target: -HALF_PI_MILLI, stiffness: 900, damping: 100 }),
                },
                ang_y: AxisSpec::locked(),
                ang_z: AxisSpec::locked(),
            },
        ),
        BodyPartMarker::Elbow => None,
    }
}

/// The sandbox pelvic-break handler's new joint for one segment.
pub fn release(part: BodyPartMarker) -> (r: Option<JointSpec>)
    ensures
        view_opt_joint(r) == spec_sandbox_release(part),
{
    match part {
        BodyPartMarker::Pelvis => Some(
            JointSpec {
                anchor1: Vec3Fx { x: 0, y: 10_000, z: 0 },
                anchor2: Vec3Fx { x: 0, y: 0, z: 0 },
                ang_x: AxisSpec::locked(),
                ang_y: AxisSpec { limits: Some((-10, 10)), motor: None },
                ang_z: AxisSpec::locked(),
            },
        ),
        BodyPartMarker::Torso => Some(
            JointSpec {
                anchor1: Vec3Fx { x: 0, y: 6000, z: 0 },
                anchor2: Vec3Fx { x: 0, y: 0, z: 0 },
                ang_x: AxisSpec::locked(),
                ang_y: AxisSpec {
                    limits: Some((-QUARTER_PI_MILLI - 10, HALF_PI_MILLI + 10)),
                    motor: None,
                },
                ang_z: AxisSpec {
                    limits: Some((0, QUARTER_PI_MILLI)),
                    motor: Some(Motor { target: QUARTER_PI_MILLI, stiffness: 1000, damping: 10 }),
                },
            },
        ),
        BodyPartMarker::Elbow => Some(
            JointSpec {
                anchor1: Vec3Fx { x: 8000, y: 0, z: 0 },
                anchor2: Vec3Fx { x: 0, y: 0, z: 0 },
                ang_x: AxisSpec::locked(),
                ang_y: AxisSpec {
                    limits: Some((-10, HALF_PI_MILLI + 10)),
                    motor: Some(Motor { target: 0, stiffness: 900, damping: 100 }),
                },
                ang_z: AxisSpec {
                    limits: Some((-10, HALF_PI_MILLI + 10)),
                    motor: Some(Motor { target: 0, stiffness: 900, damping: 100 }),
                },
            },
        ),
        BodyPartMarker::Shoulder => Some(
            JointSpec {
                anchor1: Vec3Fx { x: 8000, y: 0, z: 0 },
                anchor2: Vec3Fx { x: 0, y: 0, z: 0 },
                ang_x: AxisSpec {
                    limits: None,
                    motor: Some(Motor { target: 0, stiffness: 900, damping: 100 }),
                },
                ang_y: AxisSpec::locked(),
                ang_z: AxisSpec::locked(),
            },
        ),
    }
}

} // verus!
