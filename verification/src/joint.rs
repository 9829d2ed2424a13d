//! Joint specifications: the anchors, per-axis rotation limits and
//! position motors that configure the constraint between a segment and its
//! parent. The linear axes are always locked (the segments are chained
//! rigidly); only the three angular axes vary, so a specification holds
//! exactly those. Motors are force-based position motors.
//!
//! Each executable type has a mathematical view over unbounded integers;
//! the reconfiguration tables are specified over the views.

use vstd::prelude::*;

verus! {

use crate::vec::Vec3Fx;

/// Mathematical view of a fixed-point vector.
pub struct Vec3Math {
    pub x: int,
    pub y: int,
    pub z: int,
}

impl View for Vec3Fx {
    type V = Vec3Math;

    open spec fn view(&self) -> Vec3Math {
        Vec3Math { x: self.x as int, y: self.y as int, z: self.z as int }
    }
}

/// A force-based position motor on one angular axis: the target angle in
/// milliradians, and the per-mille stiffness and damping factors.
#[derive(Debug, Clone, Copy, PartialEq, Eq)]
pub struct Motor {
    pub target: i64,
    pub stiffness: i64,
    pub damping: i64,
}

/// Mathematical view of a motor.
pub struct MotorMath {
    pub target: int,
    pub stiffness: int,
    pub damping: int,
}

impl View for Motor {
    type V = MotorMath;

    open spec fn view(&self) -> MotorMath {
        MotorMath {
            target: self.target as int,
            stiffness: self.stiffness as int,
            damping: self.damping as int,
        }
    }
}

/// One angular axis of a joint: an optional limit range in milliradians
/// (no range leaves the axis free; a zero-width range locks it) and an
/// optional motor.
#[derive(Debug, Clone, Copy, PartialEq, Eq)]
pub struct AxisSpec {
    pub limits: Option<(i64, i64)>,
    pub motor: Option<Motor>,
}

/// Mathematical view of an angular axis.
pub struct AxisMath {
    pub limits: Option<(int, int)>,
    pub motor: Option<MotorMath>,
}

impl View for AxisSpec {
    type V = AxisMath;

    open spec fn view(&self) -> AxisMath {
        AxisMath {
            limits: match self.limits {
                Some((lo, hi)) => Some((lo as int, hi as int)),
                None => None,
            },
            motor: match self.motor {
                Some(m) => Some(m@),
                None => None,
            },
        }
    }
}

impl AxisSpec {
    /// An axis locked at the rest pose: a zero-width limit range.
    pub fn locked() -> (r: AxisSpec)
        ensures
            r@.limits == Some((0int, 0int)),
            r@.motor is None,
    {
        AxisSpec { limits: Some((0, 0)), motor: None }
    }

    /// An axis left free: no limit range and no motor.
    pub fn free() -> (r: AxisSpec)
        ensures
            r@.limits is None,
            r@.motor is None,
    {
        AxisSpec { limits: None, motor: None }
    }
}

/// A full joint specification between a segment and its parent: the local
/// anchor on each body and the three angular axes.
#[derive(Debug, Clone, Copy, PartialEq, Eq)]
pub struct JointSpec {
    pub anchor1: Vec3Fx,
    pub anchor2: Vec3Fx,
    pub ang_x: AxisSpec,
    pub ang_y: AxisSpec,
    pub ang_z: AxisSpec,
}

/// Mathematical view of a joint specification.
pub struct JointSpecMath {
    pub anchor1: Vec3Math,
    pub anchor2: Vec3Math,
    pub ang_x: AxisMath,
    pub ang_y: AxisMath,
    pub ang_z: AxisMath,
}

impl View for JointSpec {
    type V = JointSpecMath;

    open spec fn view(&self) -> JointSpecMath {
        JointSpecMath {
            anchor1: self.anchor1@,
            anchor2: self.anchor2@,
            ang_x: self.ang_x@,
            ang_y: self.ang_y@,
            ang_z: self.ang_z@,
        }
    }
}

/// The view of an optional joint specification.
pub open spec fn view_opt_joint(o: Option<JointSpec>) -> Option<JointSpecMath> {
    match o {
        Some(j) => Some(j@),
        None => None,
    }
}

/// The lateral mirror of an axis: the limit range and the motor target
/// are negated (a range negates end for end), the gains stay.
pub open spec fn mirror_axis(a: AxisMath) -> AxisMath {
    AxisMath {
        limits: match a.limits {
            Some((lo, hi)) => Some((-hi, -lo)),
            None => None,
        },
        motor: match a.motor {
            Some(m) => Some(MotorMath { target: -m.target, stiffness: m.stiffness, damping: m.damping }),
            None => None,
        },
    }
}

/// The lateral mirror of a whole joint specification: anchors flip their
/// x component, the vertical-rotation and lateral-tilt axes mirror, and
/// the forward-tilt axis (x) is arm-independent and stays as it is.
pub open spec fn mirror_joint(j: JointSpecMath) -> JointSpecMath {
    JointSpecMath {
        anchor1: Vec3Math { x: -j.anchor1.x, y: j.anchor1.y, z: j.anchor1.z },
        anchor2: Vec3Math { x: -j.anchor2.x, y: j.anchor2.y, z: j.anchor2.z },
        ang_x: j.ang_x,
        ang_y: mirror_axis(j.ang_y),
        ang_z: mirror_axis(j.ang_z),
    }
}

/// The lateral mirror of an optional joint specification.
pub open spec fn mirror_opt_joint(o: Option<JointSpecMath>) -> Option<JointSpecMath> {
    match o {
        Some(j) => Some(mirror_joint(j)),
        None => None,
    }
}

/// The constraint of a segment to its parent: most joints are the generic
/// angular-limit kind; the core hangs from the balance weight by a
/// vertical sliding constraint, and the ball is grabbed by a fixed joint
/// at the wrist.
#[derive(Debug, Clone, Copy, PartialEq, Eq)]
pub enum JointDef {
    Generic(JointSpec),
    PrismaticY,
    Grab { anchor1: Vec3Fx, anchor2: Vec3Fx },
}

} // verus!
