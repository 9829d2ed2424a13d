//! The rig builder: from a parameter set it lays out the articulated
//! chain — the balance weight, the core suspended from it, the drive-leg
//! pair, and the throwing-side chain pelvis, torso, shoulder, elbow,
//! wrist and ball — computing each segment's spawn position, its body
//! definition and the initial joint that locks it to its parent.
//!
//! The caller spawns the bodies in the physics engine, records the
//! handles it was given on the rig, and starts the delivery at wind-up.

use vstd::prelude::*;

verus! {

use crate::joint::{
    mirror_opt_joint,
    AxisMath,
    AxisSpec,
    JointDef,
    JointSpec,
    JointSpecMath,
    Vec3Math,
};
use crate::math::HALF_PI_MILLI;
use crate::pitch::PitchingArm;
use crate::rig::{
    PitcherBodyPart,
    PitcherParams,
    PitcherRig,
    PitchStage,
    DISTANCE_CHEST_SHOULDER,
    DISTANCE_CORE_HIP,
};
use crate::vec::Vec3Fx;

/// How the engine integrates a body.
#[derive(Debug, Clone, Copy, PartialEq, Eq, Structural)]
pub enum BodyType {
    Dynamic,
    KinematicVelocityBased,
    Fixed,
}

/// A collider shape in position units.
#[derive(Debug, Clone, Copy, PartialEq, Eq)]
pub enum ColliderShape {
    /// Half extents of a box.
    Cuboid(Vec3Fx),
    /// Radius of a sphere.
    Sphere(i64),
}

/// A rigid body to spawn: its integration kind, collider and density.
#[derive(Debug, Clone, Copy, PartialEq, Eq)]
pub struct BodyDef {
    pub body_type: BodyType,
    pub collider: ColliderShape,
    pub density: i64,
}

/// One segment to spawn: its world position, its yaw about the vertical
/// axis in milliradians, its body, and the joint to its parent (absent
/// for the balance weight, which anchors the chain).
#[derive(Debug, Clone, Copy, PartialEq, Eq)]
pub struct SegmentPlan {
    pub position: Vec3Fx,
    pub yaw: i64,
    pub body: BodyDef,
    pub joint: Option<JointDef>,
}

/// The whole rig laid out, in spawn order. Parents come before children:
/// the core hangs from the balance weight, the back hip from the core,
/// the back foot from the back hip, the pelvis from the core, then each
/// arm segment from the one before it, and the ball from the wrist. The
/// pelvic-break sensor volume is a child of the core at the given local
/// offset.
#[derive(Debug, Clone, Copy, PartialEq, Eq)]
pub struct RigPlan {
    pub balance_weight: SegmentPlan,
    pub core: SegmentPlan,
    pub back_hip: SegmentPlan,
    pub back_foot: SegmentPlan,
    pub pelvic_break_offset: Vec3Fx,
    pub pelvis: SegmentPlan,
    pub torso: SegmentPlan,
    pub shoulder: SegmentPlan,
    pub elbow: SegmentPlan,
    pub wrist: SegmentPlan,
    pub ball: SegmentPlan,
}

/// A fully locked angular axis triple.
pub open spec fn spec_all_locked(anchor1: Vec3Math) -> JointSpecMath {
    JointSpecMath {
        anchor1,
        anchor2: Vec3Math { x: 0, y: 0, z: 0 },
        ang_x: AxisMath { limits: Some((0int, 0int)), motor: None },
        ang_y: AxisMath { limits: Some((0int, 0int)), motor: None },
        ang_z: AxisMath { limits: Some((0int, 0int)), motor: None },
    }
}

/// The initial joint of each segment: every axis is locked at the rest
/// pose, except the pelvis, whose vertical axis is pinned a quarter turn
/// toward the throwing side. The core's sliding constraint and the
/// ball's grab are not in this table.
pub open spec fn spec_initial_joint(p: PitcherParams, part: PitcherBodyPart) -> Option<
    JointSpecMath,
> {
    let sign = p.pitching_arm.spec_sign();
    match part {
        PitcherBodyPart::BackHip => Some(
            spec_all_locked(Vec3Math { x: 0, y: -DISTANCE_CORE_HIP as int, z: 0 }),
        ),
        PitcherBodyPart::BackFoot => Some(
            spec_all_locked(Vec3Math { x: 0, y: -p.leg_length as int, z: 0 }),
        ),
        PitcherBodyPart::Pelvis => Some(
            JointSpecMath {
                ang_y: AxisMath {
                    limits: Some((sign * HALF_PI_MILLI, sign * HALF_PI_MILLI)),
                    motor: None,
                },
                ..spec_all_locked(Vec3Math { x: 0, y: p.waist_length as int, z: 0 })
            },
        ),
        PitcherBodyPart::Torso => Some(
            spec_all_locked(Vec3Math { x: 0, y: p.chest_length as int, z: 0 }),
        ),
        PitcherBodyPart::Shoulder => Some(
            spec_all_locked(Vec3Math { x: sign * DISTANCE_CHEST_SHOULDER, y: 0, z: 0 }),
        ),
        PitcherBodyPart::Elbow => Some(
            spec_all_locked(Vec3Math { x: sign * p.upper_arm_length, y: 0, z: 0 }),
        ),
        PitcherBodyPart::Wrist => Some(
            spec_all_locked(Vec3Math { x: sign * p.forearm_length, y: 0, z: 0 }),
        ),
        _ => None,
    }
}

/// A small cube collider, the default for chain links.
fn small_cube() -> (r: ColliderShape)
    ensures
        r == ColliderShape::Cuboid(Vec3Fx { x: 500, y: 500, z: 500 }),
{
    ColliderShape::Cuboid(Vec3Fx { x: 500, y: 500, z: 500 })
}

/// A generic joint with every axis locked at the rest pose.
fn all_locked(anchor1: Vec3Fx) -> (r: JointSpec)
    ensures
        r@ == spec_all_locked(anchor1@),
{
    JointSpec {
        anchor1,
        anchor2: Vec3Fx { x: 0, y: 0, z: 0 },
        ang_x: AxisSpec::locked(),
        ang_y: AxisSpec::locked(),
        ang_z: AxisSpec::locked(),
    }
}

impl PitcherParams {
    /// The balance weight: a broad, heavy platter the core hangs from.
    pub fn build_balance_weight(&self, position: Vec3Fx, yaw: i64) -> (r: SegmentPlan)
        ensures
            r.position == position,
            r.yaw == yaw,
            r.body == (BodyDef {
                body_type: BodyType::Dynamic,
                collider: ColliderShape::Cuboid(Vec3Fx { x: 5000, y: 500, z: 5000 }),
                density: 10_000,
            }),
            r.joint is None,
    {
        SegmentPlan {
            position,
            yaw,
            body: BodyDef {
                body_type: BodyType::Dynamic,
                collider: ColliderShape::Cuboid(Vec3Fx { x: 5000, y: 500, z: 5000 }),
                density: 10_000,
            },
            joint: None,
        }
    }

    /// The core anchor, suspended from the balance weight by a vertical
    /// sliding constraint.
    pub fn build_core(&self, position: Vec3Fx, yaw: i64) -> (r: SegmentPlan)
        ensures
            r.position == position,
            r.yaw == yaw,
            r.body == (BodyDef {
                body_type: BodyType::Dynamic,
                collider: ColliderShape::Cuboid(Vec3Fx { x: 500, y: 500, z: 500 }),
                density: 100_000,
            }),
            r.joint == Some(JointDef::PrismaticY),
    {
        SegmentPlan {
            position,
            yaw,
            body: BodyDef {
                body_type: BodyType::Dynamic,
                collider: small_cube(),
                density: 100_000,
            },
            joint: Some(JointDef::PrismaticY),
        }
    }

    /// The back hip, locked below the core.
    pub fn build_back_hip(&self, position: Vec3Fx, yaw: i64) -> (r: SegmentPlan)
        requires
            self.wf(),
        ensures
            r.position == position,
            r.yaw == yaw,
            r.body == (BodyDef {
                body_type: BodyType::Dynamic,
                collider: ColliderShape::Cuboid(Vec3Fx { x: 500, y: 500, z: 500 }),
                density: 1000,
            }),
            r.joint matches Some(JointDef::Generic(j)) && j@ == spec_initial_joint(
                *self,
                PitcherBodyPart::BackHip,
            ).unwrap(),
    {
        SegmentPlan {
            position,
            yaw,
            body: BodyDef { body_type: BodyType::Dynamic, collider: small_cube(), density: 1000 },
            joint: Some(JointDef::Generic(all_locked(Vec3Fx { x: 0, y: -DISTANCE_CORE_HIP, z: 0 }))),
        }
    }

    /// The back foot anchor, a velocity-kinematic body a leg's length
    /// below the hip.
    pub fn build_back_ankle(&self, position: Vec3Fx, yaw: i64) -> (r: SegmentPlan)
        requires
            self.wf(),
        ensures
            r.position == position,
            r.yaw == yaw,
            r.body == (BodyDef {
                body_type: BodyType::KinematicVelocityBased,
                collider: ColliderShape::Cuboid(Vec3Fx { x: 500, y: 500, z: 500 }),
                density: 10_000,
            }),
            r.joint matches Some(JointDef::Generic(j)) && j@ == spec_initial_joint(
                *self,
                PitcherBodyPart::BackFoot,
            ).unwrap(),
    {
        SegmentPlan {
            position,
            yaw,
            body: BodyDef {
                body_type: BodyType::KinematicVelocityBased,
                collider: small_cube(),
                density: 10_000,
            },
            joint: Some(JointDef::Generic(all_locked(Vec3Fx { x: 0, y: -self.leg_length, z: 0 }))),
        }
    }

    /// The pelvis, above the core, its vertical axis pinned a quarter
    /// turn toward the throwing side.
    pub fn build_pelvis(&self, position: Vec3Fx, yaw: i64) -> (r: SegmentPlan)
        requires
            self.wf(),
        ensures
            r.position == position,
            r.yaw == yaw,
            r.body == (BodyDef {
                body_type: BodyType::Dynamic,
                collider: ColliderShape::Cuboid(Vec3Fx { x: 1500, y: 500, z: 500 }),
                density: 1000,
            }),
            r.joint matches Some(JointDef::Generic(j)) && j@ == spec_initial_joint(
                *self,
                PitcherBodyPart::Pelvis,
            ).unwrap(),
    {
        let pin: i64 = match self.pitching_arm {
            PitchingArm::Left => HALF_PI_MILLI,
            PitchingArm::Right => -HALF_PI_MILLI,
        };
        SegmentPlan {
            position,
            yaw,
            body: BodyDef {
                body_type: BodyType::Dynamic,
                collider: ColliderShape::Cuboid(Vec3Fx { x: 1500, y: 500, z: 500 }),
                density: 1000,
            },
            joint: Some(
                JointDef::Generic(
                    JointSpec {
                        anchor1: Vec3Fx { x: 0, y: self.waist_length, z: 0 },
                        anchor2: Vec3Fx { x: 0, y: 0, z: 0 },
                        ang_x: AxisSpec::locked(),
                        ang_y: AxisSpec { limits: Some((pin, pin)), motor: None },
                        ang_z: AxisSpec::locked(),
                    },
                ),
            ),
        }
    }

    /// The upper torso, locked above the pelvis.
    pub fn build_upper_torso(&self, position: Vec3Fx, yaw: i64) -> (r: SegmentPlan)
        requires
            self.wf(),
        ensures
            r.position == position,
            r.yaw == yaw,
            r.body == (BodyDef {
                body_type: BodyType::Dynamic,
                collider: ColliderShape::Cuboid(Vec3Fx { x: 3000, y: 500, z: 500 }),
                density: 1000,
            }),
            r.joint matches Some(JointDef::Generic(j)) && j@ == spec_initial_joint(
                *self,
                PitcherBodyPart::Torso,
            ).unwrap(),
    {
        SegmentPlan {
            position,
            yaw,
            body: BodyDef {
                body_type: BodyType::Dynamic,
                collider: ColliderShape::Cuboid(Vec3Fx { x: 3000, y: 500, z: 500 }),
                density: 1000,
            },
            joint: Some(
                JointDef::Generic(all_locked(Vec3Fx { x: 0, y: self.chest_length, z: 0 })),
            ),
        }
    }

    /// The shoulder, locked at its lateral offset from the chest.
    pub fn build_shoulder(&self, position: Vec3Fx, yaw: i64) -> (r: SegmentPlan)
        requires
            self.wf(),
        ensures
            r.position == position,
            r.yaw == yaw,
            r.body == (BodyDef {
                body_type: BodyType::Dynamic,
                collider: ColliderShape::Cuboid(Vec3Fx { x: 500, y: 500, z: 500 }),
                density: 1000,
            }),
            r.joint matches Some(JointDef::Generic(j)) && j@ == spec_initial_joint(
                *self,
                PitcherBodyPart::Shoulder,
            ).unwrap(),
    {
        let off: i64 = match self.pitching_arm {
            PitchingArm::Left => DISTANCE_CHEST_SHOULDER,
            PitchingArm::Right => -DISTANCE_CHEST_SHOULDER,
        };
        SegmentPlan {
            position,
            yaw,
            body: BodyDef { body_type: BodyType::Dynamic, collider: small_cube(), density: 1000 },
            joint: Some(JointDef::Generic(all_locked(Vec3Fx { x: off, y: 0, z: 0 }))),
        }
    }

    /// The elbow, locked an upper arm's length out from the shoulder.
    pub fn build_elbow(&self, position: Vec3Fx, yaw: i64) -> (r: SegmentPlan)
        requires
            self.wf(),
        ensures
            r.position == position,
            r.yaw == yaw,
            r.body == (BodyDef {
                body_type: BodyType::Dynamic,
                collider: ColliderShape::Cuboid(Vec3Fx { x: 500, y: 500, z: 500 }),
                density: 1000,
            }),
            r.joint matches Some(JointDef::Generic(j)) && j@ == spec_initial_joint(
                *self,
                PitcherBodyPart::Elbow,
            ).unwrap(),
    {
        let off: i64 = match self.pitching_arm {
            PitchingArm::Left => self.upper_arm_length,
            PitchingArm::Right => -self.upper_arm_length,
        };
        SegmentPlan {
            position,
            yaw,
            body: BodyDef { body_type: BodyType::Dynamic, collider: small_cube(), density: 1000 },
            joint: Some(JointDef::Generic(all_locked(Vec3Fx { x: off, y: 0, z: 0 }))),
        }
    }

    /// The wrist, locked a forearm's length out from the elbow.
    pub fn build_wrist(&self, position: Vec3Fx, yaw: i64) -> (r: SegmentPlan)
        requires
            self.wf(),
        ensures
            r.position == position,
            r.yaw == yaw,
            r.body == (BodyDef {
                body_type: BodyType::Dynamic,
                collider: ColliderShape::Cuboid(Vec3Fx { x: 500, y: 500, z: 500 }),
                density: 1000,
            }),
            r.joint matches Some(JointDef::Generic(j)) && j@ == spec_initial_joint(
                *self,
                PitcherBodyPart::Wrist,
            ).unwrap(),
    {
        let off: i64 = match self.pitching_arm {
            PitchingArm::Left => self.forearm_length,
            PitchingArm::Right => -self.forearm_length,
        };
        SegmentPlan {
            position,
            yaw,
            body: BodyDef { body_type: BodyType::Dynamic, collider: small_cube(), density: 1000 },
            joint: Some(JointDef::Generic(all_locked(Vec3Fx { x: off, y: 0, z: 0 }))),
        }
    }

    /// The ball, grabbed by the wrist a small offset ahead of it.
    pub fn build_ball(&self, position: Vec3Fx, yaw: i64) -> (r: SegmentPlan)
        ensures
            r.position == position,
            r.yaw == yaw,
            r.body == (BodyDef {
                body_type: BodyType::Dynamic,
                collider: ColliderShape::Sphere(370),
                density: 1000,
            }),
            r.joint == Some(
                JointDef::Grab {
                    anchor1: Vec3Fx { x: 0, y: 0, z: 1000 },
                    anchor2: Vec3Fx { x: 0, y: 0, z: 0 },
                },
            ),
    {
        SegmentPlan {
            position,
            yaw,
            body: BodyDef {
                body_type: BodyType::Dynamic,
                collider: ColliderShape::Sphere(370),
                density: 1000,
            },
            joint: Some(
                JointDef::Grab {
                    anchor1: Vec3Fx { x: 0, y: 0, z: 1000 },
                    anchor2: Vec3Fx { x: 0, y: 0, z: 0 },
                },
            ),
        }
    }
}

/// Lays the whole rig out from the parameters: the balance weight at the
/// stride height, the core a hip's distance above the ground over it,
/// the drive leg below, the throwing chain stacked above and out, and
/// the pelvic-break sensor beside the core, offset toward the throwing
/// side. `rotation` is the whole rig's yaw in milliradians; the throwing
/// chain is additionally turned a quarter turn toward the arm side.
pub fn plan_pitcher_mechanics(p: &PitcherParams, rotation: i64) -> (r: RigPlan)
    requires
        p.wf(),
        -100_000_000 <= p.starting_pos.x <= 100_000_000,
        -100_000_000 <= p.starting_pos.y <= 100_000_000,
        -100_000_000 <= p.starting_pos.z <= 100_000_000,
        -10_000 <= rotation <= 10_000,
    ensures
        r.balance_weight.position@ == (Vec3Math {
            x: p.starting_pos.x as int,
            y: p.starting_pos.y + p.leg_length - p.torso_drop,
            z: p.starting_pos.z as int,
        }),
        r.core.position@ == (Vec3Math {
            x: p.starting_pos.x as int,
            y: p.starting_pos.y + p.leg_length + DISTANCE_CORE_HIP - 1000,
            z: p.starting_pos.z as int,
        }),
        r.back_hip.position@ == (Vec3Math {
            x: r.core.position.x as int,
            y: r.core.position.y - DISTANCE_CORE_HIP,
            z: r.core.position.z as int,
        }),
        r.back_foot.position@ == (Vec3Math {
            x: r.back_hip.position.x as int,
            y: r.back_hip.position.y - p.leg_length,
            z: r.back_hip.position.z as int,
        }),
        r.pelvic_break_offset@ == (Vec3Math {
            x: p.pitching_arm.spec_sign() * 1500,
            y: p.waist_length as int,
            z: 0,
        }),
        r.pelvis.position@ == (Vec3Math {
            x: r.core.position.x as int,
            y: r.core.position.y + p.waist_length,
            z: r.core.position.z as int,
        }),
        r.torso.position@ == (Vec3Math {
            x: r.pelvis.position.x as int,
            y: r.pelvis.position.y + p.chest_length,
            z: r.pelvis.position.z as int,
        }),
        r.shoulder.position@ == (Vec3Math {
            x: r.torso.position.x as int,
            y: r.torso.position.y as int,
            z: r.torso.position.z - DISTANCE_CHEST_SHOULDER,
        }),
        r.elbow.position@ == (Vec3Math {
            x: r.shoulder.position.x as int,
            y: r.shoulder.position.y as int,
            z: r.shoulder.position.z - p.upper_arm_length,
        }),
        r.wrist.position@ == (Vec3Math {
            x: r.elbow.position.x as int,
            y: r.elbow.position.y as int,
            z: r.elbow.position.z - p.forearm_length,
        }),
        r.ball.position@ == (Vec3Math {
            x: r.wrist.position.x as int,
            y: r.wrist.position.y as int,
            z: r.wrist.position.z - 500,
        }),
        r.balance_weight.yaw == rotation && r.core.yaw == rotation && r.back_hip.yaw == rotation
            && r.back_foot.yaw == rotation,
        r.pelvis.yaw == p.pitching_arm.spec_sign() * HALF_PI_MILLI,
        r.torso.yaw == r.pelvis.yaw && r.shoulder.yaw == r.pelvis.yaw && r.elbow.yaw
            == r.pelvis.yaw && r.wrist.yaw == r.pelvis.yaw && r.ball.yaw == r.pelvis.yaw,
        r.balance_weight.joint is None,
        r.core.joint == Some(JointDef::PrismaticY),
        r.back_hip.joint matches Some(JointDef::Generic(j)) && j@ == spec_initial_joint(
            *p,
            PitcherBodyPart::BackHip,
        ).unwrap(),
        r.back_foot.joint matches Some(JointDef::Generic(j)) && j@ == spec_initial_joint(
            *p,
            PitcherBodyPart::BackFoot,
        ).unwrap(),
        r.pelvis.joint matches Some(JointDef::Generic(j)) && j@ == spec_initial_joint(
            *p,
            PitcherBodyPart::Pelvis,
        ).unwrap(),
        r.torso.joint matches Some(JointDef::Generic(j)) && j@ == spec_initial_joint(
            *p,
            PitcherBodyPart::Torso,
        ).unwrap(),
        r.shoulder.joint matches Some(JointDef::Generic(j)) && j@ == spec_initial_joint(
            *p,
            PitcherBodyPart::Shoulder,
        ).unwrap(),
        r.elbow.joint matches Some(JointDef::Generic(j)) && j@ == spec_initial_joint(
            *p,
            PitcherBodyPart::Elbow,
        ).unwrap(),
        r.wrist.joint matches Some(JointDef::Generic(j)) && j@ == spec_initial_joint(
            *p,
            PitcherBodyPart::Wrist,
        ).unwrap(),
        r.ball.joint == Some(
            JointDef::Grab {
                anchor1: Vec3Fx { x: 0, y: 0, z: 1000 },
                anchor2: Vec3Fx { x: 0, y: 0, z: 0 },
            },
        ),
        r.balance_weight.body == (BodyDef {
            body_type: BodyType::Dynamic,
            collider: ColliderShape::Cuboid(Vec3Fx { x: 5000, y: 500, z: 5000 }),
            density: 10_000,
        }),
        r.core.body.density == 100_000 && r.core.body.body_type == BodyType::Dynamic,
        r.back_hip.body.density == 1000 && r.back_hip.body.body_type == BodyType::Dynamic,
        r.back_foot.body.density == 10_000 && r.back_foot.body.body_type
            == BodyType::KinematicVelocityBased,
        r.pelvis.body.collider == ColliderShape::Cuboid(Vec3Fx { x: 1500, y: 500, z: 500 }),
        r.torso.body.collider == ColliderShape::Cuboid(Vec3Fx { x: 3000, y: 500, z: 500 }),
        r.shoulder.body.density == 1000 && r.elbow.body.density == 1000 && r.wrist.body.density
            == 1000,
        r.ball.body.collider == ColliderShape::Sphere(370),
{
    let start = p.starting_pos;
    let distance_from_ground: i64 = DISTANCE_CORE_HIP - 1000;
    let arm_yaw: i64 = match p.pitching_arm {
        PitchingArm::Left => HALF_PI_MILLI,
        PitchingArm::Right => -HALF_PI_MILLI,
    };
    let sensor_x: i64 = match p.pitching_arm {
        PitchingArm::Left => 1500,
        PitchingArm::Right => -1500,
    };

    let balance_pos = Vec3Fx {
        x: start.x,
        y: start.y + (p.leg_length - p.torso_drop),
        z: start.z,
    };
    let core_pos = Vec3Fx {
        x: start.x,
        y: start.y + p.leg_length + distance_from_ground,
        z: start.z,
    };
    let back_hip_pos = Vec3Fx { x: core_pos.x, y: core_pos.y - DISTANCE_CORE_HIP, z: core_pos.z };
    let back_foot_pos = Vec3Fx {
        x: back_hip_pos.x,
        y: back_hip_pos.y - p.leg_length,
        z: back_hip_pos.z,
    };
    let pelvis_pos = Vec3Fx { x: core_pos.x, y: core_pos.y + p.waist_length, z: core_pos.z };
    let torso_pos = Vec3Fx { x: pelvis_pos.x, y: pelvis_pos.y + p.chest_length, z: pelvis_pos.z };
    let shoulder_pos = Vec3Fx {
        x: torso_pos.x,
        y: torso_pos.y,
        z: torso_pos.z - DISTANCE_CHEST_SHOULDER,
    };
    let elbow_pos = Vec3Fx {
        x: shoulder_pos.x,
        y: shoulder_pos.y,
        z: shoulder_pos.z - p.upper_arm_length,
    };
    let wrist_pos = Vec3Fx { x: elbow_pos.x, y: elbow_pos.y, z: elbow_pos.z - p.forearm_length };
    let ball_pos = Vec3Fx { x: wrist_pos.x, y: wrist_pos.y, z: wrist_pos.z - 500 };

    RigPlan {
        balance_weight: p.build_balance_weight(balance_pos, rotation),
        core: p.build_core(core_pos, rotation),
        back_hip: p.build_back_hip(back_hip_pos, rotation),
        back_foot: p.build_back_ankle(back_foot_pos, rotation),
        pelvic_break_offset: Vec3Fx { x: sensor_x, y: p.waist_length, z: 0 },
        pelvis: p.build_pelvis(pelvis_pos, arm_yaw),
        torso: p.build_upper_torso(torso_pos, arm_yaw),
        shoulder: p.build_shoulder(shoulder_pos, arm_yaw),
        elbow: p.build_elbow(elbow_pos, arm_yaw),
        wrist: p.build_wrist(wrist_pos, arm_yaw),
        ball: p.build_ball(ball_pos, arm_yaw),
    }
}

/// Where the pitcher's camera target stands when the scene loads: on the
/// rubber, just above the ground.
pub fn spawn_pitcher() -> (r: Vec3Fx)
    ensures
        r == (Vec3Fx { x: 0, y: 1500, z: 184_400 }),
{
    Vec3Fx { x: 0, y: 1500, z: 184_400 }
}

impl PitcherRig {
    /// A freshly built rig: the delivery starts at wind-up.
    pub fn new(entity: u64, params: PitcherParams) -> (r: PitcherRig)
        ensures
            r.entity == entity,
            r.params == params,
            r.stage == PitchStage::WindUp,
    {
        PitcherRig { entity, params, stage: PitchStage::WindUp }
    }
}

/// The initial joints mirror by the pitching arm exactly as the
/// reconfiguration tables do.
pub proof fn lemma_initial_joints_mirrored(
    l: PitcherParams,
    r: PitcherParams,
    part: PitcherBodyPart,
)
    requires
        l.wf(),
        r.wf(),
        l.pitching_arm == PitchingArm::Left,
        r.pitching_arm == PitchingArm::Right,
        l.leg_length == r.leg_length,
        l.chest_length == r.chest_length,
        l.waist_length == r.waist_length,
        l.upper_arm_length == r.upper_arm_length,
        l.forearm_length == r.forearm_length,
    ensures
        spec_initial_joint(r, part) == mirror_opt_joint(spec_initial_joint(l, part)),
{
}

} // verus!
