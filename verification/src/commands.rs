//! The transition handler: consuming one transition event, it produces
//! the full list of engine commands attributable to that edge — the new
//! joint specification of every affected segment the rig actually owns,
//! the phase-specific forces, and, on the terminal transition, the ball
//! release.
//!
//! Segments run in the fixed parent-to-child chain order. A segment the
//! rig does not own is skipped, never a fault; the same holds for the
//! optional balance weight, pelvic-break sensor and ball.
//!
//! Apply the commands of a tick before the physics solver integrates that
//! tick, so that freshly written joints are honoured in the same step:
//! stale joints from the previous phase must never be solved after a
//! transition is recognised.

use vstd::prelude::*;

verus! {

use crate::joint::{JointSpec, JointSpecMath, Vec3Math};
use crate::machine::PitchStageTransitionEvents;
use crate::pitch::{PitchingArm, PitchParams};
use crate::policy::{spec_on_foot_contact, spec_on_knee_up, spec_on_max_er, spec_on_max_ir};
use crate::rig::{PitcherBodyPart, PitcherParams};
use crate::spin::{
    from_baseball_coord_to_world,
    release_velocity,
    spec_release_component,
    spec_spin_x,
    spec_spin_y,
    spec_spin_z,
    spin_vector,
};
use crate::vec::Vec3Fx;

/// One command to the physics engine.
#[derive(Debug, Clone, Copy, PartialEq, Eq)]
pub enum RigCommand {
    /// Replace the joint between this segment and its parent.
    SetJoint { part: PitcherBodyPart, handle: u64, joint: JointSpec },
    /// Apply an external force (milli-newtons) at a point, with the
    /// body's centre given alongside.
    ApplyForce { body: u64, force: Vec3Fx, at_point: Vec3Fx, center: Vec3Fx },
    /// Apply an external impulse (milli-newton-seconds) at a point.
    ApplyImpulse { body: u64, impulse: Vec3Fx, at_point: Vec3Fx, center: Vec3Fx },
    /// Convert a dynamic body to a fixed one (planting the front foot).
    FreezeBody { body: u64 },
    /// Remove the ball's grab joint and set its velocities: linear in
    /// millimetres per second, angular in milliradians per second.
    DetachBall { ball: u64, linear_velocity: Vec3Fx, angular_velocity: Vec3Fx },
    /// Hand the ball over to the aerodynamics collaborator, with the seam
    /// orientation angles in milliradians.
    EmitAerodynamics { ball: u64, seam_y_angle: i64, seam_z_angle: i64 },
}

/// Mathematical view of a command.
pub enum RigCommandMath {
    SetJoint { part: PitcherBodyPart, handle: u64, joint: JointSpecMath },
    ApplyForce { body: u64, force: Vec3Math, at_point: Vec3Math, center: Vec3Math },
    ApplyImpulse { body: u64, impulse: Vec3Math, at_point: Vec3Math, center: Vec3Math },
    FreezeBody { body: u64 },
    DetachBall { ball: u64, linear_velocity: Vec3Math, angular_velocity: Vec3Math },
    EmitAerodynamics { ball: u64, seam_y_angle: int, seam_z_angle: int },
}

impl View for RigCommand {
    type V = RigCommandMath;

    open spec fn view(&self) -> RigCommandMath {
        match *self {
            RigCommand::SetJoint { part, handle, joint } => RigCommandMath::SetJoint {
                part,
                handle,
                joint: joint@,
            },
            RigCommand::ApplyForce { body, force, at_point, center } => RigCommandMath::ApplyForce {
                body,
                force: force@,
                at_point: at_point@,
                center: center@,
            },
            RigCommand::ApplyImpulse { body, impulse, at_point, center } => RigCommandMath::ApplyImpulse {
                body,
                impulse: impulse@,
                at_point: at_point@,
                center: center@,
            },
            RigCommand::FreezeBody { body } => RigCommandMath::FreezeBody { body },
            RigCommand::DetachBall { ball, linear_velocity, angular_velocity } => RigCommandMath::DetachBall {
                ball,
                linear_velocity: linear_velocity@,
                angular_velocity: angular_velocity@,
            },
            RigCommand::EmitAerodynamics { ball, seam_y_angle, seam_z_angle } => RigCommandMath::EmitAerodynamics {
                ball,
                seam_y_angle: seam_y_angle as int,
                seam_z_angle: seam_z_angle as int,
            },
        }
    }
}

/// The views of a command list.
pub open spec fn spec_views(cmds: Seq<RigCommand>) -> Seq<RigCommandMath> {
    cmds.map_values(|c: RigCommand| c@)
}

/// The policy table of the event that fired.
pub open spec fn spec_table(
    p: PitcherParams,
    ev: PitchStageTransitionEvents,
    part: PitcherBodyPart,
) -> Option<JointSpecMath> {
    match ev {
        PitchStageTransitionEvents::KneeUp(_) => spec_on_knee_up(p, part),
        PitchStageTransitionEvents::FootContact(_) => spec_on_foot_contact(p, part),
        PitchStageTransitionEvents::MaxER(_) => spec_on_max_er(p, part),
        PitchStageTransitionEvents::MaxIR(_) => spec_on_max_ir(p, part),
    }
}

/// The joint update of one segment: present only when the rig owns the
/// segment and the table names it.
pub open spec fn spec_update_for(
    p: PitcherParams,
    ev: PitchStageTransitionEvents,
    part: PitcherBodyPart,
) -> Seq<RigCommandMath> {
    match (p.body_parts.spec_get(part), spec_table(p, ev, part)) {
        (Some(h), Some(j)) => seq![RigCommandMath::SetJoint { part, handle: h, joint: j }],
        _ => Seq::empty(),
    }
}

/// All joint updates of an edge, in parent-to-child chain order.
pub open spec fn spec_joint_updates(p: PitcherParams, ev: PitchStageTransitionEvents) -> Seq<
    RigCommandMath,
> {
    spec_update_for(p, ev, PitcherBodyPart::BackFoot) + spec_update_for(
        p,
        ev,
        PitcherBodyPart::BackHip,
    ) + spec_update_for(p, ev, PitcherBodyPart::Core) + spec_update_for(
        p,
        ev,
        PitcherBodyPart::Pelvis,
    ) + spec_update_for(p, ev, PitcherBodyPart::Torso) + spec_update_for(
        p,
        ev,
        PitcherBodyPart::Shoulder,
    ) + spec_update_for(p, ev, PitcherBodyPart::Elbow) + spec_update_for(
        p,
        ev,
        PitcherBodyPart::Wrist,
    )
}

/// The forward drive force on the balance weight at knee up: a large
/// constant times the aim direction, applied at leg height.
pub open spec fn spec_drive_force(p: PitcherParams, body: u64) -> RigCommandMath {
    RigCommandMath::ApplyForce {
        body,
        force: Vec3Math {
            x: p.direction.x * 1000,
            y: p.direction.y * 1000,
            z: p.direction.z * 1000,
        },
        at_point: Vec3Math { x: 0, y: p.leg_length as int, z: 0 },
        center: Vec3Math { x: 0, y: p.leg_length as int, z: 0 },
    }
}

/// The kickstart impulse on the pelvis at foot contact, mirrored by the
/// arm sign.
pub open spec fn spec_kickstart(p: PitcherParams, body: u64) -> RigCommandMath {
    RigCommandMath::ApplyImpulse {
        body,
        impulse: Vec3Math { x: p.pitching_arm.spec_sign() * 10, y: 0, z: 0 },
        at_point: Vec3Math { x: 0, y: 10_000, z: -2000 },
        center: Vec3Math { x: 0, y: 10_000, z: 0 },
    }
}

/// The linear velocity imparted to the ball at release: the rig's aim
/// direction scaled by the pitch speed, unit-converted. It depends on the
/// aim direction and the speed alone.
pub open spec fn spec_release_velocity(direction: Vec3Fx, speed: int) -> Vec3Math {
    Vec3Math {
        x: spec_release_component(direction.x as int, speed),
        y: spec_release_component(direction.y as int, speed),
        z: spec_release_component(direction.z as int, speed),
    }
}

/// The angular velocity imparted to the ball at release: the spin vector
/// of the pitch parameters, remapped to the world frame.
pub open spec fn spec_release_spin(k: PitchParams) -> Vec3Math {
    Vec3Math {
        x: -spec_spin_x(k.spin_rate as int, k.spin_efficiency as int, k.tilt.ticks as int),
        y: spec_spin_z(k.spin_rate as int, k.spin_efficiency as int, k.tilt.ticks as int),
        z: spec_spin_y(k.spin_rate as int, k.spin_efficiency as int, k.gyro_pole),
    }
}

/// Everything one transition edge does, in order: the joint updates of
/// the affected segments, then the edge's extra actions — the drive force
/// at knee up, the kickstart and front-foot plant at foot contact, and
/// the ball release with the aerodynamics hand-off at maximum internal
/// rotation.
pub open spec fn spec_commands(
    p: PitcherParams,
    k: PitchParams,
    ev: PitchStageTransitionEvents,
) -> Seq<RigCommandMath> {
    let base = spec_joint_updates(p, ev);
    match ev {
        PitchStageTransitionEvents::KneeUp(_) => base + (match p.balance_weight {
            Some(b) => seq![spec_drive_force(p, b)],
            None => Seq::empty(),
        }),
        PitchStageTransitionEvents::FootContact(_) => base + (match p.body_parts.spec_get(
            PitcherBodyPart::Pelvis,
        ) {
            Some(h) => seq![spec_kickstart(p, h)],
            None => Seq::empty(),
        }) + (match p.balance_weight {
            Some(b) => seq![RigCommandMath::FreezeBody { body: b }],
            None => Seq::empty(),
        }),
        PitchStageTransitionEvents::MaxER(_) => base,
        PitchStageTransitionEvents::MaxIR(_) => base + (match p.ball {
            Some(b) => seq![
                RigCommandMath::DetachBall {
                    ball: b,
                    linear_velocity: spec_release_velocity(p.direction, k.speed as int),
                    angular_velocity: spec_release_spin(k),
                },
                RigCommandMath::EmitAerodynamics {
                    ball: b,
                    seam_y_angle: k.seam_y_angle as int,
                    seam_z_angle: k.seam_z_angle as int,
                },
            ],
            None => Seq::empty(),
        }),
    }
}

/// Pushes the joint update of one segment, if the rig owns it and the
/// event's table names it.
fn push_update(
    cmds: &mut Vec<RigCommand>,
    p: &PitcherParams,
    ev: &PitchStageTransitionEvents,
    part: PitcherBodyPart,
)
    requires
        p.wf(),
    ensures
        spec_views(final(cmds)@) == spec_views(old(cmds)@) + spec_update_for(*p, *ev, part),
{
    let entry: Option<JointSpec> = match ev {
        PitchStageTransitionEvents::KneeUp(_) => p.on_knee_up(part),
        PitchStageTransitionEvents::FootContact(_) => p.on_foot_contact(part),
        PitchStageTransitionEvents::MaxER(_) => p.on_max_er(part),
        PitchStageTransitionEvents::MaxIR(_) => p.on_max_ir(part),
    };
    match (p.body_parts.get(part), entry) {
        (Some(h), Some(j)) => {
            cmds.push(RigCommand::SetJoint { part, handle: h, joint: j });
            proof {
                assert(spec_views(cmds@) =~= spec_views(old(cmds)@) + spec_update_for(
                    *p,
                    *ev,
                    part,
                ));
            }
        },
        _ => {
            proof {
                assert(spec_views(cmds@) =~= spec_views(old(cmds)@) + spec_update_for(
                    *p,
                    *ev,
                    part,
                ));
            }
        },
    }
}

/// Consumes one transition event and produces every engine command
/// attributable to that edge, as `spec_commands` states: the joint
/// updates of the segments the rig owns, then the edge's extra actions.
/// Missing segments and absent optional handles are skipped.
pub fn on_pitch_stage_transition_event(
    p: &PitcherParams,
    k: &PitchParams,
    ev: &PitchStageTransitionEvents,
) -> (r: Vec<RigCommand>)
    requires
        p.wf(),
        k.wf(),
    ensures
        spec_views(r@) == spec_commands(*p, *k, *ev),
{
    let mut cmds: Vec<RigCommand> = Vec::new();
    proof {
        assert(spec_views(cmds@) =~= Seq::<RigCommandMath>::empty());
    }
    push_update(&mut cmds, p, ev, PitcherBodyPart::BackFoot);
    push_update(&mut cmds, p, ev, PitcherBodyPart::BackHip);
    push_update(&mut cmds, p, ev, PitcherBodyPart::Core);
    push_update(&mut cmds, p, ev, PitcherBodyPart::Pelvis);
    push_update(&mut cmds, p, ev, PitcherBodyPart::Torso);
    push_update(&mut cmds, p, ev, PitcherBodyPart::Shoulder);
    push_update(&mut cmds, p, ev, PitcherBodyPart::Elbow);
    push_update(&mut cmds, p, ev, PitcherBodyPart::Wrist);
    proof {
        assert(spec_views(cmds@) =~= spec_joint_updates(*p, *ev));
    }
    match ev {
        PitchStageTransitionEvents::KneeUp(_) => {
            if let Some(b) = p.balance_weight {
                let force = Vec3Fx {
                    x: p.direction.x * 1000,
                    y: p.direction.y * 1000,
                    z: p.direction.z * 1000,
                };
                let at = Vec3Fx { x: 0, y: p.leg_length, z: 0 };
                cmds.push(
                    RigCommand::ApplyForce { body: b, force, at_point: at, center: at },
                );
            }
        },
        PitchStageTransitionEvents::FootContact(_) => {
            if let Some(h) = p.body_parts.get(PitcherBodyPart::Pelvis) {
                let sign: i64 = p.pitching_arm.sign();
                cmds.push(
                    RigCommand::ApplyImpulse {
                        body: h,
                        impulse: Vec3Fx { x: sign * 10, y: 0, z: 0 },
                        at_point: Vec3Fx { x: 0, y: 10_000, z: -2000 },
                        center: Vec3Fx { x: 0, y: 10_000, z: 0 },
                    },
                );
            }
            if let Some(b) = p.balance_weight {
                cmds.push(RigCommand::FreezeBody { body: b });
            }
        },
        PitchStageTransitionEvents::MaxER(_) => {},
        PitchStageTransitionEvents::MaxIR(_) => {
            if let Some(b) = p.ball {
                let linear_velocity = release_velocity(p.direction, k.speed);
                let spin = spin_vector(k.spin_rate, k.spin_efficiency, k.tilt, k.gyro_pole);
                let angular_velocity = from_baseball_coord_to_world(spin);
                cmds.push(
                    RigCommand::DetachBall { ball: b, linear_velocity, angular_velocity },
                );
                cmds.push(
                    RigCommand::EmitAerodynamics {
                        ball: b,
                        seam_y_angle: k.seam_y_angle,
                        seam_z_angle: k.seam_z_angle,
                    },
                );
            }
        },
    }
    proof {
        assert(spec_views(cmds@) =~= spec_commands(*p, *k, *ev));
    }
    cmds
}

/// Release kinematics: the transition commands of the terminal edge
/// detach the ball with linear velocity equal to the aim direction times
/// the speed, unit-converted — and that velocity depends on no pitch
/// parameter besides the aim direction and the speed.
pub proof fn lemma_release_kinematics(
    p1: PitcherParams,
    k1: PitchParams,
    p2: PitcherParams,
    k2: PitchParams,
    id1: u64,
    id2: u64,
)
    requires
        p1.ball is Some,
        p2.ball is Some,
        p1.direction == p2.direction,
        k1.speed == k2.speed,
    ensures
        ({
            let c1 = spec_commands(p1, k1, PitchStageTransitionEvents::MaxIR(id1));
            c1[c1.len() - 2] matches RigCommandMath::DetachBall { ball, linear_velocity, .. }
                && ball == p1.ball.unwrap() && linear_velocity == spec_release_velocity(
                p1.direction,
                k1.speed as int,
            )
        }),
        ({
            let c1 = spec_commands(p1, k1, PitchStageTransitionEvents::MaxIR(id1));
            let c2 = spec_commands(p2, k2, PitchStageTransitionEvents::MaxIR(id2));
            (c1[c1.len() - 2] matches RigCommandMath::DetachBall { linear_velocity: v1, .. }
                && c2[c2.len() - 2] matches RigCommandMath::DetachBall {
                linear_velocity: v2,
                ..
            } && v1 == v2)
        }),
{
    let b1 = spec_commands(p1, k1, PitchStageTransitionEvents::MaxIR(id1));
    let b2 = spec_commands(p2, k2, PitchStageTransitionEvents::MaxIR(id2));
    assert(b1[b1.len() - 2] is DetachBall);
    assert(b2[b2.len() - 2] is DetachBall);
}

/// A command that releases the ball: the detach itself or the
/// aerodynamics hand-off.
pub open spec fn spec_is_release_command(c: RigCommandMath) -> bool {
    c is DetachBall || c is EmitAerodynamics
}

/// The joint updates of an edge are joint updates and nothing else.
proof fn lemma_joint_updates_are_set_joints(p: PitcherParams, ev: PitchStageTransitionEvents)
    ensures
        forall|i: int|
            0 <= i < spec_joint_updates(p, ev).len() ==> #[trigger] spec_joint_updates(p, ev)[i]
                is SetJoint,
{
}

/// The ball detaches only at maximum internal rotation: no other edge's
/// commands release the ball or notify the aerodynamics collaborator.
pub proof fn lemma_ball_detaches_only_at_max_ir(
    p: PitcherParams,
    k: PitchParams,
    ev: PitchStageTransitionEvents,
)
    requires
        !(ev is MaxIR),
    ensures
        forall|i: int|
            0 <= i < spec_commands(p, k, ev).len() ==> !spec_is_release_command(
                #[trigger] spec_commands(p, k, ev)[i],
            ),
{
    lemma_joint_updates_are_set_joints(p, ev);
}

/// At maximum internal rotation with a gripped ball, the edge's commands
/// end with exactly one release: the detach and then one aerodynamics
/// hand-off carrying the ball handle and the pitch's seam angles.
pub proof fn lemma_single_aerodynamics_emission(p: PitcherParams, k: PitchParams, id: u64)
    requires
        p.ball is Some,
    ensures
        ({
            let c = spec_commands(p, k, PitchStageTransitionEvents::MaxIR(id));
            &&& c.len() >= 2
            &&& (c[c.len() - 1] matches RigCommandMath::EmitAerodynamics {
                ball,
                seam_y_angle,
                seam_z_angle,
            } && ball == p.ball.unwrap() && seam_y_angle == k.seam_y_angle
                && seam_z_angle == k.seam_z_angle)
            &&& c[c.len() - 2] is DetachBall
            &&& forall|i: int|
                0 <= i < c.len() - 2 ==> !spec_is_release_command(#[trigger] c[i])
        }),
{
    lemma_joint_updates_are_set_joints(p, PitchStageTransitionEvents::MaxIR(id));
}

} // verus!
