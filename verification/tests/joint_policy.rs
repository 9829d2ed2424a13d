use bullpen::joint::{AxisSpec, JointDef, JointSpec, Motor};
use bullpen::pitch::PitchingArm;
use bullpen::rig::{PitcherBodyPart, PitcherParams};
use bullpen::sandbox::{max_er, release, BodyPartMarker};
use bullpen::vec::Vec3Fx;

fn left_params() -> PitcherParams {
    PitcherParams {
        pitching_arm: PitchingArm::Left,
        lateral_trunk_tilt: 785,
        ..PitcherParams::default()
    }
}

fn right_params() -> PitcherParams {
    PitcherParams {
        pitching_arm: PitchingArm::Right,
        ..left_params()
    }
}

fn mirrored_limits(a: Option<(i64, i64)>, b: Option<(i64, i64)>) -> bool {
    match (a, b) {
        (Some((lo, hi)), Some((blo, bhi))) => blo == -hi && bhi == -lo,
        (None, None) => true,
        _ => false,
    }
}

fn mirrored_motor(a: Option<Motor>, b: Option<Motor>) -> bool {
    match (a, b) {
        (Some(m), Some(n)) => {
            n.target == -m.target && n.stiffness == m.stiffness && n.damping == m.damping
        },
        (None, None) => true,
        _ => false,
    }
}

fn mirrored_axis(a: AxisSpec, b: AxisSpec) -> bool {
    mirrored_limits(a.limits, b.limits) && mirrored_motor(a.motor, b.motor)
}

fn mirrored_joint(a: &JointSpec, b: &JointSpec) -> bool {
    b.anchor1 == Vec3Fx { x: -a.anchor1.x, y: a.anchor1.y, z: a.anchor1.z }
        && b.anchor2 == Vec3Fx { x: -a.anchor2.x, y: a.anchor2.y, z: a.anchor2.z }
        && b.ang_x == a.ang_x && mirrored_axis(a.ang_y, b.ang_y) && mirrored_axis(
        a.ang_z,
        b.ang_z,
    )
}

#[test]
fn knee_up_frees_the_drive_leg() {
    let p = left_params();
    let foot = p.on_knee_up(PitcherBodyPart::BackFoot).unwrap();
    assert_eq!(foot.anchor1, Vec3Fx { x: 0, y: -10_000, z: 0 });
    assert_eq!(foot.ang_x.limits, None);
    assert_eq!(foot.ang_y.limits, Some((0, 0)));
    assert_eq!(foot.ang_z.limits, Some((0, 0)));
    let hip = p.on_knee_up(PitcherBodyPart::BackHip).unwrap();
    assert_eq!(hip.anchor1, Vec3Fx { x: 0, y: -2000, z: 0 });
    assert!(p.on_knee_up(PitcherBodyPart::Core).is_none());
    assert!(p.on_knee_up(PitcherBodyPart::Pelvis).is_none());
}

#[test]
fn foot_contact_table_entries() {
    let p = left_params();
    let pelvis = p.on_foot_contact(PitcherBodyPart::Pelvis).unwrap();
    assert_eq!(pelvis.anchor1, Vec3Fx { x: 0, y: 2500, z: 0 });
    assert_eq!(pelvis.ang_x.limits, Some((0, 0)));
    assert_eq!(pelvis.ang_y.limits, Some((-100, 1571)));
    assert_eq!(
        pelvis.ang_y.motor,
        Some(Motor { target: 100, stiffness: 1_000_000, damping: 1000 })
    );
    // The lateral range opens up to the tilt target: a quarter-pi tilt
    // leaves 1571 - 785 = 786 milliradians of lean.
    assert_eq!(pelvis.ang_z.limits, Some((0, 786)));
    assert_eq!(pelvis.ang_z.motor, None);

    let torso = p.on_foot_contact(PitcherBodyPart::Torso).unwrap();
    assert_eq!(torso.anchor1, Vec3Fx { x: 0, y: 3750, z: 0 });
    assert_eq!(torso.ang_x.limits, Some((-100, 100)));
    assert_eq!(torso.ang_y.limits, Some((-524, 1000)));
    assert_eq!(torso.ang_y.motor, Some(Motor { target: 0, stiffness: 1_000_000, damping: 100 }));
    assert_eq!(torso.ang_z.limits, Some((0, 0)));

    assert!(p.on_foot_contact(PitcherBodyPart::Shoulder).is_none());
    assert!(p.on_foot_contact(PitcherBodyPart::BackFoot).is_none());
}

#[test]
fn max_er_advances_the_pelvis_motors() {
    let p = left_params();
    let pelvis = p.on_max_er(PitcherBodyPart::Pelvis).unwrap();
    assert_eq!(pelvis.ang_x.limits, Some((0, 785)));
    assert_eq!(pelvis.ang_y.limits, Some((-100, 1000)));
    assert_eq!(
        pelvis.ang_y.motor,
        Some(Motor { target: 100, stiffness: 800_000, damping: 1000 })
    );
    assert_eq!(pelvis.ang_z.limits, Some((0, 786)));
    assert_eq!(pelvis.ang_z.motor, Some(Motor { target: 786, stiffness: 800_000, damping: 1000 }));
    assert!(p.on_max_er(PitcherBodyPart::Torso).is_none());
    assert!(p.on_max_er(PitcherBodyPart::Shoulder).is_none());
}

#[test]
fn max_ir_tightens_to_the_delivery_stance() {
    let p = left_params();
    let pelvis = p.on_max_ir(PitcherBodyPart::Pelvis).unwrap();
    assert_eq!(pelvis.ang_z.limits, Some((586, 786)));
    assert_eq!(pelvis.ang_z.motor, None);
    let torso = p.on_max_ir(PitcherBodyPart::Torso).unwrap();
    assert_eq!(torso.ang_y.limits, Some((-524, 100)));
    assert_eq!(torso.ang_z.limits, Some((0, 0)));
    let shoulder = p.on_max_ir(PitcherBodyPart::Shoulder).unwrap();
    assert_eq!(shoulder.anchor1, Vec3Fx { x: 4000, y: 0, z: 0 });
    assert_eq!(shoulder.ang_x.limits, Some((0, 0)));
    assert_eq!(shoulder.ang_y.limits, None);
    assert_eq!(shoulder.ang_z.limits, Some((0, 0)));
    assert!(p.on_max_ir(PitcherBodyPart::Elbow).is_none());
}

#[test]
fn tables_mirror_between_arms() {
    let l = left_params();
    let r = right_params();
    let parts = [
        PitcherBodyPart::BackFoot,
        PitcherBodyPart::BackHip,
        PitcherBodyPart::Core,
        PitcherBodyPart::Pelvis,
        PitcherBodyPart::Torso,
        PitcherBodyPart::Shoulder,
        PitcherBodyPart::Elbow,
        PitcherBodyPart::Wrist,
    ];
    for part in parts {
        for (a, b) in [
            (l.on_knee_up(part), r.on_knee_up(part)),
            (l.on_foot_contact(part), r.on_foot_contact(part)),
            (l.on_max_er(part), r.on_max_er(part)),
            (l.on_max_ir(part), r.on_max_ir(part)),
        ] {
            match (a, b) {
                (Some(ja), Some(jb)) => {
                    assert!(mirrored_joint(&ja, &jb), "not mirrored at {part:?}")
                },
                (None, None) => {},
                _ => panic!("table entries differ in presence at {part:?}"),
            }
        }
    }
}

#[test]
fn initial_joints_lock_the_chain() {
    let l = left_params();
    let pelvis = l.build_pelvis(Vec3Fx { x: 0, y: 0, z: 0 }, 0);
    match pelvis.joint {
        Some(JointDef::Generic(j)) => {
            assert_eq!(j.ang_y.limits, Some((1571, 1571)));
            assert_eq!(j.ang_x.limits, Some((0, 0)));
            assert_eq!(j.ang_z.limits, Some((0, 0)));
        },
        _ => panic!("pelvis joint missing"),
    }
    let r = right_params();
    let pelvis_r = r.build_pelvis(Vec3Fx { x: 0, y: 0, z: 0 }, 0);
    match pelvis_r.joint {
        Some(JointDef::Generic(j)) => {
            assert_eq!(j.ang_y.limits, Some((-1571, -1571)));
        },
        _ => panic!("pelvis joint missing"),
    }
    let shoulder = l.build_shoulder(Vec3Fx { x: 0, y: 0, z: 0 }, 0);
    match shoulder.joint {
        Some(JointDef::Generic(j)) => {
            assert_eq!(j.anchor1, Vec3Fx { x: 4000, y: 0, z: 0 });
        },
        _ => panic!("shoulder joint missing"),
    }
    let core = l.build_core(Vec3Fx { x: 0, y: 0, z: 0 }, 0);
    assert_eq!(core.joint, Some(JointDef::PrismaticY));
    let ball = l.build_ball(Vec3Fx { x: 0, y: 0, z: 0 }, 0);
    assert_eq!(
        ball.joint,
        Some(JointDef::Grab {
            anchor1: Vec3Fx { x: 0, y: 0, z: 1000 },
            anchor2: Vec3Fx { x: 0, y: 0, z: 0 },
        })
    );
}

#[test]
fn sandbox_tables() {
    let pelvis = max_er(BodyPartMarker::Pelvis).unwrap();
    assert_eq!(pelvis.anchor1, Vec3Fx { x: 0, y: 10_000, z: 0 });
    assert_eq!(pelvis.ang_y.limits, Some((-10, 1581)));
    assert!(max_er(BodyPartMarker::Elbow).is_none());
    let shoulder = max_er(BodyPartMarker::Shoulder).unwrap();
    assert_eq!(shoulder.ang_x.limits, None);
    assert_eq!(
        shoulder.ang_x.motor,
        Some(Motor { target: -1571, stiffness: 900, damping: 100 })
    );

    let torso = release(BodyPartMarker::Torso).unwrap();
    assert_eq!(torso.ang_y.limits, Some((-795, 1581)));
    assert_eq!(torso.ang_z.motor, Some(Motor { target: 785, stiffness: 1000, damping: 10 }));
    let elbow = release(BodyPartMarker::Elbow).unwrap();
    assert_eq!(elbow.ang_y.motor, Some(Motor { target: 0, stiffness: 900, damping: 100 }));
    assert_eq!(elbow.ang_z.limits, Some((-10, 1581)));
}
