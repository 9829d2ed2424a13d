use bullpen::builder::{plan_pitcher_mechanics, spawn_pitcher};
use bullpen::math::PI_MILLI;
use bullpen::commands::{on_pitch_stage_transition_event, RigCommand};
use bullpen::machine::{advance, PitchStageTransitionEvents, TickInputs};
use bullpen::pitch::{PitchingArm, PitchParams};
use bullpen::rig::{BodyHandles, PitcherBodyPart, PitcherParams, PitcherRig, PitchStage};
use bullpen::vec::Vec3Fx;

fn full_rig() -> PitcherRig {
    let mut handles = BodyHandles::new();
    handles.insert(PitcherBodyPart::BackFoot, 1);
    handles.insert(PitcherBodyPart::BackHip, 2);
    handles.insert(PitcherBodyPart::Core, 3);
    handles.insert(PitcherBodyPart::Pelvis, 4);
    handles.insert(PitcherBodyPart::Torso, 5);
    handles.insert(PitcherBodyPart::Shoulder, 6);
    handles.insert(PitcherBodyPart::Elbow, 7);
    handles.insert(PitcherBodyPart::Wrist, 8);
    let params = PitcherParams {
        pitching_arm: PitchingArm::Right,
        lateral_trunk_tilt: 785,
        body_parts: handles,
        ball: Some(100),
        pelvic_break: Some(200),
        balance_weight: Some(300),
        ..PitcherParams::default()
    };
    PitcherRig::new(7, params)
}

fn quiet_tick() -> TickInputs {
    TickInputs {
        knee_up_trigger: false,
        aim_direction: Vec3Fx { x: 0, y: 0, z: 10_000 },
        core_y: None,
        pelvis_overlaps_break: false,
        wrist_pos: None,
    }
}

#[test]
fn end_to_end_delivery() {
    let mut rig = full_rig();
    assert_eq!(rig.stage, PitchStage::WindUp);

    // Nothing happens while no sensor is satisfied.
    assert_eq!(advance(&mut rig, &quiet_tick()), None);
    assert_eq!(rig.stage, PitchStage::WindUp);

    // Knee up: player trigger, aim sampled onto the rig.
    let aim = Vec3Fx { x: 0, y: 0, z: 10_000 };
    let knee = TickInputs { knee_up_trigger: true, ..quiet_tick() };
    assert_eq!(advance(&mut rig, &knee), Some(PitchStageTransitionEvents::KneeUp(7)));
    assert_eq!(rig.stage, PitchStage::Stride);
    assert_eq!(rig.params.direction, aim);

    // A second trigger does not fire knee-up again.
    assert_eq!(advance(&mut rig, &knee), None);
    assert_eq!(rig.stage, PitchStage::Stride);

    // Foot contact: the core sinks below leg length minus torso drop.
    let not_low = TickInputs { core_y: Some(7000), ..quiet_tick() };
    assert_eq!(advance(&mut rig, &not_low), None);
    let low = TickInputs { core_y: Some(6999), ..quiet_tick() };
    assert_eq!(advance(&mut rig, &low), Some(PitchStageTransitionEvents::FootContact(7)));
    assert_eq!(rig.stage, PitchStage::ArmCocking);

    // Pelvic break: overlap with the sensor volume.
    let overlap = TickInputs { pelvis_overlaps_break: true, ..quiet_tick() };
    assert_eq!(advance(&mut rig, &overlap), Some(PitchStageTransitionEvents::MaxER(7)));
    assert_eq!(rig.stage, PitchStage::ArmAcceleration);

    // The core sensor no longer fires once its stage has passed.
    assert_eq!(advance(&mut rig, &low), None);

    // Maximum internal rotation: the wrist crosses the centerline.
    let behind = TickInputs { wrist_pos: Some(Vec3Fx { x: 0, y: 15_000, z: -50 }), ..quiet_tick() };
    assert_eq!(advance(&mut rig, &behind), None);
    let crossed = TickInputs { wrist_pos: Some(Vec3Fx { x: 0, y: 15_000, z: 50 }), ..quiet_tick() };
    assert_eq!(advance(&mut rig, &crossed), Some(PitchStageTransitionEvents::MaxIR(7)));
    assert_eq!(rig.stage, PitchStage::ArmDeceleration);

    // Terminal: nothing fires any more.
    assert_eq!(advance(&mut rig, &crossed), None);
    assert_eq!(advance(&mut rig, &knee), None);
    assert_eq!(rig.stage, PitchStage::ArmDeceleration);

    // Release: the ball detaches exactly once, with one aerodynamics
    // hand-off carrying the pitch's seam angles.
    let pitch = PitchParams::demo();
    let cmds = on_pitch_stage_transition_event(
        &rig.params,
        &pitch,
        &PitchStageTransitionEvents::MaxIR(7),
    );
    let releases: Vec<&RigCommand> = cmds
        .iter()
        .filter(|c| matches!(c, RigCommand::DetachBall { .. }))
        .collect();
    assert_eq!(releases.len(), 1);
    let aeros: Vec<&RigCommand> = cmds
        .iter()
        .filter(|c| matches!(c, RigCommand::EmitAerodynamics { .. }))
        .collect();
    assert_eq!(aeros.len(), 1);
    match aeros[0] {
        RigCommand::EmitAerodynamics { ball, seam_y_angle, seam_z_angle } => {
            assert_eq!(*ball, 100);
            assert_eq!(*seam_y_angle, pitch.seam_y_angle);
            assert_eq!(*seam_z_angle, pitch.seam_z_angle);
        },
        _ => unreachable!(),
    }

    // No other edge releases the ball.
    for ev in [
        PitchStageTransitionEvents::KneeUp(7),
        PitchStageTransitionEvents::FootContact(7),
        PitchStageTransitionEvents::MaxER(7),
    ] {
        let cs = on_pitch_stage_transition_event(&rig.params, &pitch, &ev);
        assert!(cs.iter().all(|c| !matches!(
            c,
            RigCommand::DetachBall { .. } | RigCommand::EmitAerodynamics { .. }
        )));
    }
}

#[test]
fn stage_is_monotone_and_single_shot_over_a_tick_storm() {
    // Feed every sensor at once for many ticks: the stage walks forward
    // one step per tick and each event appears exactly once.
    let mut rig = full_rig();
    let everything = TickInputs {
        knee_up_trigger: true,
        aim_direction: Vec3Fx { x: 0, y: 0, z: 10_000 },
        core_y: Some(0),
        pelvis_overlaps_break: true,
        wrist_pos: Some(Vec3Fx { x: 0, y: 15_000, z: 50 }),
    };
    let mut seen: Vec<PitchStageTransitionEvents> = Vec::new();
    let mut last_index: i64 = rig.stage.index();
    for _ in 0..10 {
        let fired = advance(&mut rig, &everything);
        let index = rig.stage.index();
        assert!(index >= last_index);
        assert!(index <= last_index + 1);
        if let Some(ev) = fired {
            assert_eq!(index, last_index + 1);
            assert!(!seen.contains(&ev), "event fired twice: {ev:?}");
            seen.push(ev);
        }
        last_index = index;
    }
    assert_eq!(
        seen,
        vec![
            PitchStageTransitionEvents::KneeUp(7),
            PitchStageTransitionEvents::FootContact(7),
            PitchStageTransitionEvents::MaxER(7),
            PitchStageTransitionEvents::MaxIR(7),
        ]
    );
    assert_eq!(rig.stage, PitchStage::ArmDeceleration);
}

#[test]
fn missing_segments_are_not_faults() {
    // A rig with no core never leaves the stride on the core sensor, and
    // a handler addressing missing parts produces no joint updates.
    let params = PitcherParams {
        pitching_arm: PitchingArm::Right,
        ..PitcherParams::default()
    };
    let mut rig = PitcherRig::new(9, params);
    let knee = TickInputs {
        knee_up_trigger: true,
        aim_direction: Vec3Fx { x: 0, y: 0, z: 10_000 },
        core_y: None,
        pelvis_overlaps_break: false,
        wrist_pos: None,
    };
    assert_eq!(advance(&mut rig, &knee), Some(PitchStageTransitionEvents::KneeUp(9)));
    let low = TickInputs { core_y: Some(0), ..knee };
    assert_eq!(advance(&mut rig, &low), None);
    assert_eq!(rig.stage, PitchStage::Stride);

    let cmds = on_pitch_stage_transition_event(
        &rig.params,
        &PitchParams::demo(),
        &PitchStageTransitionEvents::KneeUp(9),
    );
    assert!(cmds.is_empty());
}

#[test]
fn wrist_sensor_rotates_by_aim_angle() {
    // With the aim turned square off the forward axis the crossing test
    // follows the sideways coordinate instead.
    let mut rig = full_rig();
    let sideways_aim = Vec3Fx { x: 10_000, y: 0, z: 0 };
    let knee = TickInputs {
        knee_up_trigger: true,
        aim_direction: sideways_aim,
        core_y: None,
        pelvis_overlaps_break: false,
        wrist_pos: None,
    };
    advance(&mut rig, &knee);
    advance(&mut rig, &TickInputs { knee_up_trigger: false, core_y: Some(0), ..knee });
    advance(&mut rig, &TickInputs { knee_up_trigger: false, pelvis_overlaps_break: true, ..knee });
    assert_eq!(rig.stage, PitchStage::ArmAcceleration);
    // Forward motion alone no longer crosses; sideways motion does.
    let forward = TickInputs {
        knee_up_trigger: false,
        aim_direction: sideways_aim,
        core_y: None,
        pelvis_overlaps_break: false,
        wrist_pos: Some(Vec3Fx { x: 0, y: 15_000, z: 50 }),
    };
    assert_eq!(advance(&mut rig, &forward), None);
    let sideways = TickInputs { wrist_pos: Some(Vec3Fx { x: 50, y: 15_000, z: 0 }), ..forward };
    assert_eq!(
        advance(&mut rig, &sideways),
        Some(PitchStageTransitionEvents::MaxIR(7))
    );
}

#[test]
fn planned_rig_layout() {
    let params = PitcherParams {
        pitching_arm: PitchingArm::Right,
        ..PitcherParams::default()
    };
    let plan = plan_pitcher_mechanics(&params, PI_MILLI);
    assert_eq!(plan.balance_weight.position, Vec3Fx { x: 0, y: 7000, z: 0 });
    assert_eq!(plan.core.position, Vec3Fx { x: 0, y: 11_000, z: 0 });
    assert_eq!(plan.back_hip.position, Vec3Fx { x: 0, y: 9000, z: 0 });
    assert_eq!(plan.back_foot.position, Vec3Fx { x: 0, y: -1000, z: 0 });
    assert_eq!(plan.pelvis.position, Vec3Fx { x: 0, y: 13_500, z: 0 });
    assert_eq!(plan.torso.position, Vec3Fx { x: 0, y: 17_250, z: 0 });
    assert_eq!(plan.shoulder.position, Vec3Fx { x: 0, y: 17_250, z: -4000 });
    assert_eq!(plan.elbow.position, Vec3Fx { x: 0, y: 17_250, z: -7000 });
    assert_eq!(plan.wrist.position, Vec3Fx { x: 0, y: 17_250, z: -10_000 });
    assert_eq!(plan.ball.position, Vec3Fx { x: 0, y: 17_250, z: -10_500 });
    assert_eq!(plan.pelvic_break_offset, Vec3Fx { x: -1500, y: 2500, z: 0 });
    assert_eq!(plan.balance_weight.yaw, PI_MILLI);
    assert_eq!(plan.pelvis.yaw, -1571);
    // A fresh rig starts the delivery at wind-up, with the camera target
    // waiting on the rubber.
    let rig = PitcherRig::new(1, params);
    assert_eq!(rig.stage, PitchStage::WindUp);
    assert_eq!(spawn_pitcher(), Vec3Fx { x: 0, y: 1500, z: 184_400 });
}
