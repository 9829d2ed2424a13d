use bullpen::commands::{on_pitch_stage_transition_event, RigCommand};
use bullpen::machine::PitchStageTransitionEvents;
use bullpen::pitch::{PitchingArm, PitchParams};
use bullpen::rig::{BodyHandles, PitcherBodyPart, PitcherParams};
use bullpen::session::{
    menu_visibility_is, swap_camera, toggle_menu_visibility, BullpenSceneGameMode, MenuState,
    PlayerMode, PlayerModeSelected,
};
use bullpen::vec::Vec3Fx;

fn rigged_params() -> PitcherParams {
    let mut handles = BodyHandles::new();
    handles.insert(PitcherBodyPart::BackFoot, 1);
    handles.insert(PitcherBodyPart::BackHip, 2);
    handles.insert(PitcherBodyPart::Core, 3);
    handles.insert(PitcherBodyPart::Pelvis, 4);
    handles.insert(PitcherBodyPart::Torso, 5);
    handles.insert(PitcherBodyPart::Shoulder, 6);
    handles.insert(PitcherBodyPart::Elbow, 7);
    handles.insert(PitcherBodyPart::Wrist, 8);
    PitcherParams {
        pitching_arm: PitchingArm::Right,
        lateral_trunk_tilt: 785,
        direction: Vec3Fx { x: 0, y: 0, z: 10_000 },
        body_parts: handles,
        ball: Some(100),
        pelvic_break: Some(200),
        balance_weight: Some(300),
        ..PitcherParams::default()
    }
}

#[test]
fn knee_up_commands_drive_the_rig_forward() {
    let p = rigged_params();
    let k = PitchParams::demo();
    let cmds = on_pitch_stage_transition_event(&p, &k, &PitchStageTransitionEvents::KneeUp(7));
    // The two drive-leg joints relax, then the balance weight is pushed
    // toward the target.
    assert_eq!(cmds.len(), 3);
    assert!(matches!(
        cmds[0],
        RigCommand::SetJoint { part: PitcherBodyPart::BackFoot, handle: 1, .. }
    ));
    assert!(matches!(
        cmds[1],
        RigCommand::SetJoint { part: PitcherBodyPart::BackHip, handle: 2, .. }
    ));
    match cmds[2] {
        RigCommand::ApplyForce { body, force, at_point, center } => {
            assert_eq!(body, 300);
            assert_eq!(force, Vec3Fx { x: 0, y: 0, z: 10_000_000 });
            assert_eq!(at_point, Vec3Fx { x: 0, y: 10_000, z: 0 });
            assert_eq!(center, at_point);
        },
        _ => panic!("expected the drive force"),
    }
}

#[test]
fn foot_contact_commands_plant_the_front_foot() {
    let p = rigged_params();
    let k = PitchParams::demo();
    let cmds =
        on_pitch_stage_transition_event(&p, &k, &PitchStageTransitionEvents::FootContact(7));
    assert_eq!(cmds.len(), 4);
    assert!(matches!(
        cmds[0],
        RigCommand::SetJoint { part: PitcherBodyPart::Pelvis, handle: 4, .. }
    ));
    assert!(matches!(
        cmds[1],
        RigCommand::SetJoint { part: PitcherBodyPart::Torso, handle: 5, .. }
    ));
    match cmds[2] {
        RigCommand::ApplyImpulse { body, impulse, at_point, center } => {
            assert_eq!(body, 4);
            // Mirrored for the right arm.
            assert_eq!(impulse, Vec3Fx { x: -10, y: 0, z: 0 });
            assert_eq!(at_point, Vec3Fx { x: 0, y: 10_000, z: -2000 });
            assert_eq!(center, Vec3Fx { x: 0, y: 10_000, z: 0 });
        },
        _ => panic!("expected the kickstart impulse"),
    }
    assert_eq!(cmds[3], RigCommand::FreezeBody { body: 300 });
}

#[test]
fn max_er_commands_touch_only_the_pelvis() {
    let p = rigged_params();
    let k = PitchParams::demo();
    let cmds = on_pitch_stage_transition_event(&p, &k, &PitchStageTransitionEvents::MaxER(7));
    assert_eq!(cmds.len(), 1);
    assert!(matches!(
        cmds[0],
        RigCommand::SetJoint { part: PitcherBodyPart::Pelvis, handle: 4, .. }
    ));
}

#[test]
fn max_ir_commands_release_the_ball() {
    let p = rigged_params();
    let k = PitchParams::demo();
    let cmds = on_pitch_stage_transition_event(&p, &k, &PitchStageTransitionEvents::MaxIR(7));
    // Pelvis, torso and shoulder retighten, then the ball goes.
    assert_eq!(cmds.len(), 5);
    match cmds[3] {
        RigCommand::DetachBall { ball, linear_velocity, angular_velocity } => {
            assert_eq!(ball, 100);
            // Straight-ahead aim at 96 mph.
            assert_eq!(linear_velocity, Vec3Fx { x: 0, y: 0, z: 42_915 });
            // A fully efficient 2400 rpm pitch at 12:00 tilt, in the
            // world frame.
            assert_eq!(angular_velocity, Vec3Fx { x: 0, y: -251_328, z: 0 });
        },
        _ => panic!("expected the ball detach"),
    }
    match cmds[4] {
        RigCommand::EmitAerodynamics { ball, seam_y_angle, seam_z_angle } => {
            assert_eq!(ball, 100);
            assert_eq!(seam_y_angle, k.seam_y_angle);
            assert_eq!(seam_z_angle, k.seam_z_angle);
        },
        _ => panic!("expected the aerodynamics hand-off"),
    }
}

#[test]
fn absent_optional_handles_are_skipped() {
    let mut p = rigged_params();
    p.ball = None;
    p.balance_weight = None;
    let k = PitchParams::demo();
    let knee = on_pitch_stage_transition_event(&p, &k, &PitchStageTransitionEvents::KneeUp(7));
    assert_eq!(knee.len(), 2);
    let ir = on_pitch_stage_transition_event(&p, &k, &PitchStageTransitionEvents::MaxIR(7));
    assert_eq!(ir.len(), 3);
    assert!(ir.iter().all(|c| matches!(c, RigCommand::SetJoint { .. })));
}

#[test]
fn menu_visibility_follows_the_cursor() {
    let mut state = MenuState::default();
    assert!(menu_visibility_is(&state, false));
    toggle_menu_visibility(&mut state, true);
    assert!(state.visibility);
    assert!(menu_visibility_is(&state, true));
    toggle_menu_visibility(&mut state, false);
    assert!(!state.visibility);
}

#[test]
fn camera_swap_alternates_modes() {
    let from_pitcher = swap_camera(BullpenSceneGameMode::Pitcher);
    assert!(!from_pitcher.pitcher_camera_active);
    assert!(from_pitcher.batter_camera_active);
    assert_eq!(from_pitcher.next_mode, BullpenSceneGameMode::Batter);
    let from_batter = swap_camera(from_pitcher.next_mode);
    assert!(from_batter.pitcher_camera_active);
    assert!(from_batter.pitcher_cursor_lock);
    assert_eq!(from_batter.next_mode, BullpenSceneGameMode::Pitcher);
    let selected = PlayerModeSelected(PlayerMode::Batter);
    assert_eq!(selected.0, PlayerMode::Batter);
}
