use bullpen::pitch::Error;
use bullpen::strikezone::{
    back_panel_placement, collision_counterpart, front_panel_placement, panel_layout,
    update_strikezone_panel, StrikezonePanel,
};
use bullpen::vec::{Vec2Fx, Vec3Fx};

#[test]
fn layout_follows_the_batter_height() {
    // A 1.8 metre batter.
    let (half_height, pos_y) = panel_layout(18_000);
    assert_eq!(half_height, 2583);
    assert_eq!(pos_y, 7559);
    assert_eq!(panel_layout(0), (0, 0));
}

#[test]
fn placements_hang_over_the_plate() {
    let front = front_panel_placement(2583, 7559);
    assert_eq!(front.center, Vec3Fx { x: 0, y: 7559, z: 4318 });
    assert_eq!(front.collider_half_extents, Vec3Fx { x: 2359, y: 2583, z: 10 });
    let back = back_panel_placement(2583, 7559);
    assert_eq!(back.center, Vec3Fx { x: 0, y: 7409, z: 2159 });
}

#[test]
fn panel_records_at_most_one_collision() {
    let mut panel = StrikezonePanel::new_front(Vec2Fx { x: 2359, y: 2583 });
    assert!(!panel.is_updated());
    assert_eq!(panel.collision_point(), Vec3Fx { x: 0, y: 0, z: 0 });

    let point = Vec3Fx { x: 120, y: 7000, z: 4318 };
    assert_eq!(panel.set_collision_point(point), Ok(()));
    assert!(panel.is_updated());
    assert_eq!(panel.collision_point(), point);

    // The second ball of the same pitch is rejected and changes nothing.
    let other = Vec3Fx { x: -50, y: 6500, z: 4318 };
    assert_eq!(panel.set_collision_point(other), Err(Error::GenericError));
    assert_eq!(panel.collision_point(), point);
    assert_eq!(panel.dimensions(), Vec2Fx { x: 2359, y: 2583 });
}

#[test]
fn clearing_resets_for_the_next_pitch() {
    let mut panel = StrikezonePanel::new_back(Vec2Fx { x: 2359, y: 2583 });
    panel.set_collision_point(Vec3Fx { x: 1, y: 2, z: 3 }).unwrap();
    panel.clear(Vec2Fx { x: 2359, y: 2700 });
    assert!(!panel.is_updated());
    assert_eq!(panel.collision_point(), Vec3Fx { x: 0, y: 0, z: 0 });
    assert_eq!(panel.dimensions(), Vec2Fx { x: 2359, y: 2700 });
    assert_eq!(panel.set_collision_point(Vec3Fx { x: 9, y: 9, z: 9 }), Ok(()));
}

#[test]
fn refitting_keeps_the_panel_kind() {
    let mut front = StrikezonePanel::new_front(Vec2Fx { x: 2359, y: 100 });
    front.set_collision_point(Vec3Fx { x: 1, y: 1, z: 1 }).unwrap();
    let placement = update_strikezone_panel(&mut front, 18_000);
    assert!(!front.is_updated());
    assert_eq!(front.dimensions(), Vec2Fx { x: 2359, y: 2583 });
    assert_eq!(placement.center, Vec3Fx { x: 0, y: 7559, z: 4318 });

    let mut back = StrikezonePanel::new_back(Vec2Fx { x: 2359, y: 100 });
    let placement = update_strikezone_panel(&mut back, 18_000);
    assert_eq!(placement.center, Vec3Fx { x: 0, y: 7409, z: 2159 });
    assert!(matches!(back, StrikezonePanel::Back { .. }));
}

#[test]
fn collision_pairs_name_the_ball() {
    assert_eq!(collision_counterpart(5, 5, 9), Some(9));
    assert_eq!(collision_counterpart(5, 9, 5), Some(9));
    assert_eq!(collision_counterpart(5, 8, 9), None);
}
