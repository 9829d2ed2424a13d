use bullpen::pitch::{GyroPole, PitchParams, Tilt};
use bullpen::spin::{from_baseball_coord_to_world, release_velocity, spin_vector};
use bullpen::vec::Vec3Fx;

#[test]
fn spin_vector_deterministic_noon_tilt() {
    let tilt = Tilt::from_hour_minutes(12, 0).unwrap();
    let v = spin_vector(2000, 1000, tilt, GyroPole::Left);
    assert_eq!(v.x, 0);
    assert_eq!(v.y, 0);
    assert_eq!(v.z, -209_440);
    let w = from_baseball_coord_to_world(v);
    assert_eq!(w, Vec3Fx { x: 0, y: -209_440, z: 0 });
    assert!(w.y.abs() > w.x.abs());
    assert!(w.y.abs() > w.z.abs());
}

#[test]
fn spin_vector_zero_rate_substitutes_one_rpm() {
    let tilt = Tilt::from_hour_minutes(12, 0).unwrap();
    let zero = spin_vector(0, 1000, tilt, GyroPole::Left);
    let one = spin_vector(1, 1000, tilt, GyroPole::Left);
    assert_eq!(zero, one);
    assert_eq!(zero, Vec3Fx { x: 0, y: 0, z: -104 });
    assert!(zero.x != 0 || zero.y != 0 || zero.z != 0);
}

#[test]
fn spin_vector_never_zero_across_parameters() {
    let poles = [GyroPole::Left, GyroPole::Right];
    let effs: [i64; 5] = [0, 250, 500, 999, 1000];
    let hours: [i64; 4] = [12, 3, 6, 9];
    for pole in poles {
        for eff in effs {
            for hour in hours {
                let tilt = Tilt::from_hour_minutes(hour, 0).unwrap();
                let v = spin_vector(0, eff, tilt, pole);
                assert!(
                    v.x != 0 || v.y != 0 || v.z != 0,
                    "zero spin vector at eff {eff} hour {hour}"
                );
            }
        }
    }
}

#[test]
fn spin_vector_pure_gyro() {
    let tilt = Tilt::from_hour_minutes(12, 0).unwrap();
    let left = spin_vector(2000, 0, tilt, GyroPole::Left);
    assert_eq!(left, Vec3Fx { x: 0, y: 209_440, z: 0 });
    let right = spin_vector(2000, 0, tilt, GyroPole::Right);
    assert_eq!(right, Vec3Fx { x: 0, y: -209_440, z: 0 });
}

#[test]
fn spin_vector_mixed_parameters() {
    let tilt = Tilt::from_hour_minutes(1, 30).unwrap();
    let v = spin_vector(2200, 800, tilt, GyroPole::Right);
    assert_eq!(v, Vec3Fx { x: 129_936, y: -138_230, z: -129_936 });
}

#[test]
fn frame_remap_swaps_vertical_axes() {
    let w = from_baseball_coord_to_world(Vec3Fx { x: 7, y: -3, z: 11 });
    assert_eq!(w, Vec3Fx { x: -7, y: 11, z: -3 });
}

#[test]
fn release_velocity_matches_unit_conversion() {
    let v = release_velocity(Vec3Fx { x: 0, y: 0, z: 10_000 }, 96_000);
    assert_eq!(v, Vec3Fx { x: 0, y: 0, z: 42_915 });
    let w = release_velocity(Vec3Fx { x: 100, y: -200, z: 9998 }, 90_000);
    assert_eq!(w, Vec3Fx { x: 402, y: -804, z: 40_225 });
}

#[test]
fn release_velocity_ignores_other_parameters() {
    let d = Vec3Fx { x: 100, y: -200, z: 9998 };
    let v = release_velocity(d, 90_000);
    let mut k = PitchParams::demo();
    k.spin_rate = 0;
    k.spin_efficiency = 77;
    assert_eq!(release_velocity(d, 90_000), v);
}

#[test]
fn demo_pitch_parameters() {
    let k = PitchParams::demo();
    assert_eq!(k.speed, 96_000);
    assert_eq!(k.spin_rate, 2400);
    assert_eq!(k.spin_efficiency, 1000);
    assert_eq!(k.tilt.ticks, 0);
    assert_eq!(k.starting_point, Vec3Fx { x: 4800, y: 18_200, z: 167_640 });
}
