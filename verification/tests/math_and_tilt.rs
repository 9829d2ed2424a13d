use bullpen::math::{cos_milli, isqrt, sin_milli};
use bullpen::pitch::{Error, GyroPole, PitchingArm, Tilt};

#[test]
fn isqrt_exact_squares_and_between() {
    assert_eq!(isqrt(0), 0);
    assert_eq!(isqrt(1), 1);
    assert_eq!(isqrt(3), 1);
    assert_eq!(isqrt(4), 2);
    assert_eq!(isqrt(999_999), 999);
    assert_eq!(isqrt(1_000_000), 1000);
    assert_eq!(isqrt(100_000_000), 10_000);
    assert_eq!(isqrt(199_999_999), 14_142);
}

#[test]
fn sine_model_key_points() {
    assert_eq!(sin_milli(0), 0);
    assert_eq!(sin_milli(60), 500);
    assert_eq!(sin_milli(90), 705);
    assert_eq!(sin_milli(180), 1000);
    assert_eq!(sin_milli(270), 705);
    assert_eq!(sin_milli(360), 0);
    assert_eq!(sin_milli(540), -1000);
    assert_eq!(sin_milli(719), -8);
}

#[test]
fn cosine_model_key_points() {
    assert_eq!(cos_milli(0), 1000);
    assert_eq!(cos_milli(90), 705);
    assert_eq!(cos_milli(180), 0);
    assert_eq!(cos_milli(360), -1000);
    assert_eq!(cos_milli(60), 864);
    assert_eq!(cos_milli(719), 999);
}

#[test]
fn sine_model_stays_in_range() {
    let mut t: i64 = 0;
    while t < 720 {
        let s = sin_milli(t);
        let c = cos_milli(t);
        assert!(-1000 <= s && s <= 1000);
        assert!(-1000 <= c && c <= 1000);
        assert!(s != 0 || c == 1000 || c == -1000);
        t += 1;
    }
}

#[test]
fn tilt_from_clock_face() {
    let noon = Tilt::from_hour_minutes(12, 0).unwrap();
    assert_eq!(noon.ticks, 0);
    let t = Tilt::from_hour_minutes(1, 30).unwrap();
    assert_eq!(t.ticks, 90);
    let six = Tilt::from_hour_minutes(6, 0).unwrap();
    assert_eq!(six.ticks, 360);
    let late = Tilt::from_hour_minutes(11, 59).unwrap();
    assert_eq!(late.ticks, 719);
}

#[test]
fn tilt_rejects_invalid_clock_readings() {
    assert_eq!(Tilt::from_hour_minutes(0, 0), Err(Error::GenericError));
    assert_eq!(Tilt::from_hour_minutes(13, 0), Err(Error::GenericError));
    assert_eq!(Tilt::from_hour_minutes(12, 60), Err(Error::GenericError));
    assert_eq!(Tilt::from_hour_minutes(5, -1), Err(Error::GenericError));
    assert_eq!(Tilt::from_hour_minutes(-3, 10), Err(Error::GenericError));
}

#[test]
fn tilt_clock_round_trip() {
    let mut hour: i64 = 1;
    while hour <= 12 {
        let mut minute: i64 = 0;
        while minute <= 59 {
            let t = Tilt::from_hour_minutes(hour, minute).unwrap();
            assert_eq!(t.to_hour_minutes(), (hour, minute));
            minute += 7;
        }
        hour += 1;
    }
}

#[test]
fn arm_signs_and_defaults() {
    assert_eq!(PitchingArm::Left.sign(), 1);
    assert_eq!(PitchingArm::Right.sign(), -1);
    assert_eq!(PitchingArm::default(), PitchingArm::Left);
    assert_eq!(GyroPole::default(), GyroPole::Left);
}
