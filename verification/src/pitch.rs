//! Pitch parameters: the per-pitch values a player chooses (speed, spin
//! rate, spin efficiency, grip tilt, gyro pole, seam orientation) together
//! with the pitching arm and the resolved aim direction.

use vstd::prelude::*;

verus! {

use crate::math::{HALF_PI_MILLI, TICKS_FULL_TURN};
use crate::vec::Vec3Fx;

/// The error type of this crate. Configuration errors are rejected at
/// construction; nothing here panics.
#[derive(Debug, Clone, Copy, PartialEq, Eq, Structural)]
pub enum Error {
    GenericError,
}

/// Which side the pitcher throws with.
#[derive(Debug, Clone, Copy, PartialEq, Eq, Structural)]
pub enum PitchingArm {
    Left,
    Right,
}

impl PitchingArm {
    /// The lateral mirror factor: every sideways offset and sign-dependent
    /// joint angle is multiplied by this.
    pub open spec fn spec_sign(self) -> int {
        match self {
            PitchingArm::Left => 1,
            PitchingArm::Right => -1,
        }
    }

    pub fn sign(&self) -> (r: i64)
        ensures
            r == self.spec_sign(),
    {
        match self {
            PitchingArm::Left => 1,
            PitchingArm::Right => -1,
        }
    }
}

impl Default for PitchingArm {
    fn default() -> (r: Self)
        ensures
            r == PitchingArm::Left,
    {
        PitchingArm::Left
    }
}

/// Which pole resolves the sign ambiguity of the gyro angle derived from
/// the spin efficiency.
#[derive(Debug, Clone, Copy, PartialEq, Eq, Structural)]
pub enum GyroPole {
    Left,
    Right,
}

impl Default for GyroPole {
    fn default() -> (r: Self)
        ensures
            r == GyroPole::Left,
    {
        GyroPole::Left
    }
}

/// Grip tilt: an angular position on a 12-hour clock face, stored in clock
/// ticks (one per minute, half a degree each; 12:00 is tick zero).
#[derive(Debug, Clone, Copy, PartialEq, Eq, Structural)]
pub struct Tilt {
    pub ticks: i64,
}

impl Tilt {
    /// A valid tilt points somewhere on the clock face.
    pub open spec fn wf(self) -> bool {
        0 <= self.ticks < TICKS_FULL_TURN
    }

    /// Builds a tilt from a clock-face reading. Hours run 1 through 12 and
    /// minutes 0 through 59; anything else is rejected.
    pub fn from_hour_minutes(hour: i64, minute: i64) -> (r: Result<Tilt, Error>)
        ensures
            r is Ok <==> (1 <= hour <= 12 && 0 <= minute <= 59),
            r matches Ok(t) ==> t.ticks == (hour % 12) * 60 + minute && t.wf(),
    {
        if 1 <= hour && hour <= 12 && 0 <= minute && minute <= 59 {
            Ok(Tilt { ticks: (hour % 12) * 60 + minute })
        } else {
            Err(Error::GenericError)
        }
    }

    /// The clock-face reading back, with tick zero read as 12:00.
    pub fn to_hour_minutes(&self) -> (r: (i64, i64))
        requires
            self.wf(),
        ensures
            r.0 == if self.ticks / 60 == 0 { 12int } else { self.ticks / 60 },
            r.1 == self.ticks % 60,
            1 <= r.0 <= 12,
            0 <= r.1 <= 59,
    {
        let hour: i64 = self.ticks / 60;
        let minute: i64 = self.ticks % 60;
        if hour == 0 {
            (12, minute)
        } else {
            (hour, minute)
        }
    }
}

/// Building a tilt from a clock reading and reading it back returns the
/// same hour and minute.
pub proof fn lemma_tilt_clock_round_trip(hour: int, minute: int)
    requires
        1 <= hour <= 12,
        0 <= minute <= 59,
    ensures
        ({
            let t = (hour % 12) * 60 + minute;
            (if t / 60 == 0 { 12int } else { t / 60 }) == hour && t % 60 == minute
        }),
{
    let h = hour % 12;
    let t = h * 60 + minute;
    assert(t / 60 == h && t % 60 == minute) by (nonlinear_arith)
        requires
            0 <= h <= 11,
            0 <= minute <= 59,
            t == h * 60 + minute,
    ;
}

/// The parameters of one pitch. Constructed once per pitch cycle; the
/// parameter-tuning surface mutates the fields directly between pitches.
#[derive(Debug, Clone, Copy, PartialEq, Eq, Structural)]
pub struct PitchParams {
    /// Where the ball is released, in position units.
    pub starting_point: Vec3Fx,
    /// Launch speed in thousandths of a mile per hour.
    pub speed: i64,
    /// Spin rate in revolutions per minute.
    pub spin_rate: i64,
    /// Spin efficiency in per-mille, 0 through 1000.
    pub spin_efficiency: i64,
    /// Grip tilt on the clock face.
    pub tilt: Tilt,
    /// Gyro pole resolving the gyro-angle sign.
    pub gyro_pole: GyroPole,
    /// Seam orientation angle about the y axis, milliradians.
    pub seam_y_angle: i64,
    /// Seam orientation angle about the z axis, milliradians.
    pub seam_z_angle: i64,
    /// The throwing arm.
    pub pitching_arm: PitchingArm,
    /// Aim direction resolved at release, a unit vector at length scale.
    pub direction: Vec3Fx,
}

impl PitchParams {
    /// The ranges every pitch is kept within: a bounded speed and spin
    /// rate, a per-mille efficiency, a clock-face tilt, and a unit-scale
    /// aim direction.
    pub open spec fn wf(self) -> bool {
        &&& 0 <= self.speed <= 300_000
        &&& 0 <= self.spin_rate <= 100_000
        &&& 0 <= self.spin_efficiency <= 1000
        &&& self.tilt.wf()
        &&& -10_000 <= self.direction.x <= 10_000
        &&& -10_000 <= self.direction.y <= 10_000
        &&& -10_000 <= self.direction.z <= 10_000
        &&& self.starting_point.in_pos_range()
    }

    /// A demonstration pitch: a 96 mph, 2400 rpm, fully efficient pitch
    /// with a 12:00 tilt, released from the default right-hand point.
    pub fn demo() -> (r: PitchParams)
        ensures
            r.speed == 96_000,
            r.spin_rate == 2400,
            r.spin_efficiency == 1000,
            r.tilt.ticks == 0,
            r.gyro_pole == GyroPole::Left,
            r.seam_y_angle == 0,
            r.seam_z_angle == HALF_PI_MILLI,
            r.pitching_arm == PitchingArm::Right,
            r.direction == (Vec3Fx { x: 0, y: 0, z: 0 }),
            r.starting_point == (Vec3Fx { x: 4800, y: 18200, z: 167_640 }),
            r.wf(),
    {
        PitchParams {
            starting_point: Vec3Fx { x: 4800, y: 18200, z: 167_640 },
            speed: 96_000,
            spin_rate: 2400,
            spin_efficiency: 1000,
            tilt: Tilt { ticks: 0 },
            gyro_pole: GyroPole::Left,
            seam_y_angle: 0,
            seam_z_angle: HALF_PI_MILLI,
            pitching_arm: PitchingArm::Right,
            direction: Vec3Fx { x: 0, y: 0, z: 0 },
        }
    }
}

/// The default release point for each arm, in position units: mirrored
/// across the vertical plane through the rubber.
pub fn default_starting_point(arm: PitchingArm) -> (r: Vec3Fx)
    ensures
        r.y == 18200 && r.z == 167_640,
        r.x == arm.spec_sign() * -4800,
{
    match arm {
        PitchingArm::Left => Vec3Fx { x: -4800, y: 18200, z: 167_640 },
        PitchingArm::Right => Vec3Fx { x: 4800, y: 18200, z: 167_640 },
    }
}

} // verus!
