//! Core mechanics of a baseball pitching simulation: the delivery-phase state
//! machine, the per-phase joint-reconfiguration policy that drives the
//! pitcher's articulated body, and the spin-vector kinematics that turn pitch
//! parameters into a launch velocity and an angular velocity for the ball.
//!
//! All quantities are exact integers in fixed units:
//! - lengths and positions: tenths of a millimetre (10000 per metre);
//! - angles: milliradians;
//! - angular velocity: milliradians per second;
//! - linear velocity: millimetres per second;
//! - spin efficiency and trigonometric values: thousandths (per-mille);
//! - spin rate: revolutions per minute;
//! - pitch speed: thousandths of a mile per hour.
//!
//! The surrounding engine (rendering, physics integration, input) works in
//! floating point and is kept outside this crate; it exchanges plain integer
//! values with the functions here.

pub mod builder;
pub mod commands;
pub mod joint;
pub mod machine;
pub mod math;
pub mod pitch;
pub mod policy;
pub mod rig;
pub mod sandbox;
pub mod session;
pub mod spin;
pub mod strikezone;
pub mod vec;
