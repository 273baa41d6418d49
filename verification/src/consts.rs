//! Fixed-point constants shared by the whole crate.
//!
//! A quantity `v` is stored as the integer nearest to `v * SCALE`, so one
//! unit of the last place is 0.00001: exactly the precision of the five
//! decimal places shown in the readouts.

use vstd::prelude::*;

verus! {

/// Fixed-point scale: five decimal places.
pub const SCALE: i64 = 100_000;

/// The circle constant pi, times `SCALE`, rounded to nearest.
pub const PI: i64 = 314_159;

/// A full turn (two pi), times `SCALE`, rounded to nearest.
pub const TWO_PI: i64 = 628_319;

/// Angular speed of the animation in radians per second, times `SCALE`
/// (one half radian per second).
pub const ANGULAR_RATE: i64 = 50_000;

/// Bound on the tangent and cotangent segment endpoints, times `SCALE`:
/// the reciprocal-trig coordinates are clamped into
/// `[-TRIG_CLAMP, TRIG_CLAMP]` to keep the segments finite near the
/// asymptotes (9000 length units).
pub const TRIG_CLAMP: i64 = 900_000_000;

/// Largest radius of the circle, times `SCALE` (200 length units).
pub const MAX_RADIUS: i64 = 20_000_000;

/// Horizontal margin kept between the circle and the window edge on a
/// resize, times `SCALE` (20 length units).
pub const RADIUS_MARGIN: i64 = 2_000_000;

/// Largest frame delta the animation clock accepts, times `SCALE`
/// (one day in seconds: far beyond any real frame).
pub const MAX_ELAPSED: i64 = 8_640_000_000;

/// Largest window dimension the input mapping accepts, times `SCALE`
/// (100 000 logical pixels).
pub const MAX_WINDOW: i64 = 10_000_000_000;

/// Bound on the arguments of `utils::wrap` and `utils::clamp`, far above
/// every quantity of the model, so that their internal differences cannot
/// overflow an `i64`.
pub const NUM_BOUND: i64 = 0x1000_0000_0000_0000;

} // verus!
