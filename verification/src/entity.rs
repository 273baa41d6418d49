//! The state that persists across frames — angle, radius, pause flag, hover
//! flag, last cursor position — and the derived entities rebuilt every frame:
//! the five line segments, the circle outline, and the label texts.
//!
//! Every scalar is fixed-point: an `i64` holding the value times
//! `consts::SCALE`.

use vstd::prelude::*;

use crate::consts::MAX_RADIUS;
use crate::consts::RADIUS_MARGIN;
use crate::consts::SCALE;
use crate::consts::TWO_PI;

verus! {

/// A point of the scene in fixed-point coordinates, origin at the window
/// center, y growing upward.
#[derive(Clone, Copy, PartialEq, Eq, Structural, Debug)]
pub struct Point {
    pub x: i64,
    pub y: i64,
}

/// The angle parameter, in radians times `SCALE`. The animation keeps it in
/// `[0, TWO_PI)`; a mouse override puts it in `[-PI, PI]`; both fit the
/// well-formedness bound.
#[derive(Clone, Copy, PartialEq, Eq, Structural, Debug)]
pub struct Theta(pub i64);

impl Theta {
    /// The angle stays within one turn of zero.
    pub open spec fn wf(self) -> bool {
        -TWO_PI <= self.0 <= TWO_PI
    }
}

/// The circle radius, in length units times `SCALE`. Resizing keeps it at
/// most `MAX_RADIUS` and, for a nonnegative window width, no lower than
/// `-RADIUS_MARGIN`: no floor is put on it, so a pathologically narrow
/// window may drive it slightly negative.
#[derive(Clone, Copy, PartialEq, Eq, Structural, Debug)]
pub struct Radius(pub i64);

impl Radius {
    /// The bounds that the initial value and every resize maintain.
    pub open spec fn wf(self) -> bool {
        -RADIUS_MARGIN <= self.0 <= MAX_RADIUS
    }
}

/// Whether the animation clock is paused.
#[derive(Clone, Copy, PartialEq, Eq, Structural, Debug)]
pub struct Paused(pub bool);

/// Whether the pointer is currently over the pause control; while it is,
/// mouse drags must not steer the angle.
#[derive(Clone, Copy, PartialEq, Eq, Structural, Debug)]
pub struct PauseButtonHovered(pub bool);

/// One frame's sample of the cosine and sine of the current angle, each
/// times `SCALE`. The rendering layer evaluates the trigonometry and hands
/// the pair in, so that every segment of the frame reads one consistent
/// snapshot.
#[derive(Clone, Copy, PartialEq, Eq, Structural, Debug)]
pub struct TrigSample {
    pub cos_q: i64,
    pub sin_q: i64,
}

impl TrigSample {
    /// A cosine or sine value lies in `[-1, 1]`, so its fixed-point form
    /// lies in `[-SCALE, SCALE]`.
    pub open spec fn wf(self) -> bool {
        &&& -SCALE <= self.cos_q <= SCALE
        &&& -SCALE <= self.sin_q <= SCALE
    }
}

/// The last cursor position seen, centered on the window.
#[derive(Clone, Copy, PartialEq, Eq, Structural, Debug)]
pub struct MouseState {
    pub cursor_pos: Point,
}

impl Default for MouseState {
    /// Starts at the window center.
    fn default() -> (s: Self)
        ensures
            s.cursor_pos == (Point { x: 0, y: 0 }),
    {
        MouseState { cursor_pos: Point { x: 0, y: 0 } }
    }
}

/// The radius vector: the segment from the origin to the point of the
/// circle at the current angle.
#[derive(Clone, Copy, PartialEq, Eq, Structural, Debug)]
pub struct RadiusLine {
    pub start: Point,
    pub end: Point,
}

/// The cosine segment: the horizontal run from the y axis to the vector
/// endpoint, picturing cosine as width.
#[derive(Clone, Copy, PartialEq, Eq, Structural, Debug)]
pub struct CosLine {
    pub start: Point,
    pub end: Point,
}

/// The sine segment: the vertical rise from the x axis to the vector
/// endpoint, picturing sine as height.
#[derive(Clone, Copy, PartialEq, Eq, Structural, Debug)]
pub struct SinLine {
    pub start: Point,
    pub end: Point,
}

/// The tangent segment: from the vector endpoint down to the secant point
/// on the x axis, clamped near the asymptotes.
#[derive(Clone, Copy, PartialEq, Eq, Structural, Debug)]
pub struct TanLine {
    pub start: Point,
    pub end: Point,
}

/// The cotangent segment: from the vector endpoint across to the cosecant
/// point on the y axis, clamped near the asymptotes.
#[derive(Clone, Copy, PartialEq, Eq, Structural, Debug)]
pub struct CotLine {
    pub start: Point,
    pub end: Point,
}

/// The circle outline on which the radius vector ends.
#[derive(Clone, Copy, PartialEq, Eq, Structural, Debug)]
pub struct Circle {
    pub radius: i64,
}

/// The readout line for the angle itself.
#[derive(PartialEq, Eq, Debug)]
pub struct ThetaText {
    pub value: String,
}

/// The readout line for the cosine value.
#[derive(PartialEq, Eq, Debug)]
pub struct CosText {
    pub value: String,
}

/// The readout line for the sine value.
#[derive(PartialEq, Eq, Debug)]
pub struct SinText {
    pub value: String,
}

/// The readout line for the tangent value.
#[derive(PartialEq, Eq, Debug)]
pub struct TanText {
    pub value: String,
}

/// The readout line for the cotangent value.
#[derive(PartialEq, Eq, Debug)]
pub struct CotText {
    pub value: String,
}

/// Everything visible in one frame, derived afresh each frame from the
/// current radius and trig sample; nothing of it survives to the next frame.
#[derive(PartialEq, Eq, Debug)]
pub struct Frame {
    pub circle: Circle,
    pub radius_line: RadiusLine,
    pub cos_line: CosLine,
    pub sin_line: SinLine,
    pub tan_line: TanLine,
    pub cot_line: CotLine,
    pub cos_text: CosText,
    pub sin_text: SinText,
    pub tan_text: TanText,
    pub cot_text: CotText,
}

} // verus!
