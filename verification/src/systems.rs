//! The per-frame steps: the animation clock, the mouse-to-angle override,
//! the geometry and readout derivation, and the radius rescale on resize.
//!
//! Each frame runs, in this order: the clock advances the angle (unless
//! paused), a held mouse button may then override the angle outright, the
//! whole visible frame is derived from the resulting angle and radius, and a
//! resize recomputes the radius for the next frame. The rendering layer
//! samples cosine and sine of the angle and passes them in as a
//! `TrigSample`, so every derived entity reads one consistent snapshot.

use vstd::prelude::*;
use vstd::string::*;

use crate::consts::ANGULAR_RATE;
use crate::consts::MAX_ELAPSED;
use crate::consts::MAX_RADIUS;
use crate::consts::MAX_WINDOW;
use crate::consts::PI;
use crate::consts::RADIUS_MARGIN;
use crate::consts::SCALE;
use crate::consts::TRIG_CLAMP;
use crate::consts::TWO_PI;
use crate::entity::Circle;
use crate::entity::CosLine;
use crate::entity::CosText;
use crate::entity::CotLine;
use crate::entity::CotText;
use crate::entity::Frame;
use crate::entity::MouseState;
use crate::entity::Paused;
use crate::entity::PauseButtonHovered;
use crate::entity::Point;
use crate::entity::Radius;
use crate::entity::RadiusLine;
use crate::entity::SinLine;
use crate::entity::SinText;
use crate::entity::TanLine;
use crate::entity::TanText;
use crate::entity::Theta;
use crate::entity::ThetaText;
use crate::entity::TrigSample;
use crate::text::fmt_fixed1;
use crate::text::fmt_fixed3;
use crate::text::fmt_fixed5;
use crate::text::pad12;
use crate::text::spec_fixed1;
use crate::text::spec_fixed3;
use crate::text::spec_fixed5;
use crate::text::spec_pad12;
use crate::utils::clamp;
use crate::utils::div_trunc_any;
use crate::utils::scale_mul;
use crate::utils::spec_clamp;
use crate::utils::spec_div_trunc;
use crate::utils::spec_scale_mul;
use crate::utils::spec_wrap;
use crate::utils::wrap;

verus! {

/// The angle after one animation step: advanced by `elapsed` seconds at
/// `ANGULAR_RATE`, then wrapped into `[0, TWO_PI)`.
pub open spec fn spec_advance(theta_q: int, elapsed_q: int) -> int {
    spec_wrap(theta_q + elapsed_q * (ANGULAR_RATE as int) / (SCALE as int), 0, TWO_PI as int)
}

/// The angle converted from radians to degrees, both times `SCALE`.
pub open spec fn spec_deg(theta_q: int) -> int {
    spec_div_trunc(theta_q * 180 * (SCALE as int), PI as int)
}

/// The angle readout: the angle in radians to three decimal places and in
/// degrees to one.
pub open spec fn spec_theta_label(theta_q: int) -> Seq<char> {
    seq!['θ', ' ', '=', ' '] + spec_fixed3(theta_q) + seq![' ', '=', ' '] + spec_fixed1(
        spec_deg(theta_q),
    ) + seq!['°']
}

/// The cosine readout.
pub open spec fn spec_cos_label(cos_q: int) -> Seq<char> {
    seq!['c', 'o', 's', ' ', 'θ', ' ', '=', ' '] + spec_fixed5(cos_q)
}

/// The sine readout.
pub open spec fn spec_sin_label(sin_q: int) -> Seq<char> {
    seq!['s', 'i', 'n', ' ', 'θ', ' ', '=', ' '] + spec_fixed5(sin_q)
}

/// The tangent value as the quotient of the sine and cosine samples,
/// defined for a nonzero cosine.
pub open spec fn spec_tan_value(cos_q: int, sin_q: int) -> int {
    spec_div_trunc(sin_q * (SCALE as int), cos_q)
}

/// The cotangent value as the quotient of the cosine and sine samples,
/// defined for a nonzero sine.
pub open spec fn spec_cot_value(cos_q: int, sin_q: int) -> int {
    spec_div_trunc(cos_q * (SCALE as int), sin_q)
}

/// The tangent readout; at the exact singularity (cosine sample zero) the
/// quotient has no finite value and the readout shows `inf`.
pub open spec fn spec_tan_label(cos_q: int, sin_q: int) -> Seq<char> {
    seq!['t', 'a', 'n', ' ', 'θ', ' ', '=', ' '] + (if cos_q == 0 {
        seq!['i', 'n', 'f']
    } else {
        spec_fixed5(spec_tan_value(cos_q, sin_q))
    })
}

/// The cotangent readout, left-justified in a field of twelve characters;
/// `inf` at the exact singularity (sine sample zero).
pub open spec fn spec_cot_label(cos_q: int, sin_q: int) -> Seq<char> {
    seq!['c', 'o', 't', ' ', 'θ', ' ', '=', ' '] + spec_pad12(
        if sin_q == 0 {
            seq!['i', 'n', 'f']
        } else {
            spec_fixed5(spec_cot_value(cos_q, sin_q))
        },
    )
}

/// The x coordinate where the tangent segment meets the x axis: the secant
/// times the radius, clamped into `[-TRIG_CLAMP, TRIG_CLAMP]`. A zero
/// cosine sample stands for an infinite secant and takes the upper bound.
pub open spec fn spec_tan_end_x(radius_q: int, cos_q: int) -> int {
    if cos_q == 0 {
        TRIG_CLAMP as int
    } else {
        spec_clamp(
            spec_div_trunc(radius_q * (SCALE as int), cos_q),
            -TRIG_CLAMP as int,
            TRIG_CLAMP as int,
        )
    }
}

/// The y coordinate where the cotangent segment meets the y axis: the
/// cosecant times the radius, clamped the same way.
pub open spec fn spec_cot_end_y(radius_q: int, sin_q: int) -> int {
    if sin_q == 0 {
        TRIG_CLAMP as int
    } else {
        spec_clamp(
            spec_div_trunc(radius_q * (SCALE as int), sin_q),
            -TRIG_CLAMP as int,
            TRIG_CLAMP as int,
        )
    }
}

/// The radius recomputed from the window width: half the width minus the
/// margin, capped at `MAX_RADIUS`.
pub open spec fn spec_new_radius(width_q: int) -> int {
    vstd::math::min(width_q / 2 - RADIUS_MARGIN, MAX_RADIUS as int)
}

/// The state the application starts in: angle zero, the radius at its
/// maximum, the clock running, the pointer not over the pause control.
pub fn initial_state() -> (s: (Theta, Radius, Paused, PauseButtonHovered))
    ensures
        s.0.0 == 0,
        s.0.wf(),
        s.1.0 == MAX_RADIUS,
        s.1.wf(),
        !s.2.0,
        !s.3.0,
{
    (Theta(0), Radius(MAX_RADIUS), Paused(false), PauseButtonHovered(false))
}

/// The angle readout string for the current angle.
pub fn theta_label(theta_q: i64) -> (s: String)
    requires
        -TWO_PI <= theta_q <= TWO_PI,
    ensures
        s@ == spec_theta_label(theta_q as int),
{
    let mut s = String::from_str("θ = ");
    let rad = fmt_fixed3(theta_q);
    s.append(rad.as_str());
    s.append(" = ");
    let deg_q = div_trunc_any(theta_q * (180 * SCALE), PI);
    let deg = fmt_fixed1(deg_q);
    s.append(deg.as_str());
    s.append("°");
    proof {
        reveal_strlit("θ = ");
        reveal_strlit(" = ");
        reveal_strlit("°");
        assert(s@ =~= spec_theta_label(theta_q as int));
    }
    s
}

/// While the clock runs, refreshes the angle readout from the current angle
/// and then advances the angle by the elapsed time, wrapped into
/// `[0, TWO_PI)`. While paused it touches neither: the readout freezes with
/// the angle.
pub fn animate_system(theta: &mut Theta, paused: &Paused, elapsed_q: i64) -> (label: Option<
    ThetaText,
>)
    requires
        old(theta).wf(),
        0 <= elapsed_q <= MAX_ELAPSED,
    ensures
        final(theta).wf(),
        paused.0 ==> *final(theta) == *old(theta) && label is None,
        !paused.0 ==> final(theta).0 == spec_advance(old(theta).0 as int, elapsed_q as int)
            && (label matches Some(t) ==> t.value@ == spec_theta_label(old(theta).0 as int))
            && label is Some,
{
    if paused.0 {
        return None;
    }
    let label = ThetaText { value: theta_label(theta.0) };
    let advance = elapsed_q * ANGULAR_RATE / SCALE;
    theta.0 = wrap(theta.0 + advance, 0, TWO_PI);
    Some(label)
}

/// If the primary button is held and the pointer is not over the pause
/// control, sets the angle to the pointer's angle outright, overriding
/// whatever the clock computed this frame; otherwise leaves it alone.
pub fn mouse_click_system(
    theta: &mut Theta,
    hovered: &PauseButtonHovered,
    pressed: bool,
    angle_q: i64,
)
    requires
        old(theta).wf(),
        -PI <= angle_q <= PI,
    ensures
        final(theta).wf(),
        pressed && !hovered.0 ==> final(theta).0 == angle_q,
        !(pressed && !hovered.0) ==> *final(theta) == *old(theta),
{
    if pressed && !hovered.0 {
        theta.0 = angle_q;
    }
}

/// Records the cursor position translated to window-centered coordinates,
/// for the rendering layer to turn into a pointer angle.
pub fn mouse_update_cursor(
    state: &mut MouseState,
    pos_x: i64,
    pos_y: i64,
    width_q: i64,
    height_q: i64,
)
    requires
        0 <= width_q <= MAX_WINDOW,
        0 <= height_q <= MAX_WINDOW,
        -MAX_WINDOW <= pos_x <= MAX_WINDOW,
        -MAX_WINDOW <= pos_y <= MAX_WINDOW,
    ensures
        final(state).cursor_pos.x == pos_x - width_q / 2,
        final(state).cursor_pos.y == pos_y - height_q / 2,
{
    state.cursor_pos = Point { x: pos_x - width_q / 2, y: pos_y - height_q / 2 };
}

/// One frame's state update, in a fixed order: the clock first, then the
/// mouse override, so that a held button wins regardless of what the clock
/// wrote.
pub fn frame_update(
    theta: &mut Theta,
    paused: &Paused,
    hovered: &PauseButtonHovered,
    elapsed_q: i64,
    pressed: bool,
    angle_q: i64,
) -> (label: Option<ThetaText>)
    requires
        old(theta).wf(),
        0 <= elapsed_q <= MAX_ELAPSED,
        -PI <= angle_q <= PI,
    ensures
        final(theta).wf(),
        pressed && !hovered.0 ==> final(theta).0 == angle_q,
        !(pressed && !hovered.0) && paused.0 ==> *final(theta) == *old(theta),
        !(pressed && !hovered.0) && !paused.0 ==> final(theta).0 == spec_advance(
            old(theta).0 as int,
            elapsed_q as int,
        ),
        paused.0 ==> label is None,
        !paused.0 ==> (label matches Some(t) ==> t.value@ == spec_theta_label(
            old(theta).0 as int,
        )) && label is Some,
{
    let label = animate_system(theta, paused, elapsed_q);
    mouse_click_system(theta, hovered, pressed, angle_q);
    label
}

/// The circle outline for the current radius.
pub fn circle_system(radius: &Radius) -> (c: Circle)
    ensures
        c.radius == radius.0,
{
    Circle { radius: radius.0 }
}

/// The radius vector: from the origin to the point of the circle at the
/// current angle.
pub fn radius_line_system(radius: &Radius, trig: &TrigSample) -> (l: RadiusLine)
    requires
        radius.wf(),
        trig.wf(),
    ensures
        l.start == (Point { x: 0, y: 0 }),
        l.end.x == spec_scale_mul(radius.0 as int, trig.cos_q as int),
        l.end.y == spec_scale_mul(radius.0 as int, trig.sin_q as int),
{
    let x = scale_mul(radius.0, trig.cos_q);
    let y = scale_mul(radius.0, trig.sin_q);
    RadiusLine { start: Point { x: 0, y: 0 }, end: Point { x, y } }
}

/// The cosine segment — the horizontal run at the height of the vector
/// endpoint — and the cosine readout.
pub fn cos_line_system(radius: &Radius, trig: &TrigSample) -> (out: (CosLine, CosText))
    requires
        radius.wf(),
        trig.wf(),
    ensures
        out.0.start.x == 0,
        out.0.start.y == spec_scale_mul(radius.0 as int, trig.sin_q as int),
        out.0.end.x == spec_scale_mul(radius.0 as int, trig.cos_q as int),
        out.0.end.y == spec_scale_mul(radius.0 as int, trig.sin_q as int),
        out.1.value@ == spec_cos_label(trig.cos_q as int),
{
    let x = scale_mul(radius.0, trig.cos_q);
    let y = scale_mul(radius.0, trig.sin_q);
    let mut s = String::from_str("cos θ = ");
    let v = fmt_fixed5(trig.cos_q);
    s.append(v.as_str());
    proof {
        reveal_strlit("cos θ = ");
        assert(s@ =~= spec_cos_label(trig.cos_q as int));
    }
    (CosLine { start: Point { x: 0, y }, end: Point { x, y } }, CosText { value: s })
}

/// The sine segment — the vertical rise at the x of the vector endpoint —
/// and the sine readout.
pub fn sin_line_system(radius: &Radius, trig: &TrigSample) -> (out: (SinLine, SinText))
    requires
        radius.wf(),
        trig.wf(),
    ensures
        out.0.start.x == spec_scale_mul(radius.0 as int, trig.cos_q as int),
        out.0.start.y == 0,
        out.0.end.x == spec_scale_mul(radius.0 as int, trig.cos_q as int),
        out.0.end.y == spec_scale_mul(radius.0 as int, trig.sin_q as int),
        out.1.value@ == spec_sin_label(trig.sin_q as int),
{
    let x = scale_mul(radius.0, trig.cos_q);
    let y = scale_mul(radius.0, trig.sin_q);
    let mut s = String::from_str("sin θ = ");
    let v = fmt_fixed5(trig.sin_q);
    s.append(v.as_str());
    proof {
        reveal_strlit("sin θ = ");
        assert(s@ =~= spec_sin_label(trig.sin_q as int));
    }
    (SinLine { start: Point { x, y: 0 }, end: Point { x, y } }, SinText { value: s })
}

/// The tangent segment — from the vector endpoint to the secant point on
/// the x axis, clamped near the asymptotes — and the tangent readout.
pub fn tan_line_system(radius: &Radius, trig: &TrigSample) -> (out: (TanLine, TanText))
    requires
        radius.wf(),
        trig.wf(),
    ensures
        out.0.start.x == spec_scale_mul(radius.0 as int, trig.cos_q as int),
        out.0.start.y == spec_scale_mul(radius.0 as int, trig.sin_q as int),
        out.0.end.x == spec_tan_end_x(radius.0 as int, trig.cos_q as int),
        out.0.end.y == 0,
        out.1.value@ == spec_tan_label(trig.cos_q as int, trig.sin_q as int),
{
    let x = scale_mul(radius.0, trig.cos_q);
    let y = scale_mul(radius.0, trig.sin_q);
    let mut s = String::from_str("tan θ = ");
    let end_x: i64;
    if trig.cos_q == 0 {
        end_x = TRIG_CLAMP;
        s.append("inf");
    } else {
        let secant_x = div_trunc_any(radius.0 * SCALE, trig.cos_q);
        end_x = clamp(secant_x, -TRIG_CLAMP, TRIG_CLAMP);
        let tan_q = div_trunc_any(trig.sin_q * SCALE, trig.cos_q);
        let v = fmt_fixed5(tan_q);
        s.append(v.as_str());
    }
    proof {
        reveal_strlit("tan θ = ");
        reveal_strlit("inf");
        assert(s@ =~= spec_tan_label(trig.cos_q as int, trig.sin_q as int));
    }
    (TanLine { start: Point { x, y }, end: Point { x: end_x, y: 0 } }, TanText { value: s })
}

/// The cotangent segment — from the vector endpoint to the cosecant point
/// on the y axis, clamped near the asymptotes — and the cotangent readout.
pub fn cot_line_system(radius: &Radius, trig: &TrigSample) -> (out: (CotLine, CotText))
    requires
        radius.wf(),
        trig.wf(),
    ensures
        out.0.start.x == spec_scale_mul(radius.0 as int, trig.cos_q as int),
        out.0.start.y == spec_scale_mul(radius.0 as int, trig.sin_q as int),
        out.0.end.x == 0,
        out.0.end.y == spec_cot_end_y(radius.0 as int, trig.sin_q as int),
        out.1.value@ == spec_cot_label(trig.cos_q as int, trig.sin_q as int),
{
    let x = scale_mul(radius.0, trig.cos_q);
    let y = scale_mul(radius.0, trig.sin_q);
    let body: String;
    let end_y: i64;
    if trig.sin_q == 0 {
        end_y = TRIG_CLAMP;
        body = String::from_str("inf");
    } else {
        let cosecant_y = div_trunc_any(radius.0 * SCALE, trig.sin_q);
        end_y = clamp(cosecant_y, -TRIG_CLAMP, TRIG_CLAMP);
        let cot_q = div_trunc_any(trig.cos_q * SCALE, trig.sin_q);
        body = fmt_fixed5(cot_q);
    }
    let padded = pad12(body);
    let mut s = String::from_str("cot θ = ");
    s.append(padded.as_str());
    proof {
        reveal_strlit("cot θ = ");
        reveal_strlit("inf");
        assert(s@ =~= spec_cot_label(trig.cos_q as int, trig.sin_q as int));
    }
    (CotLine { start: Point { x, y }, end: Point { x: 0, y: end_y } }, CotText { value: s })
}

/// Derives everything visible in one frame from one (radius, trig sample)
/// snapshot: the circle, the five segments and the four trig readouts.
pub fn derive_frame(radius: &Radius, trig: &TrigSample) -> (f: Frame)
    requires
        radius.wf(),
        trig.wf(),
    ensures
        f.circle.radius == radius.0,
        f.radius_line.start == (Point { x: 0, y: 0 }),
        f.radius_line.end.x == spec_scale_mul(radius.0 as int, trig.cos_q as int),
        f.radius_line.end.y == spec_scale_mul(radius.0 as int, trig.sin_q as int),
        f.cos_line.start.x == 0,
        f.cos_line.start.y == spec_scale_mul(radius.0 as int, trig.sin_q as int),
        f.cos_line.end.x == spec_scale_mul(radius.0 as int, trig.cos_q as int),
        f.cos_line.end.y == spec_scale_mul(radius.0 as int, trig.sin_q as int),
        f.sin_line.start.x == spec_scale_mul(radius.0 as int, trig.cos_q as int),
        f.sin_line.start.y == 0,
        f.sin_line.end.x == spec_scale_mul(radius.0 as int, trig.cos_q as int),
        f.sin_line.end.y == spec_scale_mul(radius.0 as int, trig.sin_q as int),
        f.tan_line.start.x == spec_scale_mul(radius.0 as int, trig.cos_q as int),
        f.tan_line.start.y == spec_scale_mul(radius.0 as int, trig.sin_q as int),
        f.tan_line.end.x == spec_tan_end_x(radius.0 as int, trig.cos_q as int),
        f.tan_line.end.y == 0,
        f.cot_line.start.x == spec_scale_mul(radius.0 as int, trig.cos_q as int),
        f.cot_line.start.y == spec_scale_mul(radius.0 as int, trig.sin_q as int),
        f.cot_line.end.x == 0,
        f.cot_line.end.y == spec_cot_end_y(radius.0 as int, trig.sin_q as int),
        f.cos_text.value@ == spec_cos_label(trig.cos_q as int),
        f.sin_text.value@ == spec_sin_label(trig.sin_q as int),
        f.tan_text.value@ == spec_tan_label(trig.cos_q as int, trig.sin_q as int),
        f.cot_text.value@ == spec_cot_label(trig.cos_q as int, trig.sin_q as int),
{
    let circle = circle_system(radius);
    let radius_line = radius_line_system(radius, trig);
    let (cos_line, cos_text) = cos_line_system(radius, trig);
    let (sin_line, sin_text) = sin_line_system(radius, trig);
    let (tan_line, tan_text) = tan_line_system(radius, trig);
    let (cot_line, cot_text) = cot_line_system(radius, trig);
    Frame {
        circle,
        radius_line,
        cos_line,
        sin_line,
        tan_line,
        cot_line,
        cos_text,
        sin_text,
        tan_text,
        cot_text,
    }
}

/// Recomputes the radius from the window width: half the width minus the
/// margin, capped at `MAX_RADIUS`; no floor is put on it.
pub fn resize_circle_system(radius: &mut Radius, width_q: i64)
    requires
        0 <= width_q <= MAX_WINDOW,
    ensures
        final(radius).0 == spec_new_radius(width_q as int),
        final(radius).wf(),
{
    let new_radius = width_q / 2 - RADIUS_MARGIN;
    radius.0 = if new_radius > MAX_RADIUS {
        MAX_RADIUS
    } else {
        new_radius
    };
}

/// Of the window sizes observed since the last frame, the one to act on:
/// the most recent, with the intermediate ones discarded.
pub fn web_resize_system(sizes: &Vec<(i64, i64)>) -> (r: Option<(i64, i64)>)
    ensures
        sizes@.len() == 0 ==> r is None,
        sizes@.len() > 0 ==> r == Some(sizes@.last()),
{
    if sizes.len() == 0 {
        None
    } else {
        Some(sizes[sizes.len() - 1])
    }
}

} // verus!
