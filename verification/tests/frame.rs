//! Geometry and readouts derived for notable angles.

use trigviz::consts::MAX_RADIUS;
use trigviz::consts::SCALE;
use trigviz::consts::TRIG_CLAMP;
use trigviz::entity::Radius;
use trigviz::entity::TrigSample;
use trigviz::systems::circle_system;
use trigviz::systems::cos_line_system;
use trigviz::systems::cot_line_system;
use trigviz::systems::derive_frame;
use trigviz::systems::radius_line_system;
use trigviz::systems::sin_line_system;
use trigviz::systems::tan_line_system;

// the sample the rendering layer would take at angle zero
fn sample_at_zero() -> TrigSample {
    TrigSample { cos_q: SCALE, sin_q: 0 }
}

// the sample at a quarter turn
fn sample_at_quarter_turn() -> TrigSample {
    TrigSample { cos_q: 0, sin_q: SCALE }
}

#[test]
fn circle_takes_the_current_radius() {
    let c = circle_system(&Radius(13_000_000));
    assert_eq!(c.radius, 13_000_000);
}

#[test]
fn vector_end_at_angle_zero() {
    let l = radius_line_system(&Radius(MAX_RADIUS), &sample_at_zero());
    assert_eq!((l.start.x, l.start.y), (0, 0));
    // vector end (200, 0)
    assert_eq!((l.end.x, l.end.y), (20_000_000, 0));
}

#[test]
fn cos_segment_at_angle_zero() {
    let (l, t) = cos_line_system(&Radius(MAX_RADIUS), &sample_at_zero());
    // ((0, 0), (200, 0))
    assert_eq!((l.start.x, l.start.y), (0, 0));
    assert_eq!((l.end.x, l.end.y), (20_000_000, 0));
    assert_eq!(t.value, "cos θ = 1.00000");
}

#[test]
fn sin_segment_at_angle_zero_is_degenerate() {
    let (l, t) = sin_line_system(&Radius(MAX_RADIUS), &sample_at_zero());
    // ((200, 0), (200, 0)): zero length
    assert_eq!((l.start.x, l.start.y), (20_000_000, 0));
    assert_eq!((l.end.x, l.end.y), (20_000_000, 0));
    assert_eq!(t.value, "sin θ = 0.00000");
}

#[test]
fn tan_segment_and_readout_at_angle_zero() {
    let (l, t) = tan_line_system(&Radius(MAX_RADIUS), &sample_at_zero());
    // secant * radius == 200, so the segment closes on the vector end
    assert_eq!((l.start.x, l.start.y), (20_000_000, 0));
    assert_eq!((l.end.x, l.end.y), (20_000_000, 0));
    assert_eq!(t.value, "tan θ = 0.00000");
}

#[test]
fn cot_is_undefined_at_angle_zero() {
    let (l, t) = cot_line_system(&Radius(MAX_RADIUS), &sample_at_zero());
    // the cosecant diverges: the endpoint takes the clamp bound and the
    // readout shows inf, left-justified in its twelve-character field
    assert_eq!((l.start.x, l.start.y), (20_000_000, 0));
    assert_eq!((l.end.x, l.end.y), (0, TRIG_CLAMP));
    assert_eq!(t.value, "cot θ = inf         ");
}

#[test]
fn vector_end_at_quarter_turn() {
    let l = radius_line_system(&Radius(MAX_RADIUS), &sample_at_quarter_turn());
    // vector end (0, 200)
    assert_eq!((l.end.x, l.end.y), (0, 20_000_000));
}

#[test]
fn cos_readout_at_quarter_turn() {
    let (l, t) = cos_line_system(&Radius(MAX_RADIUS), &sample_at_quarter_turn());
    assert_eq!((l.start.x, l.start.y), (0, 20_000_000));
    assert_eq!((l.end.x, l.end.y), (0, 20_000_000));
    assert_eq!(t.value, "cos θ = 0.00000");
}

#[test]
fn tan_is_undefined_at_quarter_turn() {
    let (l, t) = tan_line_system(&Radius(MAX_RADIUS), &sample_at_quarter_turn());
    // the secant diverges: the endpoint takes the clamp bound
    assert_eq!((l.end.x, l.end.y), (TRIG_CLAMP, 0));
    assert_eq!(t.value, "tan θ = inf");
}

#[test]
fn cot_readout_at_quarter_turn() {
    let (l, t) = cot_line_system(&Radius(MAX_RADIUS), &sample_at_quarter_turn());
    assert_eq!((l.end.x, l.end.y), (0, 20_000_000));
    assert_eq!(t.value, "cot θ = 0.00000     ");
}

#[test]
fn negative_cosine_gives_negative_readout_and_segment() {
    // an angle past a quarter turn: cos == -0.5, sin == 0.86603
    let trig = TrigSample { cos_q: -50_000, sin_q: 86_603 };
    let (l, t) = cos_line_system(&Radius(MAX_RADIUS), &trig);
    assert_eq!(l.start.x, 0);
    assert_eq!(l.end.x, -10_000_000);
    assert_eq!(t.value, "cos θ = -0.50000");
    let (tl, tt) = tan_line_system(&Radius(MAX_RADIUS), &trig);
    // secant * radius == 200 / -0.5 == -400
    assert_eq!((tl.end.x, tl.end.y), (-40_000_000, 0));
    // tan == 0.86603 / -0.5 == -1.73206
    assert_eq!(tt.value, "tan θ = -1.73206");
}

#[test]
fn tiny_cosine_is_clamped_near_the_asymptote() {
    // cos == 0.00001: secant * radius == 2_000_000, far past the bound
    let trig = TrigSample { cos_q: 1, sin_q: SCALE };
    let (l, _) = tan_line_system(&Radius(MAX_RADIUS), &trig);
    assert_eq!(l.end.x, TRIG_CLAMP);
    // and from the other side
    let trig_neg = TrigSample { cos_q: -1, sin_q: SCALE };
    let (ln, _) = tan_line_system(&Radius(MAX_RADIUS), &trig_neg);
    assert_eq!(ln.end.x, -TRIG_CLAMP);
}

#[test]
fn whole_frame_agrees_with_the_single_systems() {
    let radius = Radius(MAX_RADIUS);
    let trig = sample_at_zero();
    let f = derive_frame(&radius, &trig);
    assert_eq!(f.circle, circle_system(&radius));
    assert_eq!(f.radius_line, radius_line_system(&radius, &trig));
    let (cos_line, cos_text) = cos_line_system(&radius, &trig);
    assert_eq!(f.cos_line, cos_line);
    assert_eq!(f.cos_text, cos_text);
    let (tan_line, tan_text) = tan_line_system(&radius, &trig);
    assert_eq!(f.tan_line, tan_line);
    assert_eq!(f.tan_text, tan_text);
    let (cot_line, cot_text) = cot_line_system(&radius, &trig);
    assert_eq!(f.cot_line, cot_line);
    assert_eq!(f.cot_text, cot_text);
}
