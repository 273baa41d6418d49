//! An interactive visualization of the trigonometric functions: a radius
//! vector sweeps a circle while cosine, sine, tangent and cotangent are shown
//! as live line segments with numeric readouts.
//!
//! This crate is the verified core of that picture. All quantities are carried
//! in fixed-point form: an `i64` holding the value times `consts::SCALE`
//! (100 000), which matches the five decimal places of the on-screen readouts.
//! A thin rendering layer samples cosine and sine of the current angle, hands
//! the samples in as fixed-point values, and receives back a complete geometry
//! snapshot and the label strings for one frame.

pub mod consts;
pub mod entity;
pub mod pause_button;
pub mod systems;
pub mod text;
pub mod utils;
