//! Thrust allocation and attitude stabilisation for a four-engine flying
//! vehicle, in fixed-point arithmetic.
//!
//! Units used throughout:
//! - forces and torques in micro-newtons (`i64`),
//! - gravity in millimetres per second squared, masses in grams,
//! - ratios (a cosine, a component of a unit direction) in millionths,
//! - pilot input axes in thousandths of full deflection.
pub mod fixed;
pub mod estimator;
pub mod thrusts;
pub mod input;
pub mod mixer;
pub mod engine;
pub mod applicator;
pub mod controller;
pub mod laws;
