//! A small library for comparing value-smoothing (damping/easing) rules:
//! a closed set of update functions that move a scalar toward a target over
//! a time step, together with a simulator that runs them either live (one
//! step per observed frame) or in a deterministic batch at a fixed frame
//! rate, so that frame-rate dependence of the naive rules becomes visible.
//!
//! Scalars are carried in binary fixed point (see [`fixed`]), which keeps
//! every update rule exact and lets its laws be stated and proved.

pub mod fixed;
pub mod history;
pub mod simulator;
pub mod smoothing;
