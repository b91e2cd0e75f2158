//! Core logic of a small real-time shape viewer: the animation phase that
//! advances once per frame and wraps at a full turn, the composition of the
//! per-frame model transform from rotation and scale matrices, the static
//! geometry of the shipped shapes, the fragment shading rules, and the
//! frame-loop state machine that stops ticking once a close request arrives.
//!
//! All scalar quantities are held in fixed point: angles in ten-millionths of
//! a radian, matrix entries and coordinates in millionths of a unit. The
//! windowing and GPU work lives outside this crate and only exchanges plain
//! values with it.

pub mod driver;
pub mod fixed;
pub mod geometry;
pub mod matrix;
pub mod phase;
pub mod shading;
