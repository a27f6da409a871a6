//! A grid raycaster in exact integer arithmetic.
//!
//! A ray starts at an integer point and runs along an integer direction vector.
//! It is marched separately across horizontal and across vertical grid lines,
//! and the nearer stopping point wins. Angles are counted in tenths of a degree.
//! Turning an angle into a direction vector is left to the caller.
pub mod angle;
pub mod arith;
pub mod cast;
pub mod grid;
pub mod render;
pub mod viewpoint;
