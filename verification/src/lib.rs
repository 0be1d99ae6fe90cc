//! A boundary-representation modeling kernel with exact fixed-point geometry.
//!
//! Analytic curves are sampled deterministically under a tolerance bound, face
//! boundaries are assembled into polygon loops, the loops are triangulated and
//! filtered against the true polygon, and the resulting triangles are collected
//! into a deduplicated mesh. Operations that walk the shared object graph run
//! through a per-invocation cache, so every shared sub-object is processed
//! exactly once.
//!
//! All geometry is carried in fixed-point micro-units (one millionth of a model
//! unit), so every computation in this crate is exact integer arithmetic.

pub mod approx;
pub mod delaunay;
pub mod face;
pub mod geometry;
pub mod math;
pub mod objects;
pub mod polygon;
pub mod services;
pub mod merge;
pub mod mesh;
pub mod storage;
pub mod sweep;
pub mod transform;
pub mod trig;
