//! Geometry for plotting a single-variable function: fixed-point
//! coordinates, an affine screen mapping, evenly spaced sampling of a
//! domain, and the line segments that a renderer draws.

pub mod fixed;
pub mod geometry;
pub mod sampling;
pub mod scene;
