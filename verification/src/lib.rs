//! Rendering of convex rooms joined by portals, on fixed-point coordinates.
//!
//! A scene is a set of convex hulls. A side of a hull is a wall or a portal
//! onto a side of another hull, through which the viewer sees, and walks,
//! into that hull. The library holds what decides a frame and a step:
//!
//! - [`geometry`] and [`intersection`]: a fixed-capacity convex polygon and
//!   the intersection of two of them, by clipping one against each edge of
//!   the other;
//! - [`engine_lib`]: the scene model, the camera, what a wall and a portal
//!   do when they are seen, and what becomes of a camera move that reaches
//!   the boundary of its hull;
//! - [`rendering_lib`]: the breadth-first traversal of the portal graph
//!   that builds the frame of visible triangles.
//!
//! All coordinates, lengths and colours are signed 16.16 fixed-point
//! numbers: see [`fixed`]. Sums and products are formed exactly, a quotient
//! is rounded as its function says, and a result that leaves the range of
//! its type saturates. No function of the library panics.
pub mod engine_lib;
pub mod fixed;
pub mod geometry;
pub mod intersection;
pub mod rendering_lib;
