//! Polygons and what is derived from them.

pub mod axes;
pub mod bounds;
pub mod convex;
pub mod hull;
pub mod order;
pub mod sort;
pub mod vector;
pub mod vertex;
pub mod vertices;
