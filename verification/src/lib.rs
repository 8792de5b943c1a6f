//! The exact core of a 2D rigid-body engine.
//!
//! A body is a polygon with a mass. It moves, turns, is made of parts, and
//! can be frozen in place. This library keeps the record of a body, of the
//! polygon that is its shape and of what is derived from the polygon, and it
//! makes every decision that the engine has to make about them: which way a
//! polygon turns, which normals are one axis, what box holds a polygon, which
//! corners a convex hull keeps, in which order corners stand, what a path
//! holds, what freezing does to a body and what setting it free brings back.
//!
//! Numbers are binary64 numbers carried by their bit patterns ([`scalar`]).
//! The library stores them, compares them and flips their signs, all of
//! which is exact. It never rounds: sums, products, roots and angles are
//! worked out by the caller and handed in. Where a decision turns on such a
//! number in the middle of an algorithm, the algorithm is a machine that
//! asks for the number and goes on with the answer ([`geometry::hull`],
//! [`geometry::sort`]).
//!
//! - [`scalar`]: numbers, their order and their signs.
//! - [`base`]: coordinate pairs and the small records that a body holds.
//! - [`geometry`]: vertices, axes, bounds, the orders of corners, the hull,
//!   and what the hull keeps of a convex polygon.
//! - [`body`]: the body, its parts and its frozen state.

pub mod base;
pub mod body;
pub mod geometry;
pub mod scalar;
