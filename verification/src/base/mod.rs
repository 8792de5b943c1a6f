//! Small value types shared by the geometry and by the body.

pub mod collision_filter;
pub mod common;
pub mod constraint_impulse;
pub mod force;
pub mod position;
pub mod render;
pub mod sprite;
pub mod velocity;
pub mod xy;
