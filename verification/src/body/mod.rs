//! The body and the records that go with it.

pub mod body;
pub mod body_option;
pub mod body_original;
pub mod body_properties;
