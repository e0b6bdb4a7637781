//! The state of entities and their attributes.

pub mod order;
pub mod attributes;
pub mod entity_state;
pub mod light;
