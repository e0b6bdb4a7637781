//! Discovery documents: the entities a node announces to Home Assistant, and
//! the rules they must satisfy.

pub mod strings;
pub mod availability;
pub mod entity;
pub mod sensor;
pub mod button;
pub mod simple_entities;
pub mod cover;
pub mod light;
pub mod source_type;
