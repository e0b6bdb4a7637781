//! Light state. A light's color modes are those of its discovery document.

pub use crate::discovery::light::ColorMode;
