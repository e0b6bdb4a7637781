//! Home Assistant MQTT integration: discovery documents and their validation,
//! entity state attributes, and the topic, option, routing and command logic
//! of the MQTT client, with their contracts proved by Verus.

pub mod validation;
pub mod args;
pub mod meta;
pub mod derive_input;
pub mod types;
pub mod generate;
pub mod source;
pub mod discovery;
pub mod state;
pub mod mqtt;
