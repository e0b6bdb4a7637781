//! The MQTT client: topics, options, routing of received messages, and the
//! client's decisions.

pub mod topics;
pub mod options;
pub mod router;
pub mod rand;
pub mod client;
pub mod provider;
pub mod tracking;
