//! What an MQTT provider (the library that talks to the broker) is told and
//! what it reports.

use vstd::prelude::*;
use crate::mqtt::topics::QosLevel;

verus! {

/// Implemented only by the providers of this library.
pub trait Sealed {}

/// An error a provider reports when it cannot create a message.
pub trait MqttProviderCreateError: Sized {
    /// The error for a message of `kind` that could not be created.
    fn create_message(kind: String) -> Self;
}

/// The provider built on the Eclipse Paho MQTT client.
#[derive(Debug, Clone, Copy)]
pub struct PahoMqtt;

impl Sealed for PahoMqtt {}

/// Why the Paho provider could not connect.
#[derive(Debug)]
pub enum PahoProviderConnectError {
    /// The client could not be created.
    Client,
    /// The broker could not be connected to.
    Connect,
    /// Neither a state nor a cache directory was found.
    StateDir,
    /// The broker's host name could not be resolved.
    ResolveHost { host: String, port: u16 },
    /// A message of the given kind could not be created.
    Message { kind: String },
}

impl PahoProviderConnectError {
    /// The error for a host that could not be resolved.
    pub fn resolve_host(host: &str, port: u16) -> (res: PahoProviderConnectError)
        ensures
            res matches PahoProviderConnectError::ResolveHost { host: h, port: p } && h@ == host@ && p == port,
    {
        PahoProviderConnectError::ResolveHost { host: host.to_owned(), port }
    }
}

impl MqttProviderCreateError for PahoProviderConnectError {
    fn create_message(kind: String) -> (res: PahoProviderConnectError)
        ensures
            res matches PahoProviderConnectError::Message { kind: k } && k == kind,
    {
        PahoProviderConnectError::Message { kind }
    }
}

/// The Paho quality of service code of a level: 0, 1 or 2.
pub fn paho_qos(qos: QosLevel) -> (res: i32)
    ensures
        res == match qos {
            QosLevel::AtMostOnce => 0i32,
            QosLevel::AtLeastOnce => 1i32,
            QosLevel::ExactlyOnce => 2i32,
        },
{
    match qos {
        QosLevel::AtMostOnce => 0,
        QosLevel::AtLeastOnce => 1,
        QosLevel::ExactlyOnce => 2,
    }
}

} // verus!
