//! The binary sensor, device tracker and switch entities, whose validity is
//! that of their common fields.

use vstd::prelude::*;
use crate::discovery::entity::{Entity, EntityInvalidity, entity_invalidities};
use crate::discovery::source_type::SourceType;
use crate::discovery::strings::{Payload, Template, Topic};
use crate::validation::{finish, reports, ValidationResult};
use crate::discovery::sensor::NonZeroSeconds;

verus! {

/// Why a [`BinarySensor`] is not valid.
pub type BinarySensorInvalidity = EntityInvalidity;

/// Why a [`DeviceTracker`] is not valid.
pub type DeviceTrackerInvalidity = EntityInvalidity;

/// Why a [`Switch`] is not valid.
pub type SwitchInvalidity = EntityInvalidity;

/// The mqtt binary sensor platform uses an MQTT message received to set the
/// binary sensor's state to `on`, `off` or `unknown`.
#[derive(Debug)]
pub struct BinarySensor {
    pub entity: Entity,
    /// The type/class of the sensor, which sets the icon in the frontend.
    pub device_class: Option<String>,
    /// The number of seconds after which the value expires if it is not
    /// updated; never 0.
    pub expire_after: Option<NonZeroSeconds>,
    /// Send update events even if the state has not changed.
    pub force_update: Option<bool>,
    /// For sensors that only send `on`, the delay in seconds after which the
    /// state goes back to `off`; never 0.
    pub off_delay: Option<NonZeroSeconds>,
    /// The payload of the `off` state (`OFF` by default).
    pub payload_off: Option<Payload>,
    /// The payload of the `on` state (`ON` by default).
    pub payload_on: Option<Payload>,
    /// The MQTT topic subscribed to receive sensor values.
    pub state_topic: Topic,
    /// A template that returns a string to compare to the payloads.
    pub value_template: Option<Template>,
}

/// The mqtt device tracker platform discovers device trackers.
#[derive(Debug)]
pub struct DeviceTracker {
    pub entity: Entity,
    /// The payload of the `home` state (`home` by default).
    pub payload_home: Option<Payload>,
    /// The payload of the `not_home` state (`not_home` by default).
    pub payload_not_home: Option<Payload>,
    /// How the device tracker's state is obtained.
    pub source_type: Option<SourceType>,
    /// The MQTT topic subscribed to receive state changes.
    pub state_topic: Topic,
    /// A template that returns a device tracker state.
    pub value_template: Option<Template>,
}

/// The mqtt switch platform lets you control your MQTT enabled switches.
#[derive(Debug)]
pub struct Switch {
    pub entity: Entity,
    /// The MQTT topic to publish commands to change the switch state.
    pub command_topic: Topic,
    /// The type/class of the switch, which sets the icon in the frontend.
    pub device_class: Option<String>,
    /// Whether the switch works in optimistic mode.
    pub optimistic: Option<bool>,
    /// The payload of the `off` state (`OFF` by default).
    pub payload_off: Option<Payload>,
    /// The payload of the `on` state (`ON` by default).
    pub payload_on: Option<Payload>,
    /// Whether the published message has the retain flag (by default it has not).
    pub retain: Option<bool>,
    /// The payload that represents the `off` state in the state topic.
    pub state_off: Option<Payload>,
    /// The payload that represents the `on` state in the state topic.
    pub state_on: Option<Payload>,
    /// The MQTT topic subscribed to receive state updates.
    pub state_topic: Option<Topic>,
    /// A template to extract the device's state from the state topic.
    pub value_template: Option<Template>,
}

impl BinarySensor {
    /// A binary sensor on `state_topic`, with default fields.
    pub fn new(state_topic: Topic) -> (res: BinarySensor)
        ensures
            res.entity.is_blank(),
            res.state_topic == state_topic,
            res.device_class is None,
            res.expire_after is None,
            res.force_update is None,
            res.off_delay is None,
            res.payload_off is None,
            res.payload_on is None,
            res.value_template is None,
    {
        BinarySensor {
            entity: Entity::new(),
            device_class: None,
            expire_after: None,
            force_update: None,
            off_delay: None,
            payload_off: None,
            payload_on: None,
            state_topic,
            value_template: None,
        }
    }

    /// Checks the common fields.
    pub fn validate(&self) -> (res: ValidationResult<BinarySensorInvalidity>)
        ensures
            reports(res, entity_invalidities(self.entity)),
    {
        self.entity.validate()
    }
}

impl DeviceTracker {
    /// A device tracker on `state_topic`, with default fields.
    pub fn new(state_topic: Topic) -> (res: DeviceTracker)
        ensures
            res.entity.is_blank(),
            res.state_topic == state_topic,
            res.payload_home is None,
            res.payload_not_home is None,
            res.source_type is None,
            res.value_template is None,
    {
        DeviceTracker {
            entity: Entity::new(),
            payload_home: None,
            payload_not_home: None,
            source_type: None,
            state_topic,
            value_template: None,
        }
    }

    /// Checks the common fields.
    pub fn validate(&self) -> (res: ValidationResult<DeviceTrackerInvalidity>)
        ensures
            reports(res, entity_invalidities(self.entity)),
    {
        self.entity.validate()
    }
}

impl Switch {
    /// A switch commanded on `command_topic`, with default fields.
    pub fn new(command_topic: Topic) -> (res: Switch)
        ensures
            res.entity.is_blank(),
            res.command_topic == command_topic,
            res.device_class is None,
            res.optimistic is None,
            res.payload_off is None,
            res.payload_on is None,
            res.retain is None,
            res.state_off is None,
            res.state_on is None,
            res.state_topic is None,
            res.value_template is None,
    {
        Switch {
            entity: Entity::new(),
            command_topic,
            device_class: None,
            optimistic: None,
            payload_off: None,
            payload_on: None,
            retain: None,
            state_off: None,
            state_on: None,
            state_topic: None,
            value_template: None,
        }
    }

    /// Checks the common fields.
    pub fn validate(&self) -> (res: ValidationResult<SwitchInvalidity>)
        ensures
            reports(res, entity_invalidities(self.entity)),
    {
        self.entity.validate()
    }
}

} // verus!
