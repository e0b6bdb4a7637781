//! The MQTT button: pressing it publishes a message.

use vstd::prelude::*;
use crate::discovery::availability::{check_optional_payload, check_topic, optional_payload_flag};
use crate::discovery::entity::{Entity, EntityInvalidity, entity_invalidities, optional_template_flag, check_optional_template};
use crate::discovery::strings::{Payload, PayloadInvalidity, Template, TemplateInvalidity, Topic, TopicInvalidity};
use crate::validation::{finish, flag, reports, ValidationResult};

verus! {

/// The mqtt button platform lets you send an MQTT message when the button is
/// pressed in the frontend or the button press service is called.
#[derive(Debug)]
pub struct Button {
    pub entity: Entity,
    /// A template to generate the payload to send to `command_topic`.
    pub command_template: Option<Template>,
    /// The MQTT topic to publish commands to trigger the button.
    pub command_topic: Topic,
    /// The type/class of the button, which sets the icon in the frontend.
    pub device_class: Option<String>,
    /// The payload to send to trigger the button (`PRESS` by default).
    pub payload_press: Option<Payload>,
    /// Whether the published message has the retain flag (by default it has not).
    pub retain: Option<bool>,
}

/// The invalidities of a button: those of its common fields, then of its
/// command topic, of its command template and of its press payload.
pub open spec fn button_invalidities(b: Button) -> Seq<EntityInvalidity> {
    entity_invalidities(b.entity)
        + flag(b.command_topic@.len() == 0, EntityInvalidity::Topic(TopicInvalidity::Empty))
        + optional_template_flag(b.command_template, EntityInvalidity::Template(TemplateInvalidity::Empty))
        + optional_payload_flag(b.payload_press, EntityInvalidity::Payload(PayloadInvalidity::Empty))
}

impl Button {
    /// A button that publishes on `command_topic`, with default fields.
    pub fn new(command_topic: Topic) -> (res: Button)
        ensures
            res.entity.is_blank(),
            res.command_template is None,
            res.command_topic == command_topic,
            res.device_class is None,
            res.payload_press is None,
            res.retain is None,
    {
        Button {
            entity: Entity::new(),
            command_template: None,
            command_topic,
            device_class: None,
            payload_press: None,
            retain: None,
        }
    }

    /// Checks the common fields, the command topic and template, and the press payload.
    pub fn validate(&self) -> (res: ValidationResult<EntityInvalidity>)
        ensures
            reports(res, button_invalidities(*self)),
    {
        let mut found: Vec<EntityInvalidity> = Vec::new();
        self.entity.validate_into(&mut found);
        check_topic(&mut found, &self.command_topic, EntityInvalidity::Topic(TopicInvalidity::Empty));
        check_optional_template(&mut found, &self.command_template, EntityInvalidity::Template(TemplateInvalidity::Empty));
        check_optional_payload(&mut found, &self.payload_press, EntityInvalidity::Payload(PayloadInvalidity::Empty));
        assert(found@ =~= button_invalidities(*self));
        finish(found)
    }
}

} // verus!
