//! The MQTT sensor: the MQTT message payload is the sensor's value.

use vstd::prelude::*;
use crate::discovery::entity::{Entity, EntityInvalidity, entity_invalidities, optional_template_flag, check_optional_template};
use crate::discovery::availability::check_topic;
use crate::discovery::strings::{Template, TemplateInvalidity, Topic, TopicInvalidity};
use crate::validation::{finish, flag, reports, ValidationResult};

verus! {

/// A number of seconds that is never zero.
#[derive(Debug, Clone, Copy, PartialEq, Eq)]
pub struct NonZeroSeconds {
    value: u32,
}

impl NonZeroSeconds {
    #[verifier::type_invariant]
    spec fn not_zero(self) -> bool {
        self.value != 0
    }

    /// The number of seconds.
    pub closed spec fn view(self) -> u32 {
        self.value
    }

    /// `value` seconds, unless `value` is zero.
    pub fn new(value: u32) -> (res: Option<NonZeroSeconds>)
        ensures
            res is Some <==> value != 0,
            res matches Some(n) ==> n@ == value,
    {
        if value == 0 {
            None
        } else {
            Some(NonZeroSeconds { value })
        }
    }

    /// The number of seconds, which is never zero.
    pub fn get(&self) -> (res: u32)
        ensures
            res == self@,
            res != 0,
    {
        proof {
            use_type_invariant(self);
        }
        self.value
    }
}

/// This mqtt sensor platform uses the MQTT message payload as the sensor
/// value. If messages in this `state_topic` are published with the retain
/// flag, the sensor receives an instant update with the last known value.
#[derive(Debug)]
pub struct Sensor {
    pub entity: Entity,
    /// The type/class of the sensor, which sets the icon in the frontend.
    pub device_class: Option<String>,
    /// The number of seconds after which the value expires if it is not
    /// updated; never 0.
    pub expire_after: Option<NonZeroSeconds>,
    /// Send update events even if the value has not changed.
    pub force_update: Option<bool>,
    /// A template to extract the last reset.
    pub last_reset_value_template: Option<Template>,
    /// The state class of the sensor.
    pub state_class: Option<String>,
    /// The MQTT topic subscribed to receive sensor values.
    pub state_topic: Topic,
    /// The unit of measurement of the sensor, if any.
    pub unit_of_measurement: Option<String>,
    /// A template to extract the value.
    pub value_template: Option<Template>,
}

/// The invalidities of a sensor: those of its common fields, then of its last
/// reset template, of its state topic and of its value template.
pub open spec fn sensor_invalidities(s: Sensor) -> Seq<EntityInvalidity> {
    entity_invalidities(s.entity)
        + optional_template_flag(s.last_reset_value_template, EntityInvalidity::Template(TemplateInvalidity::Empty))
        + flag(s.state_topic@.len() == 0, EntityInvalidity::Topic(TopicInvalidity::Empty))
        + optional_template_flag(s.value_template, EntityInvalidity::Template(TemplateInvalidity::Empty))
}

/// Builds a [`Sensor`]; `T` is the type of the state topic set so far (`()`
/// until one is set).
pub struct SensorBuilder<T> {
    pub entity: Entity,
    pub device_class: Option<String>,
    pub expire_after: Option<NonZeroSeconds>,
    pub force_update: Option<bool>,
    pub last_reset_value_template: Option<Template>,
    pub state_class: Option<String>,
    pub state_topic: T,
    pub unit_of_measurement: Option<String>,
    pub value_template: Option<Template>,
}

impl Sensor {
    /// A builder with the default entity fields and none of the optional ones.
    pub fn builder() -> (res: SensorBuilder<()>)
        ensures
            res.entity.is_blank(),
            res.device_class is None,
            res.expire_after is None,
            res.force_update is None,
            res.last_reset_value_template is None,
            res.state_class is None,
            res.unit_of_measurement is None,
            res.value_template is None,
    {
        SensorBuilder {
            entity: Entity::new(),
            device_class: None,
            expire_after: None,
            force_update: None,
            last_reset_value_template: None,
            state_class: None,
            state_topic: (),
            unit_of_measurement: None,
            value_template: None,
        }
    }

    /// Checks the common fields, the templates and the state topic.
    pub fn validate(&self) -> (res: ValidationResult<EntityInvalidity>)
        ensures
            reports(res, sensor_invalidities(*self)),
    {
        let mut found: Vec<EntityInvalidity> = Vec::new();
        self.entity.validate_into(&mut found);
        check_optional_template(&mut found, &self.last_reset_value_template, EntityInvalidity::Template(TemplateInvalidity::Empty));
        check_topic(&mut found, &self.state_topic, EntityInvalidity::Topic(TopicInvalidity::Empty));
        check_optional_template(&mut found, &self.value_template, EntityInvalidity::Template(TemplateInvalidity::Empty));
        assert(found@ =~= sensor_invalidities(*self));
        finish(found)
    }
}

impl<T> SensorBuilder<T> {
    pub fn entity(self, entity: Entity) -> (res: SensorBuilder<T>)
        ensures
            res == (SensorBuilder { entity, ..self }),
    {
        SensorBuilder { entity, ..self }
    }

    pub fn device_class(self, device_class: Option<String>) -> (res: SensorBuilder<T>)
        ensures
            res == (SensorBuilder { device_class, ..self }),
    {
        SensorBuilder { device_class, ..self }
    }

    pub fn expire_after(self, expire_after: Option<NonZeroSeconds>) -> (res: SensorBuilder<T>)
        ensures
            res == (SensorBuilder { expire_after, ..self }),
    {
        SensorBuilder { expire_after, ..self }
    }

    pub fn force_update(self, force_update: Option<bool>) -> (res: SensorBuilder<T>)
        ensures
            res == (SensorBuilder { force_update, ..self }),
    {
        SensorBuilder { force_update, ..self }
    }

    pub fn last_reset_value_template(self, last_reset_value_template: Option<Template>) -> (res: SensorBuilder<T>)
        ensures
            res == (SensorBuilder { last_reset_value_template, ..self }),
    {
        SensorBuilder { last_reset_value_template, ..self }
    }

    pub fn state_class(self, state_class: Option<String>) -> (res: SensorBuilder<T>)
        ensures
            res == (SensorBuilder { state_class, ..self }),
    {
        SensorBuilder { state_class, ..self }
    }

    /// The builder with its state topic set to `state_topic`.
    pub fn state_topic(self, state_topic: Topic) -> (res: SensorBuilder<Topic>)
        ensures
            res.entity == self.entity,
            res.device_class == self.device_class,
            res.expire_after == self.expire_after,
            res.force_update == self.force_update,
            res.last_reset_value_template == self.last_reset_value_template,
            res.state_class == self.state_class,
            res.state_topic == state_topic,
            res.unit_of_measurement == self.unit_of_measurement,
            res.value_template == self.value_template,
    {
        SensorBuilder {
            entity: self.entity,
            device_class: self.device_class,
            expire_after: self.expire_after,
            force_update: self.force_update,
            last_reset_value_template: self.last_reset_value_template,
            state_class: self.state_class,
            state_topic,
            unit_of_measurement: self.unit_of_measurement,
            value_template: self.value_template,
        }
    }

    pub fn unit_of_measurement(self, unit_of_measurement: Option<String>) -> (res: SensorBuilder<T>)
        ensures
            res == (SensorBuilder { unit_of_measurement, ..self }),
    {
        SensorBuilder { unit_of_measurement, ..self }
    }

    pub fn value_template(self, value_template: Option<Template>) -> (res: SensorBuilder<T>)
        ensures
            res == (SensorBuilder { value_template, ..self }),
    {
        SensorBuilder { value_template, ..self }
    }
}

impl SensorBuilder<Topic> {
    /// The sensor with the fields set on the builder.
    pub fn build(self) -> (res: Sensor)
        ensures
            res.entity == self.entity,
            res.device_class == self.device_class,
            res.expire_after == self.expire_after,
            res.force_update == self.force_update,
            res.last_reset_value_template == self.last_reset_value_template,
            res.state_class == self.state_class,
            res.state_topic == self.state_topic,
            res.unit_of_measurement == self.unit_of_measurement,
            res.value_template == self.value_template,
    {
        Sensor {
            entity: self.entity,
            device_class: self.device_class,
            expire_after: self.expire_after,
            force_update: self.force_update,
            last_reset_value_template: self.last_reset_value_template,
            state_class: self.state_class,
            state_topic: self.state_topic,
            unit_of_measurement: self.unit_of_measurement,
            value_template: self.value_template,
        }
    }
}

/// A sensor's empty value template is always reported, and as its last
/// invalidity, since the value template is checked after everything else; a
/// sensor is valid exactly when its common fields are, its state topic is not
/// empty and each template it gives (the value template and the last reset
/// template) is not empty.
pub proof fn law_sensor_templates_checked(s: Sensor)
    ensures
        (s.value_template matches Some(t) && t@.len() == 0) ==> sensor_invalidities(s).len() > 0
            && sensor_invalidities(s).last() == EntityInvalidity::Template(TemplateInvalidity::Empty),
        sensor_invalidities(s).len() == 0 <==> {
            &&& entity_invalidities(s.entity).len() == 0
            &&& s.state_topic@.len() > 0
            &&& (s.value_template matches Some(t) ==> t@.len() > 0)
            &&& (s.last_reset_value_template matches Some(t) ==> t@.len() > 0)
        },
{
    let a = entity_invalidities(s.entity)
        + optional_template_flag(s.last_reset_value_template, EntityInvalidity::Template(TemplateInvalidity::Empty))
        + flag(s.state_topic@.len() == 0, EntityInvalidity::Topic(TopicInvalidity::Empty));
    let b = optional_template_flag(s.value_template, EntityInvalidity::Template(TemplateInvalidity::Empty));
    assert(sensor_invalidities(s) == a + b);
    if s.value_template matches Some(t) && t@.len() == 0 {
        assert(b =~= seq![EntityInvalidity::Template(TemplateInvalidity::Empty)]);
        assert((a + b).last() == b[0]);
    }
}

/// A sensor's invalidities are those of its common fields, followed by one
/// for each failed check of its own, in the order last reset template, state
/// topic, value template: an empty state topic is reported right after the
/// common fields' invalidities and the last reset template's.
pub proof fn law_sensor_check_order(s: Sensor)
    ensures
        ({
            let e = entity_invalidities(s.entity);
            let r = if s.last_reset_value_template matches Some(t) && t@.len() == 0 { 1int } else { 0int };
            let v = if s.value_template matches Some(t) && t@.len() == 0 { 1int } else { 0int };
            let p = if s.state_topic@.len() == 0 { 1int } else { 0int };
            &&& sensor_invalidities(s).len() == e.len() + r + p + v
            &&& sensor_invalidities(s).subrange(0, e.len() as int) == e
            &&& r == 1 ==> sensor_invalidities(s)[e.len() as int] == EntityInvalidity::Template(TemplateInvalidity::Empty)
            &&& p == 1 ==> sensor_invalidities(s)[e.len() + r] == EntityInvalidity::Topic(TopicInvalidity::Empty)
        }),
{
    let e = entity_invalidities(s.entity);
    let f1 = optional_template_flag(s.last_reset_value_template, EntityInvalidity::Template(TemplateInvalidity::Empty));
    let f2 = flag(s.state_topic@.len() == 0, EntityInvalidity::Topic(TopicInvalidity::Empty));
    let f3 = optional_template_flag(s.value_template, EntityInvalidity::Template(TemplateInvalidity::Empty));
    let all = sensor_invalidities(s);
    assert(all == e + f1 + f2 + f3);
    assert(all.subrange(0, e.len() as int) =~= e);
    if s.last_reset_value_template matches Some(t) && t@.len() == 0 {
        assert(f1 =~= seq![EntityInvalidity::Template(TemplateInvalidity::Empty)]);
        assert(all[e.len() as int] == f1[0]);
    }
    if s.state_topic@.len() == 0 {
        assert(f2 =~= seq![EntityInvalidity::Topic(TopicInvalidity::Empty)]);
        assert(all[e.len() + f1.len() as int] == f2[0]);
    }
}

} // verus!
