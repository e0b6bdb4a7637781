//! The fields that every discovered entity has, and their validation.

use vstd::prelude::*;
use crate::discovery::availability::{Availability, AvailabilityDataInvalidity, AvailabilityMode, availability_invalidities, check_topic};
use crate::discovery::strings::{Name, NameInvalidity, Payload, PayloadInvalidity, Template, TemplateInvalidity, Topic, TopicInvalidity, str_is_empty};
use crate::validation::{finish, flag, reports, ValidationResult};

verus! {

/// Why an entity is not valid.
#[derive(Copy, Clone, Debug, Eq, PartialEq, Structural)]
pub enum EntityInvalidity {
    Availability(AvailabilityDataInvalidity),
    Name(NameInvalidity),
    Payload(PayloadInvalidity),
    Template(TemplateInvalidity),
    Topic(TopicInvalidity),
}

/// The fields common to all entities.
#[derive(Debug)]
pub struct Entity {
    /// MQTT topics subscribed to receive availability (online/offline) updates.
    pub availability: Vec<Availability>,
    /// When `availability` is configured, the conditions needed to set the
    /// entity to available.
    pub availability_mode: AvailabilityMode,
    /// Whether the entity is enabled when first added (by default it is).
    pub enabled_by_default: Option<bool>,
    /// The encoding of payloads (`utf-8` by default; empty to disable decoding).
    pub encoding: Option<String>,
    /// A template to extract the JSON attributes from messages on
    /// `json_attributes_topic`.
    pub json_attributes_template: Option<Template>,
    /// The topic on which a JSON dictionary of attributes is received.
    pub json_attributes_topic: Option<Topic>,
    /// The name of the entity.
    pub name: Option<Name>,
    /// Used instead of `name` to generate the `entity_id`.
    pub object_id: Option<String>,
    /// An id that uniquely identifies the entity.
    pub unique_id: Option<String>,
}

/// The invalidities of a list of availabilities, in order.
pub open spec fn availability_list_invalidities(s: Seq<Availability>) -> Seq<EntityInvalidity>
    decreases s.len(),
{
    if s.len() == 0 {
        Seq::empty()
    } else {
        availability_list_invalidities(s.drop_last()) + availability_invalidities(s.last()).map_values(
            |i: AvailabilityDataInvalidity| EntityInvalidity::Availability(i),
        )
    }
}

/// The invalidities an optional template contributes: `inv` when it is given and empty.
pub open spec fn optional_template_flag<I>(t: Option<Template>, inv: I) -> Seq<I> {
    match t {
        Some(t) => flag(t@.len() == 0, inv),
        None => Seq::empty(),
    }
}

/// The invalidities an optional topic contributes: `inv` when it is given and empty.
pub open spec fn optional_topic_flag<I>(t: Option<Topic>, inv: I) -> Seq<I> {
    match t {
        Some(t) => flag(t@.len() == 0, inv),
        None => Seq::empty(),
    }
}

/// The invalidities an optional name contributes: `inv` when it is given and empty.
pub open spec fn optional_name_flag<I>(n: Option<Name>, inv: I) -> Seq<I> {
    match n {
        Some(n) => flag(n@.len() == 0, inv),
        None => Seq::empty(),
    }
}

/// The invalidities of the common fields of an entity: those of its
/// availabilities in order, then of its attributes template, of its
/// attributes topic and of its name.
pub open spec fn entity_invalidities(e: Entity) -> Seq<EntityInvalidity> {
    availability_list_invalidities(e.availability@)
        + optional_template_flag(e.json_attributes_template, EntityInvalidity::Template(TemplateInvalidity::Empty))
        + optional_topic_flag(e.json_attributes_topic, EntityInvalidity::Topic(TopicInvalidity::Empty))
        + optional_name_flag(e.name, EntityInvalidity::Name(NameInvalidity::Empty))
}

/// Appends `inv` to `found` when `t` is given and empty.
pub fn check_optional_template<I>(found: &mut Vec<I>, t: &Option<Template>, inv: I)
    ensures
        final(found)@ == old(found)@ + optional_template_flag(*t, inv),
{
    match t {
        Some(t) => {
            if str_is_empty(t.as_str()) {
                found.push(inv);
            } else {
                assert(found@ =~= found@ + Seq::<I>::empty());
            }
        },
        None => {
            assert(found@ =~= found@ + Seq::<I>::empty());
        },
    }
}

/// Appends `inv` to `found` when `t` is given and empty.
pub fn check_optional_topic<I>(found: &mut Vec<I>, t: &Option<Topic>, inv: I)
    ensures
        final(found)@ == old(found)@ + optional_topic_flag(*t, inv),
{
    match t {
        Some(t) => {
            check_topic(found, t, inv);
        },
        None => {
            assert(found@ =~= found@ + Seq::<I>::empty());
        },
    }
}

/// Appends `inv` to `found` when `n` is given and empty.
pub fn check_optional_name<I>(found: &mut Vec<I>, n: &Option<Name>, inv: I)
    ensures
        final(found)@ == old(found)@ + optional_name_flag(*n, inv),
{
    match n {
        Some(n) => {
            if str_is_empty(n.as_str()) {
                found.push(inv);
            } else {
                assert(found@ =~= found@ + Seq::<I>::empty());
            }
        },
        None => {
            assert(found@ =~= found@ + Seq::<I>::empty());
        },
    }
}

/// Appends the invalidities of `list` to `found`.
fn check_availability_list(found: &mut Vec<EntityInvalidity>, list: &Vec<Availability>)
    ensures
        final(found)@ == old(found)@ + availability_list_invalidities(list@),
{
    let ghost start = found@;
    let n = list.len();
    let mut i: usize = 0;
    while i < n
        invariant
            n == list.len(),
            i <= n,
            found@ == start + availability_list_invalidities(list@.subrange(0, i as int)),
        decreases n - i,
    {
        let ghost before = found@;
        let mut own: Vec<AvailabilityDataInvalidity> = Vec::new();
        list[i].validate_into(&mut own);
        let m = own.len();
        let mut j: usize = 0;
        while j < m
            invariant
                m == own.len(),
                j <= m,
                found@ == before + own@.subrange(0, j as int).map_values(
                    |x: AvailabilityDataInvalidity| EntityInvalidity::Availability(x),
                ),
            decreases m - j,
        {
            found.push(EntityInvalidity::Availability(own[j]));
            assert(own@.subrange(0, j + 1) =~= own@.subrange(0, j as int).push(own[j as int]));
            j = j + 1;
        }
        assert(own@.subrange(0, m as int) =~= own@);
        assert(own@ =~= availability_invalidities(list@[i as int]));
        let ghost upto = list@.subrange(0, i + 1);
        assert(upto.drop_last() =~= list@.subrange(0, i as int));
        assert(upto.last() == list@[i as int]);
        i = i + 1;
    }
    assert(list@.subrange(0, n as int) =~= list@);
}

impl Entity {
    /// The entity has no availability topic, the default availability mode,
    /// and none of the optional fields.
    pub open spec fn is_blank(&self) -> bool {
        &&& self.availability@.len() == 0
        &&& self.availability_mode == AvailabilityMode::Latest
        &&& self.enabled_by_default is None
        &&& self.encoding is None
        &&& self.json_attributes_template is None
        &&& self.json_attributes_topic is None
        &&& self.name is None
        &&& self.object_id is None
        &&& self.unique_id is None
    }

    /// An entity with no availability topic, the default availability mode,
    /// and none of the optional fields.
    pub fn new() -> (res: Entity)
        ensures
            res.is_blank(),
    {
        Entity {
            availability: Vec::new(),
            availability_mode: AvailabilityMode::Latest,
            enabled_by_default: None,
            encoding: None,
            json_attributes_template: None,
            json_attributes_topic: None,
            name: None,
            object_id: None,
            unique_id: None,
        }
    }

    /// Appends the invalidities of the common fields to `found`.
    pub fn validate_into(&self, found: &mut Vec<EntityInvalidity>)
        ensures
            final(found)@ == old(found)@ + entity_invalidities(*self),
    {
        let ghost start = found@;
        check_availability_list(found, &self.availability);
        check_optional_template(found, &self.json_attributes_template, EntityInvalidity::Template(TemplateInvalidity::Empty));
        check_optional_topic(found, &self.json_attributes_topic, EntityInvalidity::Topic(TopicInvalidity::Empty));
        check_optional_name(found, &self.name, EntityInvalidity::Name(NameInvalidity::Empty));
        assert(found@ =~= start + entity_invalidities(*self));
    }

    /// Checks the availabilities, the attributes template and topic, and the name.
    pub fn validate(&self) -> (res: ValidationResult<EntityInvalidity>)
        ensures
            reports(res, entity_invalidities(*self)),
    {
        let mut found: Vec<EntityInvalidity> = Vec::new();
        self.validate_into(&mut found);
        assert(found@ =~= entity_invalidities(*self));
        finish(found)
    }
}

} // verus!
