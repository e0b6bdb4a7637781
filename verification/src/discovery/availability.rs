//! Availability of an entity: the topics on which it is reported online or
//! offline.

use vstd::prelude::*;
use crate::discovery::strings::{Payload, PayloadInvalidity, Topic, TopicInvalidity};
use crate::validation::{finish, flag, reports, ValidationResult};

verus! {

/// When availability is configured, this controls the conditions needed to
/// set the entity to available.
#[derive(Debug, Clone, Copy, PartialEq, Eq, Structural)]
pub enum AvailabilityMode {
    /// `payload_available` must be received on all configured availability
    /// topics before the entity is marked as online.
    All,
    /// `payload_available` must be received on at least one configured
    /// availability topic before the entity is marked as online.
    Any,
    /// The last `payload_available` or `payload_not_available` received on any
    /// configured availability topic controls the availability. This is the
    /// default mode.
    Latest,
}

impl AvailabilityMode {
    /// Whether this is the default mode, `Latest`.
    pub fn is_default(&self) -> (res: bool)
        ensures
            res == (*self == AvailabilityMode::Latest),
    {
        match self {
            AvailabilityMode::Latest => true,
            _ => false,
        }
    }

    /// The default mode, `Latest`.
    pub fn default() -> (res: AvailabilityMode)
        ensures
            res == AvailabilityMode::Latest,
    {
        AvailabilityMode::Latest
    }
}

/// An MQTT topic subscribed to receive availability (online/offline) updates,
/// with the payloads that mean available and unavailable (`online` and
/// `offline` when not given).
#[derive(Debug)]
pub struct Availability {
    pub topic: Topic,
    pub payload_available: Option<Payload>,
    pub payload_not_available: Option<Payload>,
}

/// Why an [`Availability`] is not valid.
#[derive(Copy, Clone, Debug, Eq, PartialEq, Structural)]
pub enum AvailabilityDataInvalidity {
    Topic(TopicInvalidity),
    PayloadAvailable(PayloadInvalidity),
    PayloadNotAvailable(PayloadInvalidity),
}

/// The invalidities an optional payload contributes, wrapped by `wrap`.
pub open spec fn optional_payload_flag<I>(p: Option<Payload>, wrap: I) -> Seq<I> {
    match p {
        Some(p) => flag(p@.len() == 0, wrap),
        None => Seq::empty(),
    }
}

/// The invalidities of an availability: those of its topic, then those of its
/// available payload, then those of its unavailable payload.
pub open spec fn availability_invalidities(a: Availability) -> Seq<AvailabilityDataInvalidity> {
    flag(a.topic@.len() == 0, AvailabilityDataInvalidity::Topic(TopicInvalidity::Empty))
        + optional_payload_flag(a.payload_available, AvailabilityDataInvalidity::PayloadAvailable(PayloadInvalidity::Empty))
        + optional_payload_flag(a.payload_not_available, AvailabilityDataInvalidity::PayloadNotAvailable(PayloadInvalidity::Empty))
}

/// Appends `inv` to `found` when `t` is empty.
pub fn check_topic<I>(found: &mut Vec<I>, t: &Topic, inv: I)
    ensures
        final(found)@ == old(found)@ + flag(t@.len() == 0, inv),
{
    if crate::discovery::strings::str_is_empty(t.as_str()) {
        found.push(inv);
    } else {
        assert(found@ =~= found@ + Seq::<I>::empty());
    }
}

/// Appends `inv` to `found` when `p` is an empty payload.
pub fn check_optional_payload<I>(found: &mut Vec<I>, p: &Option<Payload>, inv: I)
    ensures
        final(found)@ == old(found)@ + optional_payload_flag(*p, inv),
{
    match p {
        Some(p) => {
            if crate::discovery::strings::str_is_empty(p.as_str()) {
                found.push(inv);
            } else {
                assert(found@ =~= found@ + Seq::<I>::empty());
            }
        },
        None => {
            assert(found@ =~= found@ + Seq::<I>::empty());
        },
    }
}

impl Availability {
    /// An availability on `topic` with the default payloads.
    pub fn new(topic: Topic) -> (res: Availability)
        ensures
            res.topic == topic,
            res.payload_available is None,
            res.payload_not_available is None,
    {
        Availability { topic, payload_available: None, payload_not_available: None }
    }

    /// An availability on `topic` with the given payloads.
    pub fn new_with_payloads(topic: Topic, available_payload: Payload, not_available_payload: Payload) -> (res: Availability)
        ensures
            res.topic == topic,
            res.payload_available == Some(available_payload),
            res.payload_not_available == Some(not_available_payload),
    {
        Availability {
            topic,
            payload_available: Some(available_payload),
            payload_not_available: Some(not_available_payload),
        }
    }

    /// Appends the invalidities of this availability to `found`.
    pub fn validate_into(&self, found: &mut Vec<AvailabilityDataInvalidity>)
        ensures
            final(found)@ == old(found)@ + availability_invalidities(*self),
    {
        let ghost start = found@;
        check_topic(found, &self.topic, AvailabilityDataInvalidity::Topic(TopicInvalidity::Empty));
        check_optional_payload(found, &self.payload_available, AvailabilityDataInvalidity::PayloadAvailable(PayloadInvalidity::Empty));
        check_optional_payload(found, &self.payload_not_available, AvailabilityDataInvalidity::PayloadNotAvailable(PayloadInvalidity::Empty));
        assert(found@ =~= start + availability_invalidities(*self));
    }

    /// Checks that the topic and the payloads given are not empty.
    pub fn validate(&self) -> (res: ValidationResult<AvailabilityDataInvalidity>)
        ensures
            reports(res, availability_invalidities(*self)),
    {
        let mut found: Vec<AvailabilityDataInvalidity> = Vec::new();
        self.validate_into(&mut found);
        assert(found@ =~= availability_invalidities(*self));
        finish(found)
    }
}

} // verus!
