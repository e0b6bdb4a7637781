//! The MQTT cover (blinds, roller shutters, garage doors).

use vstd::prelude::*;
use crate::discovery::entity::{Entity, EntityInvalidity, entity_invalidities};
use crate::discovery::strings::{Payload, Template, Topic};
use crate::validation::{finish, flag, invalidate_if, lemma_contains_concat, lemma_flag_contains, reports, ValidationResult};

verus! {

/// Why a [`Cover`] is not valid.
#[derive(Copy, Clone, Debug, Eq, PartialEq, Structural)]
pub enum CoverInvalidity {
    Entity(EntityInvalidity),
    StateTopicMissing,
    PositionTopicMissing,
    SetPositionTopicMissing,
    TiltCommandTopicMissing,
    TiltStatusTopicMissing,
}

/// The mqtt cover platform allows you to control an MQTT cover (such as
/// blinds, a roller shutter or a garage door).
#[derive(Debug)]
pub struct Cover {
    pub entity: Entity,
    /// The MQTT topic to publish commands to control the cover.
    pub command_topic: Option<Topic>,
    /// The class of the device, which sets its state and icon in the frontend.
    pub device_class: Option<String>,
    /// Whether the cover works in optimistic mode.
    pub optimistic: Option<bool>,
    /// The command payload that closes the cover (`CLOSE` by default).
    pub payload_close: Option<Payload>,
    /// The command payload that opens the cover (`OPEN` by default).
    pub payload_open: Option<Payload>,
    /// The command payload that stops the cover (`STOP` by default).
    pub payload_stop: Option<Payload>,
    /// The number that represents the closed position (0 by default).
    pub position_closed: Option<u32>,
    /// The number that represents the open position (100 by default).
    pub position_open: Option<u32>,
    /// A template to extract the payload of `position_topic`.
    pub position_template: Option<Template>,
    /// The MQTT topic subscribed to receive cover position messages.
    pub position_topic: Option<Topic>,
    /// Whether published messages have the retain flag (by default they have not).
    pub retain: Option<bool>,
    /// A template for the position sent to `set_position_topic`.
    pub set_position_template: Option<Template>,
    /// The MQTT topic to publish position commands to.
    pub set_position_topic: Option<Topic>,
    /// The payload of the closed state (`closed` by default).
    pub state_closed: Option<Payload>,
    /// The payload of the closing state (`closing` by default).
    pub state_closing: Option<Payload>,
    /// The payload of the open state (`open` by default).
    pub state_open: Option<Payload>,
    /// The payload of the opening state (`opening` by default).
    pub state_opening: Option<Payload>,
    /// The payload of the stopped state (`stopped` by default).
    pub state_stopped: Option<Payload>,
    /// The MQTT topic subscribed to receive cover state messages.
    pub state_topic: Option<Topic>,
    /// The value sent on a close tilt command (0 by default).
    pub tilt_closed_value: Option<u32>,
    /// A template for the payload of `tilt_command_topic`.
    pub tilt_command_template: Option<Template>,
    /// The MQTT topic to publish commands to control the cover tilt.
    pub tilt_command_topic: Option<Topic>,
    /// The maximum tilt value (100 by default).
    pub tilt_max: Option<u32>,
    /// The minimum tilt value (0 by default).
    pub tilt_min: Option<u32>,
    /// The value sent on an open tilt command (100 by default).
    pub tilt_opened_value: Option<u32>,
    /// Whether tilt works in optimistic mode.
    pub tile_optimistic: Option<bool>,
    /// A template to extract the payload of `tilt_status_topic`.
    pub tilt_status_template: Option<Template>,
    /// The MQTT topic subscribed to receive tilt status updates.
    pub tilt_status_topic: Option<Topic>,
    /// A template to extract the payload of `state_topic`.
    pub value_template: Option<Template>,
}

/// The cover-specific invalidities: each template needs the topic it applies to.
pub open spec fn cover_rule_invalidities(c: Cover) -> Seq<CoverInvalidity> {
    flag(c.value_template is Some && c.state_topic is None, CoverInvalidity::StateTopicMissing)
        + flag(c.set_position_topic is Some && c.position_topic is None, CoverInvalidity::PositionTopicMissing)
        + flag(c.position_template is Some && c.position_topic is None, CoverInvalidity::PositionTopicMissing)
        + flag(c.set_position_template is Some && c.set_position_topic is None, CoverInvalidity::SetPositionTopicMissing)
        + flag(c.tilt_command_template is Some && c.tilt_command_topic is None, CoverInvalidity::TiltCommandTopicMissing)
        + flag(c.tilt_status_template is Some && c.tilt_status_topic is None, CoverInvalidity::TiltStatusTopicMissing)
}

/// The invalidities of a cover: those of its common fields, then the
/// cover-specific ones.
pub open spec fn cover_invalidities(c: Cover) -> Seq<CoverInvalidity> {
    entity_invalidities(c.entity).map_values(|i: EntityInvalidity| CoverInvalidity::Entity(i)) + cover_rule_invalidities(c)
}

/// Appends `own`, each wrapped as a cover invalidity, to `found`.
fn push_entity_invalidities(found: &mut Vec<CoverInvalidity>, own: &Vec<EntityInvalidity>)
    ensures
        final(found)@ == old(found)@ + own@.map_values(|i: EntityInvalidity| CoverInvalidity::Entity(i)),
{
    let ghost start = found@;
    let n = own.len();
    let mut j: usize = 0;
    while j < n
        invariant
            n == own.len(),
            j <= n,
            found@ == start + own@.subrange(0, j as int).map_values(|i: EntityInvalidity| CoverInvalidity::Entity(i)),
        decreases n - j,
    {
        found.push(CoverInvalidity::Entity(own[j]));
        assert(own@.subrange(0, j + 1) =~= own@.subrange(0, j as int).push(own[j as int]));
        j = j + 1;
    }
    assert(own@.subrange(0, n as int) =~= own@);
}

impl Cover {
    /// A cover with default fields.
    pub fn new() -> (res: Cover)
        ensures
            res.entity.is_blank(),
            res.command_topic is None,
            res.position_template is None,
            res.position_topic is None,
            res.set_position_template is None,
            res.set_position_topic is None,
            res.state_topic is None,
            res.tilt_command_template is None,
            res.tilt_command_topic is None,
            res.tilt_status_template is None,
            res.tilt_status_topic is None,
            res.value_template is None,
    {
        Cover {
            entity: Entity::new(),
            command_topic: None,
            device_class: None,
            optimistic: None,
            payload_close: None,
            payload_open: None,
            payload_stop: None,
            position_closed: None,
            position_open: None,
            position_template: None,
            position_topic: None,
            retain: None,
            set_position_template: None,
            set_position_topic: None,
            state_closed: None,
            state_closing: None,
            state_open: None,
            state_opening: None,
            state_stopped: None,
            state_topic: None,
            tilt_closed_value: None,
            tilt_command_template: None,
            tilt_command_topic: None,
            tilt_max: None,
            tilt_min: None,
            tilt_opened_value: None,
            tile_optimistic: None,
            tilt_status_template: None,
            tilt_status_topic: None,
            value_template: None,
        }
    }

    /// Appends the cover-specific invalidities to `found`.
    pub fn validate_value(&self, found: &mut Vec<CoverInvalidity>)
        ensures
            final(found)@ == old(found)@ + cover_rule_invalidities(*self),
    {
        let ghost start = found@;
        invalidate_if(found, self.value_template.is_some() && self.state_topic.is_none(), CoverInvalidity::StateTopicMissing);
        invalidate_if(found, self.set_position_topic.is_some() && self.position_topic.is_none(), CoverInvalidity::PositionTopicMissing);
        invalidate_if(found, self.position_template.is_some() && self.position_topic.is_none(), CoverInvalidity::PositionTopicMissing);
        invalidate_if(found, self.set_position_template.is_some() && self.set_position_topic.is_none(), CoverInvalidity::SetPositionTopicMissing);
        invalidate_if(found, self.tilt_command_template.is_some() && self.tilt_command_topic.is_none(), CoverInvalidity::TiltCommandTopicMissing);
        invalidate_if(found, self.tilt_status_template.is_some() && self.tilt_status_topic.is_none(), CoverInvalidity::TiltStatusTopicMissing);
        assert(found@ =~= start + cover_rule_invalidities(*self));
    }

    /// Checks the common fields, then that each template has its topic.
    pub fn validate(&self) -> (res: ValidationResult<CoverInvalidity>)
        ensures
            reports(res, cover_invalidities(*self)),
    {
        let mut own: Vec<EntityInvalidity> = Vec::new();
        self.entity.validate_into(&mut own);
        let mut found: Vec<CoverInvalidity> = Vec::new();
        push_entity_invalidities(&mut found, &own);
        self.validate_value(&mut found);
        assert(found@ =~= cover_invalidities(*self));
        finish(found)
    }
}

/// A cover-specific invalidity is among a cover's invalidities exactly when
/// one of the template rules reports it.
proof fn lemma_rule_contains(c: Cover, x: CoverInvalidity)
    requires
        !(x is Entity),
    ensures
        cover_invalidities(c).contains(x) <==> {
            ||| flag(c.value_template is Some && c.state_topic is None, CoverInvalidity::StateTopicMissing).contains(x)
            ||| flag(c.set_position_topic is Some && c.position_topic is None, CoverInvalidity::PositionTopicMissing).contains(x)
            ||| flag(c.position_template is Some && c.position_topic is None, CoverInvalidity::PositionTopicMissing).contains(x)
            ||| flag(c.set_position_template is Some && c.set_position_topic is None, CoverInvalidity::SetPositionTopicMissing).contains(x)
            ||| flag(c.tilt_command_template is Some && c.tilt_command_topic is None, CoverInvalidity::TiltCommandTopicMissing).contains(x)
            ||| flag(c.tilt_status_template is Some && c.tilt_status_topic is None, CoverInvalidity::TiltStatusTopicMissing).contains(x)
        },
{
    let e = entity_invalidities(c.entity).map_values(|i: EntityInvalidity| CoverInvalidity::Entity(i));
    let f1 = flag(c.value_template is Some && c.state_topic is None, CoverInvalidity::StateTopicMissing);
    let f2 = flag(c.set_position_topic is Some && c.position_topic is None, CoverInvalidity::PositionTopicMissing);
    let f3 = flag(c.position_template is Some && c.position_topic is None, CoverInvalidity::PositionTopicMissing);
    let f4 = flag(c.set_position_template is Some && c.set_position_topic is None, CoverInvalidity::SetPositionTopicMissing);
    let f5 = flag(c.tilt_command_template is Some && c.tilt_command_topic is None, CoverInvalidity::TiltCommandTopicMissing);
    let f6 = flag(c.tilt_status_template is Some && c.tilt_status_topic is None, CoverInvalidity::TiltStatusTopicMissing);
    if e.contains(x) {
        let i = choose|i: int| 0 <= i < e.len() && e[i] == x;
        assert(e[i] is Entity);
    }
    lemma_contains_concat(e, cover_rule_invalidities(c), x);
    lemma_contains_concat(f1 + f2 + f3 + f4 + f5, f6, x);
    lemma_contains_concat(f1 + f2 + f3 + f4, f5, x);
    lemma_contains_concat(f1 + f2 + f3, f4, x);
    lemma_contains_concat(f1 + f2, f3, x);
    lemma_contains_concat(f1, f2, x);
}

/// Each template of a cover needs the topic it applies to: a cover reports a
/// missing state topic exactly when it has a value template and no state
/// topic (so never when its state topic is set), a missing position topic
/// exactly when it has a set-position topic or a position template and no
/// position topic, and likewise for the set-position, tilt command and tilt
/// status topics. A cover is valid exactly when its common fields are and
/// no template lacks its topic.
pub proof fn law_cover_templates_need_topics(c: Cover)
    ensures
        cover_invalidities(c).contains(CoverInvalidity::StateTopicMissing) <==> c.value_template is Some
            && c.state_topic is None,
        cover_invalidities(c).contains(CoverInvalidity::PositionTopicMissing) <==> (c.set_position_topic is Some
            || c.position_template is Some) && c.position_topic is None,
        cover_invalidities(c).contains(CoverInvalidity::SetPositionTopicMissing) <==> c.set_position_template is Some
            && c.set_position_topic is None,
        cover_invalidities(c).contains(CoverInvalidity::TiltCommandTopicMissing) <==> c.tilt_command_template is Some
            && c.tilt_command_topic is None,
        cover_invalidities(c).contains(CoverInvalidity::TiltStatusTopicMissing) <==> c.tilt_status_template is Some
            && c.tilt_status_topic is None,
        cover_invalidities(c).len() == 0 <==> {
            &&& entity_invalidities(c.entity).len() == 0
            &&& !(c.value_template is Some && c.state_topic is None)
            &&& !((c.set_position_topic is Some || c.position_template is Some) && c.position_topic is None)
            &&& !(c.set_position_template is Some && c.set_position_topic is None)
            &&& !(c.tilt_command_template is Some && c.tilt_command_topic is None)
            &&& !(c.tilt_status_template is Some && c.tilt_status_topic is None)
        },
{
    let xs = seq![
        CoverInvalidity::StateTopicMissing,
        CoverInvalidity::PositionTopicMissing,
        CoverInvalidity::SetPositionTopicMissing,
        CoverInvalidity::TiltCommandTopicMissing,
        CoverInvalidity::TiltStatusTopicMissing,
    ];
    assert forall|k: int| 0 <= k < xs.len() implies (cover_invalidities(c).contains(#[trigger] xs[k]) <==> {
        ||| flag(c.value_template is Some && c.state_topic is None, CoverInvalidity::StateTopicMissing).contains(xs[k])
        ||| flag(c.set_position_topic is Some && c.position_topic is None, CoverInvalidity::PositionTopicMissing).contains(xs[k])
        ||| flag(c.position_template is Some && c.position_topic is None, CoverInvalidity::PositionTopicMissing).contains(xs[k])
        ||| flag(c.set_position_template is Some && c.set_position_topic is None, CoverInvalidity::SetPositionTopicMissing).contains(xs[k])
        ||| flag(c.tilt_command_template is Some && c.tilt_command_topic is None, CoverInvalidity::TiltCommandTopicMissing).contains(xs[k])
        ||| flag(c.tilt_status_template is Some && c.tilt_status_topic is None, CoverInvalidity::TiltStatusTopicMissing).contains(xs[k])
    }) by {
        lemma_rule_contains(c, xs[k]);
    }
    assert forall|k: int| 0 <= k < xs.len() implies {
        &&& (flag(c.value_template is Some && c.state_topic is None, CoverInvalidity::StateTopicMissing).contains(#[trigger] xs[k])
            <==> (c.value_template is Some && c.state_topic is None) && CoverInvalidity::StateTopicMissing == xs[k])
        &&& (flag(c.set_position_topic is Some && c.position_topic is None, CoverInvalidity::PositionTopicMissing).contains(xs[k])
            <==> (c.set_position_topic is Some && c.position_topic is None) && CoverInvalidity::PositionTopicMissing == xs[k])
        &&& (flag(c.position_template is Some && c.position_topic is None, CoverInvalidity::PositionTopicMissing).contains(xs[k])
            <==> (c.position_template is Some && c.position_topic is None) && CoverInvalidity::PositionTopicMissing == xs[k])
        &&& (flag(c.set_position_template is Some && c.set_position_topic is None, CoverInvalidity::SetPositionTopicMissing).contains(xs[k])
            <==> (c.set_position_template is Some && c.set_position_topic is None) && CoverInvalidity::SetPositionTopicMissing == xs[k])
        &&& (flag(c.tilt_command_template is Some && c.tilt_command_topic is None, CoverInvalidity::TiltCommandTopicMissing).contains(xs[k])
            <==> (c.tilt_command_template is Some && c.tilt_command_topic is None) && CoverInvalidity::TiltCommandTopicMissing == xs[k])
        &&& (flag(c.tilt_status_template is Some && c.tilt_status_topic is None, CoverInvalidity::TiltStatusTopicMissing).contains(xs[k])
            <==> (c.tilt_status_template is Some && c.tilt_status_topic is None) && CoverInvalidity::TiltStatusTopicMissing == xs[k])
    } by {
        lemma_flag_contains(c.value_template is Some && c.state_topic is None, CoverInvalidity::StateTopicMissing, xs[k]);
        lemma_flag_contains(c.set_position_topic is Some && c.position_topic is None, CoverInvalidity::PositionTopicMissing, xs[k]);
        lemma_flag_contains(c.position_template is Some && c.position_topic is None, CoverInvalidity::PositionTopicMissing, xs[k]);
        lemma_flag_contains(c.set_position_template is Some && c.set_position_topic is None, CoverInvalidity::SetPositionTopicMissing, xs[k]);
        lemma_flag_contains(c.tilt_command_template is Some && c.tilt_command_topic is None, CoverInvalidity::TiltCommandTopicMissing, xs[k]);
        lemma_flag_contains(c.tilt_status_template is Some && c.tilt_status_topic is None, CoverInvalidity::TiltStatusTopicMissing, xs[k]);
    }
    assert(xs[0] == CoverInvalidity::StateTopicMissing);
    assert(xs[1] == CoverInvalidity::PositionTopicMissing);
    assert(xs[2] == CoverInvalidity::SetPositionTopicMissing);
    assert(xs[3] == CoverInvalidity::TiltCommandTopicMissing);
    assert(xs[4] == CoverInvalidity::TiltStatusTopicMissing);
    lemma_flag_contains(c.value_template is Some && c.state_topic is None, CoverInvalidity::StateTopicMissing, xs[0]);
    lemma_flag_contains(c.set_position_topic is Some && c.position_topic is None, CoverInvalidity::PositionTopicMissing, xs[0]);
    lemma_flag_contains(c.position_template is Some && c.position_topic is None, CoverInvalidity::PositionTopicMissing, xs[0]);
    lemma_flag_contains(c.set_position_template is Some && c.set_position_topic is None, CoverInvalidity::SetPositionTopicMissing, xs[0]);
    lemma_flag_contains(c.tilt_command_template is Some && c.tilt_command_topic is None, CoverInvalidity::TiltCommandTopicMissing, xs[0]);
    lemma_flag_contains(c.tilt_status_template is Some && c.tilt_status_topic is None, CoverInvalidity::TiltStatusTopicMissing, xs[0]);
}

} // verus!
