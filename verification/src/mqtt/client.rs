//! The decisions of the MQTT client: which topics an entity gets, what a
//! publish command sends, which subscriptions need the broker, which handlers
//! a received message goes to, and when a topic is unsubscribed from.
//!
//! The client's event loop (receiving commands and messages, talking to the
//! broker, sending to handler channels) performs the actions these functions
//! decide and hands back what came of them.

use vstd::prelude::*;
use crate::mqtt::router::{Match, RouteId, Router, RouterEntry, RouterView};
use crate::mqtt::topics::{ApplicationName, EntityTopicsConfig, OutgoingMessage, QosLevel, TopicsConfig};

verus! {

/// A message received on a subscribed topic.
#[derive(Debug)]
pub struct Message {
    pub topic: String,
    pub payload: Vec<u8>,
    pub retained: bool,
}

impl Message {
    /// The topic the message was received on.
    pub fn topic(&self) -> (res: &str)
        ensures
            res@ == self.topic@,
    {
        self.topic.as_str()
    }

    /// The message's payload.
    pub fn payload(&self) -> (res: &[u8])
        ensures
            res@ == self.payload@,
    {
        self.payload.as_slice()
    }

    /// Whether the message was retained by the broker.
    pub fn retained(&self) -> (res: bool)
        ensures
            res == self.retained,
    {
        self.retained
    }
}

/// Ask for the topics of an entity.
#[derive(Debug)]
pub struct EntityCommand {
    pub domain: String,
    pub entity_id: String,
    pub topic: Option<String>,
}

/// Publish a message.
#[derive(Debug)]
pub struct PublishCommand {
    pub topic: String,
    pub payload: Vec<u8>,
    pub retained: bool,
    pub qos: QosLevel,
}

/// Subscribe to a topic.
#[derive(Debug)]
pub struct SubscribeCommand {
    pub topic: String,
    pub qos: QosLevel,
}

impl EntityCommand {
    pub fn new(domain: String, entity_id: String, topic: Option<String>) -> (res: EntityCommand)
        ensures
            res == (EntityCommand { domain, entity_id, topic }),
    {
        EntityCommand { domain, entity_id, topic }
    }

    /// The entity's topics under the client's topic configuration.
    pub fn run(&self, topics: &TopicsConfig) -> (res: EntityTopicsConfig)
        ensures
            res.topics() == *topics,
            res.domain() == self.domain@,
            res.entity_id() == self.entity_id@,
            res.discovery() == match self.topic {
                Some(t) => t@,
                None => crate::mqtt::topics::discovery_topic_of(topics.discovery_prefix(), self.domain@, topics.node(), self.entity_id@),
            },
    {
        let topic = match &self.topic {
            Some(t) => Some(t.clone()),
            None => None,
        };
        topics.entity(self.domain.as_str(), self.entity_id.as_str(), topic)
    }
}

impl PublishCommand {
    pub fn new(topic: String, payload: Vec<u8>, retained: bool, qos: QosLevel) -> (res: PublishCommand)
        ensures
            res == (PublishCommand { topic, payload, retained, qos }),
    {
        PublishCommand { topic, payload, retained, qos }
    }

    /// The message this command publishes.
    pub fn message(&self) -> (res: OutgoingMessage)
        ensures
            res.topic@ == self.topic@,
            res.payload@ == self.payload@,
            res.qos == self.qos,
            res.retain == self.retained,
    {
        OutgoingMessage { topic: self.topic.clone(), payload: self.payload.clone(), qos: self.qos, retain: self.retained }
    }
}

impl SubscribeCommand {
    pub fn new(topic: String, qos: QosLevel) -> (res: SubscribeCommand)
        ensures
            res == (SubscribeCommand { topic, qos }),
    {
        SubscribeCommand { topic, qos }
    }
}

/// A command asking for the topics of entity `entity_id` of `domain`.
pub fn entity(domain: String, entity_id: String, topic: Option<String>) -> (res: EntityCommand)
    ensures
        res == (EntityCommand { domain, entity_id, topic }),
{
    EntityCommand::new(domain, entity_id, topic)
}

/// A command publishing `payload` on `topic`.
pub fn publish(topic: String, payload: Vec<u8>, retained: bool, qos: QosLevel) -> (res: PublishCommand)
    ensures
        res == (PublishCommand { topic, payload, retained, qos }),
{
    PublishCommand::new(topic, payload, retained, qos)
}

/// A command subscribing to `topic`.
pub fn subscribe(topic: String, qos: QosLevel) -> (res: SubscribeCommand)
    ensures
        res == (SubscribeCommand { topic, qos }),
{
    SubscribeCommand::new(topic, qos)
}

/// The name of the thread that runs the client: `mqtt-<slug>-hass`, with the
/// slug of the application name.
pub fn client_thread_name(application_name: &ApplicationName) -> (res: String)
    ensures
        res@ == "mqtt-"@ + application_name.slug_view() + "-hass"@,
{
    let name = "mqtt-".to_owned();
    let name = name.concat(application_name.slug());
    name.concat("-hass")
}

/// What to do to subscribe a handler to a topic.
#[derive(Debug, Clone, Copy, PartialEq, Eq)]
pub enum SubscribeStep {
    /// The topic was already subscribed to; the handler is registered under
    /// this identity.
    Registered(RouteId),
    /// The topic must first be subscribed to at the broker; then call
    /// [`ClientCore::complete_subscription`] with the key the broker returned.
    SubscribeAtBroker,
}

/// The client's routing state and topic configuration.
pub struct ClientCore {
    pub topics: TopicsConfig,
    pub router: Router,
}

impl ClientCore {
    /// A client with no subscription.
    pub fn new(topics: TopicsConfig) -> (res: ClientCore)
        ensures
            res.topics == topics,
            res.router.wf(),
            res.router.view() == RouterView::empty(),
    {
        ClientCore { topics, router: Router::new() }
    }

    /// The first step of subscribing `handler` to `topic`: when the topic
    /// already has handlers the new one joins them, otherwise the broker
    /// subscription must be made first and nothing changes yet.
    pub fn subscribe(&mut self, topic: String, handler: u64) -> (res: SubscribeStep)
        requires
            old(self).router.wf(),
        ensures
            final(self).router.wf(),
            final(self).topics == old(self).topics,
            match res {
                SubscribeStep::Registered(id) => {
                    &&& old(self).router.view().routes.dom().contains(topic@)
                    &&& !old(self).router.view().handlers.dom().contains(id)
                    &&& final(self).router.view() == old(self).router.view().add_handler(topic@, id, handler)
                },
                SubscribeStep::SubscribeAtBroker => {
                    &&& !old(self).router.view().routes.dom().contains(topic@)
                    &&& final(self).router.view() == old(self).router.view()
                },
            },
    {
        match self.router.entry(topic) {
            RouterEntry::Occupied(e) => SubscribeStep::Registered(e.insert(handler)),
            RouterEntry::Vacant(_) => SubscribeStep::SubscribeAtBroker,
        }
    }

    /// The second step of subscribing `handler` to `topic`, once the broker
    /// subscription returned `key`: the topic's route is created with it.
    pub fn complete_subscription(&mut self, topic: String, key: u64, handler: u64) -> (res: RouteId)
        requires
            old(self).router.wf(),
        ensures
            final(self).router.wf(),
            final(self).topics == old(self).topics,
            !old(self).router.view().routes.dom().contains(topic@) ==> {
                &&& !old(self).router.view().handlers.dom().contains(res)
                &&& final(self).router.view() == old(self).router.view().add_route(topic@, key, res, handler)
            },
            old(self).router.view().routes.dom().contains(topic@) ==> {
                &&& !old(self).router.view().handlers.dom().contains(res)
                &&& final(self).router.view() == old(self).router.view().add_handler(topic@, res, handler)
            },
    {
        match self.router.entry(topic) {
            RouterEntry::Occupied(e) => e.insert(handler),
            RouterEntry::Vacant(e) => e.insert(key, handler),
        }
    }

    /// A subscription was dropped: its handler is removed, and when it was the
    /// last on its topic the broker key to unsubscribe with is returned.
    pub fn unsubscribe(&mut self, id: RouteId) -> (res: Option<u64>)
        requires
            old(self).router.wf(),
        ensures
            final(self).router.wf(),
            final(self).topics == old(self).topics,
            final(self).router.view() == old(self).router.view().remove_handler(id),
            res == match old(self).router.view().removal(id) {
                Some((_, key)) => key,
                None => None,
            },
    {
        match self.router.remove(id) {
            Some((_, key)) => key,
            None => None,
        }
    }

    /// The handlers a message received on `topic` is delivered to, in order.
    pub fn deliver(&self, topic: &str) -> (res: Vec<Match>)
        requires
            self.router.wf(),
        ensures
            res@.len() == self.router.view().matching(topic@).len(),
            forall|k: int|
                0 <= k < res@.len() ==> {
                    &&& (#[trigger] res@[k]).id == self.router.view().matching(topic@)[k]
                    &&& res@[k].value == self.router.view().handlers[res@[k].id].1
                },
    {
        self.router.matches(topic)
    }

    /// Removes the handlers whose channel is closed, in order.
    pub fn drop_failed(&mut self, failed: &Vec<RouteId>)
        requires
            old(self).router.wf(),
        ensures
            final(self).router.wf(),
            final(self).topics == old(self).topics,
            final(self).router.view() == removed_all(old(self).router.view(), failed@),
    {
        let n = failed.len();
        let mut i: usize = 0;
        while i < n
            invariant
                n == failed.len(),
                i <= n,
                self.router.wf(),
                self.topics == old(self).topics,
                self.router.view() == removed_all(old(self).router.view(), failed@.subrange(0, i as int)),
            decreases n - i,
        {
            self.router.remove(failed[i]);
            assert(failed@.subrange(0, i + 1).drop_last() =~= failed@.subrange(0, i as int));
            i = i + 1;
        }
        assert(failed@.subrange(0, n as int) =~= failed@);
    }
}

/// The router after the handlers `ids` are removed one after the other.
pub open spec fn removed_all(v: RouterView, ids: Seq<RouteId>) -> RouterView
    decreases ids.len(),
{
    if ids.len() == 0 {
        v
    } else {
        removed_all(v, ids.drop_last()).remove_handler(ids.last())
    }
}

} // verus!
