//! The MQTT topics that the client publishes and subscribes to: discovery
//! topics under the discovery prefix, and the node's own topics (availability,
//! entity state and command topics) under its private prefix.

use vstd::prelude::*;
use vstd::string::StringSliceAdditionalSpecFns;

verus! {

/// The characters a slug is made of: `a`-`z`, `0`-`9` and `-`.
pub open spec fn is_slug_char(c: char) -> bool {
    ('a' <= c && c <= 'z') || ('0' <= c && c <= '9') || c == '-'
}

/// A slug: lower-case ASCII letters, digits and single dashes, neither
/// starting nor ending with a dash.
pub open spec fn is_slug(s: Seq<char>) -> bool {
    &&& forall|i: int| 0 <= i < s.len() ==> is_slug_char(#[trigger] s[i])
    &&& s.len() > 0 ==> s[0] != '-' && s[s.len() - 1] != '-'
    &&& forall|i: int| 0 <= i < s.len() - 1 && #[trigger] s[i] == '-' ==> s[i + 1] != '-'
}

/// What `slug::slugify` returns for a string.
pub uninterp spec fn slugified(s: Seq<char>) -> Seq<char>;

/// `slug::slugify`: the slug of `s`, a function of `s` alone; as the crate
/// documents, it is made of `a`-`z`, `0`-`9` and single dashes, and neither
/// starts nor ends with a dash. How characters map to the slug is not stated.
#[verifier::external_body]
fn slugify(s: &str) -> (res: String)
    ensures
        res@ == slugified(s@),
        is_slug(res@),
{
    slug::slugify(s)
}

/// The identity of this client node among the nodes of one application.
#[derive(Debug)]
pub struct NodeId(pub String);

impl Clone for NodeId {
    fn clone(&self) -> (res: NodeId)
        ensures
            res == *self,
    {
        NodeId(self.0.clone())
    }
}

impl View for NodeId {
    type V = Seq<char>;

    open spec fn view(&self) -> Seq<char> {
        self.0@
    }
}

impl NodeId {
    pub fn new(value: String) -> (res: NodeId)
        ensures
            res@ == value@,
    {
        NodeId(value)
    }

    pub fn from_str(value: &str) -> (res: NodeId)
        ensures
            res@ == value@,
    {
        NodeId(value.to_owned())
    }

    /// The node id as text.
    pub fn as_str(&self) -> (res: &str)
        ensures
            res@ == self@,
    {
        self.0.as_str()
    }
}

/// The name of the application, and its slug.
#[derive(Clone, Debug)]
pub struct ApplicationName {
    value: String,
    slug: String,
}

impl ApplicationName {
    /// The name as given.
    pub closed spec fn name(&self) -> Seq<char> {
        self.value@
    }

    /// The slug of the name.
    pub closed spec fn slug_view(&self) -> Seq<char> {
        self.slug@
    }

    pub fn new(value: String) -> (res: ApplicationName)
        ensures
            res.name() == value@,
            res.slug_view() == slugified(value@),
            is_slug(res.slug_view()),
    {
        let slug = slugify(value.as_str());
        ApplicationName { value, slug }
    }

    /// The slug of the name, used in file names and client ids.
    pub fn slug(&self) -> (res: &str)
        ensures
            res@ == self.slug_view(),
            is_slug(res@) <== is_slug(self.slug_view()),
    {
        self.slug.as_str()
    }

    /// The name as given.
    pub fn as_str(&self) -> (res: &str)
        ensures
            res@ == self.name(),
    {
        self.value.as_str()
    }
}

/// `prefix/node/topic`: a topic of the node under a prefix.
pub open spec fn node_topic_of(prefix: Seq<char>, node: Seq<char>, topic: Seq<char>) -> Seq<char> {
    prefix + "/"@ + node + "/"@ + topic
}

/// `prefix/domain/node/entity/config`: where an entity's discovery document is published.
pub open spec fn discovery_topic_of(prefix: Seq<char>, domain: Seq<char>, node: Seq<char>, entity: Seq<char>) -> Seq<char> {
    prefix + "/"@ + domain + "/"@ + node + "/"@ + entity + "/config"@
}

/// `domain/entity/kind` or `domain/entity/kind/name`: an entity topic below the node.
pub open spec fn entity_suffix(domain: Seq<char>, entity: Seq<char>, kind: Seq<char>, name: Option<Seq<char>>) -> Seq<char> {
    match name {
        Some(n) => domain + "/"@ + entity + "/"@ + kind + "/"@ + n,
        None => domain + "/"@ + entity + "/"@ + kind,
    }
}

/// The kind segment of state topics.
pub open spec fn state_kind() -> Seq<char> {
    "state"@
}

/// The kind segment of command topics.
pub open spec fn command_kind() -> Seq<char> {
    "set"@
}

/// Where the topics of a node live.
#[derive(Debug)]
pub struct TopicsConfig {
    private_prefix: String,
    discovery_prefix: String,
    node_id: NodeId,
}

impl Clone for TopicsConfig {
    fn clone(&self) -> (res: TopicsConfig)
        ensures
            res == *self,
    {
        TopicsConfig {
            private_prefix: self.private_prefix.clone(),
            discovery_prefix: self.discovery_prefix.clone(),
            node_id: self.node_id.clone(),
        }
    }
}

/// An outgoing MQTT message.
#[derive(Clone, Debug)]
pub struct OutgoingMessage {
    pub topic: String,
    pub payload: Vec<u8>,
    pub qos: QosLevel,
    pub retain: bool,
}

/// The quality of service of an MQTT message.
#[derive(Clone, Copy, Debug, PartialEq, Eq, Structural)]
pub enum QosLevel {
    AtMostOnce,
    AtLeastOnce,
    ExactlyOnce,
}

/// Appends `/` and then `part` to `s`.
fn push_segment(s: &mut String, part: &str)
    ensures
        final(s)@ == old(s)@ + "/"@ + part@,
{
    s.append("/");
    s.append(part);
}

impl TopicsConfig {
    pub closed spec fn private_prefix(&self) -> Seq<char> {
        self.private_prefix@
    }

    pub closed spec fn discovery_prefix(&self) -> Seq<char> {
        self.discovery_prefix@
    }

    pub closed spec fn node(&self) -> Seq<char> {
        self.node_id@
    }

    pub fn new(private_prefix: String, discovery_prefix: String, node_id: NodeId) -> (res: TopicsConfig)
        ensures
            res.private_prefix() == private_prefix@,
            res.discovery_prefix() == discovery_prefix@,
            res.node() == node_id@,
    {
        TopicsConfig { private_prefix, discovery_prefix, node_id }
    }

    /// Where the discovery document of entity `entity_id` of `domain` is published.
    pub fn discovery_topic(&self, domain: &str, entity_id: &str) -> (res: String)
        ensures
            res@ == discovery_topic_of(self.discovery_prefix(), domain@, self.node(), entity_id@),
    {
        let mut s = self.discovery_prefix.clone();
        push_segment(&mut s, domain);
        push_segment(&mut s, self.node_id.as_str());
        push_segment(&mut s, entity_id);
        s.append("/config");
        proof {
            assert(s@ =~= discovery_topic_of(self.discovery_prefix(), domain@, self.node(), entity_id@));
        }
        s
    }

    /// The topic `topic` of this node.
    pub fn node_topic(&self, topic: &str) -> (res: String)
        ensures
            res@ == node_topic_of(self.private_prefix(), self.node(), topic@),
    {
        let mut s = self.private_prefix.clone();
        push_segment(&mut s, self.node_id.as_str());
        push_segment(&mut s, topic);
        proof {
            assert(s@ =~= node_topic_of(self.private_prefix(), self.node(), topic@));
        }
        s
    }

    /// The topic on which the node's availability is published.
    pub fn available(&self) -> (res: String)
        ensures
            res@ == node_topic_of(self.private_prefix(), self.node(), "available"@),
    {
        self.node_topic("available")
    }

    /// A topic of entity `entity_id` of `domain`, of the given kind, and named
    /// `name` if a name is given.
    pub fn entity_topic(&self, domain: &str, entity_id: &str, kind: &str, name: Option<&str>) -> (res: String)
        ensures
            res@ == node_topic_of(
                self.private_prefix(),
                self.node(),
                entity_suffix(domain@, entity_id@, kind@, match name { Some(n) => Some(n@), None => None }),
            ),
    {
        let mut t = domain.to_owned();
        push_segment(&mut t, entity_id);
        push_segment(&mut t, kind);
        match name {
            Some(n) => {
                push_segment(&mut t, n);
            },
            None => {},
        }
        proof {
            assert(t@ =~= entity_suffix(domain@, entity_id@, kind@, match name { Some(n) => Some(n@), None => None }));
        }
        self.node_topic(t.as_str())
    }

    /// The state topic of an entity, named `name` if a name is given.
    pub fn state_topic(&self, domain: &str, entity_id: &str, name: Option<&str>) -> (res: String)
        ensures
            res@ == node_topic_of(
                self.private_prefix(),
                self.node(),
                entity_suffix(domain@, entity_id@, state_kind(), match name { Some(n) => Some(n@), None => None }),
            ),
    {
        self.entity_topic(domain, entity_id, "state", name)
    }

    /// The command topic of an entity, named `name` if a name is given.
    pub fn command_topic(&self, domain: &str, entity_id: &str, name: Option<&str>) -> (res: String)
        ensures
            res@ == node_topic_of(
                self.private_prefix(),
                self.node(),
                entity_suffix(domain@, entity_id@, command_kind(), match name { Some(n) => Some(n@), None => None }),
            ),
    {
        self.entity_topic(domain, entity_id, "set", name)
    }

    /// The retained message, sent with the highest quality of service, that
    /// marks the node available.
    pub fn online_message(&self) -> (res: OutgoingMessage)
        ensures
            res.topic@ == node_topic_of(self.private_prefix(), self.node(), "available"@),
            res.payload@ == "online".spec_bytes(),
            res.qos == QosLevel::ExactlyOnce,
            res.retain,
    {
        availability_message(self.available().as_str(), "online")
    }

    /// The retained message, sent with the highest quality of service, that
    /// marks the node unavailable.
    pub fn offline_message(&self) -> (res: OutgoingMessage)
        ensures
            res.topic@ == node_topic_of(self.private_prefix(), self.node(), "available"@),
            res.payload@ == "offline".spec_bytes(),
            res.qos == QosLevel::ExactlyOnce,
            res.retain,
    {
        availability_message(self.available().as_str(), "offline")
    }

    /// The topics of entity `entity_id` of `domain`; its discovery topic is
    /// `topic` when one is given.
    pub fn entity(&self, domain: &str, entity_id: &str, topic: Option<String>) -> (res: EntityTopicsConfig)
        ensures
            res.topics() == *self,
            res.domain() == domain@,
            res.entity_id() == entity_id@,
            res.discovery() == match topic {
                Some(t) => t@,
                None => discovery_topic_of(self.discovery_prefix(), domain@, self.node(), entity_id@),
            },
    {
        EntityTopicsConfig::new(self, domain.to_owned(), entity_id.to_owned(), topic)
    }
}

/// A retained message on `topic` with `content`, sent with the highest
/// quality of service.
pub fn availability_message(topic: &str, content: &str) -> (res: OutgoingMessage)
    ensures
        res.topic@ == topic@,
        res.payload@ == content.spec_bytes(),
        res.qos == QosLevel::ExactlyOnce,
        res.retain,
{
    OutgoingMessage { topic: topic.to_owned(), payload: content.as_bytes_vec(), qos: QosLevel::ExactlyOnce, retain: true }
}

/// The topics of one entity.
#[derive(Clone, Debug)]
pub struct EntityTopicsConfig {
    topics: TopicsConfig,
    domain: String,
    entity_id: String,
    discovery_topic: String,
}

/// Which kind of entity topic a [`TopicName`] names.
#[derive(Clone, Copy, Debug, PartialEq, Eq, Structural)]
pub enum TopicKind {
    State,
    Command,
}

/// How the topic of an entity's state or commands is chosen: the default
/// topic of its kind, a named topic of its kind, or a topic given in full.
#[derive(Clone, Debug)]
pub enum TopicName {
    Default,
    Named(String),
    Custom(String),
}

impl EntityTopicsConfig {
    pub closed spec fn topics(&self) -> TopicsConfig {
        self.topics
    }

    pub closed spec fn domain(&self) -> Seq<char> {
        self.domain@
    }

    pub closed spec fn entity_id(&self) -> Seq<char> {
        self.entity_id@
    }

    pub closed spec fn discovery(&self) -> Seq<char> {
        self.discovery_topic@
    }

    /// The topic of `kind` of this entity, named `name` if a name is given.
    pub open spec fn kind_topic(&self, kind: TopicKind, name: Option<Seq<char>>) -> Seq<char> {
        node_topic_of(
            self.topics().private_prefix(),
            self.topics().node(),
            entity_suffix(
                self.domain(),
                self.entity_id(),
                match kind {
                    TopicKind::State => state_kind(),
                    TopicKind::Command => command_kind(),
                },
                name,
            ),
        )
    }

    pub fn new(topics: &TopicsConfig, domain: String, entity_id: String, topic: Option<String>) -> (res: EntityTopicsConfig)
        ensures
            res.topics() == *topics,
            res.domain() == domain@,
            res.entity_id() == entity_id@,
            res.discovery() == match topic {
                Some(t) => t@,
                None => discovery_topic_of(topics.discovery_prefix(), domain@, topics.node(), entity_id@),
            },
    {
        let discovery_topic = match topic {
            Some(t) => t,
            None => topics.discovery_topic(domain.as_str(), entity_id.as_str()),
        };
        EntityTopicsConfig { topics: topics.clone(), domain, entity_id, discovery_topic }
    }

    /// Where the entity's discovery document is published.
    pub fn discovery_topic(&self) -> (res: String)
        ensures
            res@ == self.discovery(),
    {
        self.discovery_topic.clone()
    }

    /// The entity's domain.
    pub fn domain_str(&self) -> (res: &str)
        ensures
            res@ == self.domain(),
    {
        self.domain.as_str()
    }

    /// The entity's id.
    pub fn entity_id_str(&self) -> (res: &str)
        ensures
            res@ == self.entity_id(),
    {
        self.entity_id.as_str()
    }

    /// The entity's state topic, named `name` if a name is given.
    pub fn state_topic(&self, name: Option<&str>) -> (res: String)
        ensures
            res@ == self.kind_topic(TopicKind::State, match name { Some(n) => Some(n@), None => None }),
    {
        self.topics.state_topic(self.domain.as_str(), self.entity_id.as_str(), name)
    }

    /// The entity's command topic, named `name` if a name is given.
    pub fn command_topic(&self, name: Option<&str>) -> (res: String)
        ensures
            res@ == self.kind_topic(TopicKind::Command, match name { Some(n) => Some(n@), None => None }),
    {
        self.topics.command_topic(self.domain.as_str(), self.entity_id.as_str(), name)
    }
}

impl TopicName {
    /// The topic this chooses for an entity's topic of `kind`.
    pub open spec fn chosen(self, entity: EntityTopicsConfig, kind: TopicKind) -> Seq<char> {
        match self {
            TopicName::Default => entity.kind_topic(kind, None),
            TopicName::Named(n) => entity.kind_topic(kind, Some(n@)),
            TopicName::Custom(t) => t@,
        }
    }

    /// The topic this chooses for `entity`'s topic of `kind`.
    pub fn get(self, entity: &EntityTopicsConfig, kind: TopicKind) -> (res: String)
        ensures
            res@ == self.chosen(*entity, kind),
    {
        match self {
            TopicName::Default => match kind {
                TopicKind::State => entity.state_topic(None),
                TopicKind::Command => entity.command_topic(None),
            },
            TopicName::Named(name) => match kind {
                TopicKind::State => entity.state_topic(Some(name.as_str())),
                TopicKind::Command => entity.command_topic(Some(name.as_str())),
            },
            TopicName::Custom(topic) => topic,
        }
    }
}

/// The state topics and the command topics of an entity never coincide,
/// whatever names they are given.
pub proof fn law_state_and_command_topics_differ(entity: EntityTopicsConfig, state_name: Option<Seq<char>>, command_name: Option<Seq<char>>)
    ensures
        entity.kind_topic(TopicKind::State, state_name) != entity.kind_topic(TopicKind::Command, command_name),
{
    reveal_strlit("/");
    reveal_strlit("state");
    reveal_strlit("set");
    let t = entity.topics();
    let base = t.private_prefix() + "/"@ + t.node() + "/"@ + entity.domain() + "/"@ + entity.entity_id() + "/"@;
    let a = entity.kind_topic(TopicKind::State, state_name);
    let b = entity.kind_topic(TopicKind::Command, command_name);
    let sa = match state_name { Some(n) => "/"@ + n, None => Seq::empty() };
    let sb = match command_name { Some(n) => "/"@ + n, None => Seq::empty() };
    assert(a =~= base + "state"@ + sa);
    assert(b =~= base + "set"@ + sb);
    let i = base.len() + 1int;
    assert(a[i] == 't');
    assert(b[i] == 'e');
}

/// Topics of one kind of an entity that are given different names are
/// different, and differ from the topic of that kind that has no name.
pub proof fn law_named_topics_distinct(entity: EntityTopicsConfig, kind: TopicKind, a: Seq<char>, b: Seq<char>)
    ensures
        a != b ==> entity.kind_topic(kind, Some(a)) != entity.kind_topic(kind, Some(b)),
        entity.kind_topic(kind, Some(a)) != entity.kind_topic(kind, None),
{
    reveal_strlit("/");
    let t = entity.topics();
    let k = match kind { TopicKind::State => state_kind(), TopicKind::Command => command_kind() };
    let base = t.private_prefix() + "/"@ + t.node() + "/"@ + entity.domain() + "/"@ + entity.entity_id() + "/"@ + k;
    let ta = entity.kind_topic(kind, Some(a));
    let tb = entity.kind_topic(kind, Some(b));
    assert(ta =~= base + "/"@ + a);
    assert(tb =~= base + "/"@ + b);
    assert(entity.kind_topic(kind, None) =~= base);
    if a != b && ta == tb {
        assert(a =~= ta.subrange(base.len() + 1int, ta.len() as int));
        assert(b =~= tb.subrange(base.len() + 1int, tb.len() as int));
    }
}

/// Every topic of an entity lies below the node's own prefix, `private/node/`.
pub proof fn law_entity_topics_under_node(entity: EntityTopicsConfig, kind: TopicKind, name: Option<Seq<char>>)
    ensures
        ({
            let t = entity.topics();
            let root = t.private_prefix() + "/"@ + t.node() + "/"@;
            entity.kind_topic(kind, name).subrange(0, root.len() as int) == root
        }),
{
    let t = entity.topics();
    let root = t.private_prefix() + "/"@ + t.node() + "/"@;
    let k = match kind { TopicKind::State => state_kind(), TopicKind::Command => command_kind() };
    let suffix = entity_suffix(entity.domain(), entity.entity_id(), k, name);
    assert(entity.kind_topic(kind, name) =~= root + suffix);
    assert((root + suffix).subrange(0, root.len() as int) =~= root);
}

/// A custom topic is used exactly as given, for a state topic as for a
/// command topic and whatever the entity: it never depends on the entity or
/// on the kind of topic.
pub proof fn law_custom_topic_as_given(
    t: String,
    entity: EntityTopicsConfig,
    kind: TopicKind,
    other_entity: EntityTopicsConfig,
    other_kind: TopicKind,
)
    ensures
        TopicName::Custom(t).chosen(entity, kind) == t@,
        TopicName::Custom(t).chosen(entity, kind) == TopicName::Custom(t).chosen(other_entity, other_kind),
{
}

/// The default and named topics of an entity follow the node's layout:
/// the default topic of a kind is `private/node/domain/entity/kind`, where the
/// kind segment is `state` for state topics and `set` for command topics, and
/// a named topic adds `/name` to it.
pub proof fn law_chosen_topic_layout(entity: EntityTopicsConfig, kind: TopicKind, n: String)
    ensures
        ({
            let t = entity.topics();
            let k = match kind {
                TopicKind::State => "state"@,
                TopicKind::Command => "set"@,
            };
            let base = t.private_prefix() + "/"@ + t.node() + "/"@ + entity.domain() + "/"@ + entity.entity_id() + "/"@ + k;
            &&& TopicName::Default.chosen(entity, kind) == base
            &&& TopicName::Named(n).chosen(entity, kind) == base + "/"@ + n@
        }),
{
    let t = entity.topics();
    let k = match kind {
        TopicKind::State => "state"@,
        TopicKind::Command => "set"@,
    };
    let base = t.private_prefix() + "/"@ + t.node() + "/"@ + entity.domain() + "/"@ + entity.entity_id() + "/"@ + k;
    assert(TopicName::Default.chosen(entity, kind) =~= base);
    assert(TopicName::Named(n).chosen(entity, kind) =~= base + "/"@ + n@);
}

} // verus!
