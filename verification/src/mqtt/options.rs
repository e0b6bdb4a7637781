//! The options of a Home Assistant MQTT client: the broker connection, the
//! topic prefixes, the node and application identity, and where the MQTT
//! session is persisted.

use vstd::prelude::*;
use std::path::PathBuf;
use crate::mqtt::topics::{slugified, ApplicationName, NodeId, TopicsConfig};

verus! {

/// `std::path::PathBuf`, carried through as an opaque value: nothing is
/// stated of what a path holds.
#[verifier::external_type_specification]
#[verifier::external_body]
pub struct ExPathBuf(PathBuf);

/// `dirs::state_dir`: the user's state directory, if the platform has one and
/// it can be found. What it returns depends on the environment; nothing is
/// stated of it.
#[verifier::external_body]
fn state_dir() -> (res: Option<PathBuf>) {
    dirs::state_dir()
}

/// `dirs::cache_dir`: the user's cache directory, if it can be found. What it
/// returns depends on the environment; nothing is stated of it.
#[verifier::external_body]
fn cache_dir() -> (res: Option<PathBuf>) {
    dirs::cache_dir()
}

/// The default directory for the persistence file: the user's state
/// directory, or else their cache directory.
fn default_dir() -> (res: Option<PathBuf>) {
    match state_dir() {
        Some(d) => Some(d),
        None => cache_dir(),
    }
}

/// Where the MQTT session is persisted.
#[derive(Debug)]
pub enum MqttPersistence {
    /// A file in the user's state directory, or in the cache directory when
    /// there is no state directory.
    Default,
    /// A file in the given directory.
    Directory(PathBuf),
    /// The given file.
    File(PathBuf),
}

/// Neither a state directory nor a cache directory could be found.
#[derive(Debug, Clone, Copy, PartialEq, Eq, Structural)]
pub struct MqttPersistenceError;

impl MqttPersistenceError {
    pub fn new() -> (res: MqttPersistenceError)
        ensures
            res == MqttPersistenceError,
    {
        MqttPersistenceError
    }

    /// The error's message.
    pub fn message(&self) -> (res: &'static str)
        ensures
            res@ == "failed to get state dir"@,
    {
        "failed to get state dir"
    }
}

/// What `Path::join` gives for a directory and a file name.
pub uninterp spec fn joined(dir: PathBuf, file: Seq<char>) -> PathBuf;

/// `Path::join`: the path of `file` in `dir`; the result is a function of the
/// two alone. How the path is spelled is not stated.
#[verifier::external_body]
fn join(dir: &PathBuf, file: &str) -> (res: PathBuf)
    ensures
        res == joined(*dir, file@),
{
    dir.join(file)
}

/// The name of the persistence file of a node of an application:
/// `slug.node.mqtt`.
pub open spec fn persistence_file_name(slug: Seq<char>, node: Seq<char>) -> Seq<char> {
    slug + "."@ + node + ".mqtt"@
}

/// Where the persistence of `persistence` goes, given the default directory
/// that the environment offers (if any).
pub open spec fn persistence_outcome(
    persistence: MqttPersistence,
    slug: Seq<char>,
    node: Seq<char>,
    default_dir: Option<PathBuf>,
    res: Result<PathBuf, MqttPersistenceError>,
) -> bool {
    match persistence {
        MqttPersistence::Default => match default_dir {
            Some(dir) => res == Ok::<PathBuf, MqttPersistenceError>(joined(dir, persistence_file_name(slug, node))),
            None => res is Err,
        },
        MqttPersistence::Directory(dir) => res == Ok::<PathBuf, MqttPersistenceError>(joined(dir, persistence_file_name(slug, node))),
        MqttPersistence::File(file) => res == Ok::<PathBuf, MqttPersistenceError>(file),
    }
}

/// The name of the persistence file of node `node_id` of `application_name`.
pub fn join_persistence_file(application_name: &ApplicationName, node_id: &NodeId) -> (res: String)
    ensures
        res@ == persistence_file_name(application_name.slug_view(), node_id@),
{
    let mut s = application_name.slug().to_owned();
    s.append(".");
    s.append(node_id.as_str());
    s.append(".mqtt");
    s
}

impl MqttPersistence {
    /// The persistence file, given the default directory the environment
    /// offers: the state directory, or else the cache directory.
    pub fn locate(self, application_name: &ApplicationName, node_id: &NodeId, default_dir: Option<PathBuf>) -> (res: Result<PathBuf, MqttPersistenceError>)
        ensures
            persistence_outcome(self, application_name.slug_view(), node_id@, default_dir, res),
    {
        match self {
            MqttPersistence::Default => match default_dir {
                Some(dir) => Ok(join(&dir, join_persistence_file(application_name, node_id).as_str())),
                None => Err(MqttPersistenceError::new()),
            },
            MqttPersistence::Directory(dir) => Ok(join(&dir, join_persistence_file(application_name, node_id).as_str())),
            MqttPersistence::File(file) => Ok(file),
        }
    }

    /// The persistence file: for the default persistence, in the user's state
    /// directory or else their cache directory, which the environment decides.
    pub fn to_path(self, application_name: &ApplicationName, node_id: &NodeId) -> (res: Result<PathBuf, MqttPersistenceError>)
        ensures
            self matches MqttPersistence::Directory(_) ==> persistence_outcome(self, application_name.slug_view(), node_id@, None, res),
            self matches MqttPersistence::File(_) ==> persistence_outcome(self, application_name.slug_view(), node_id@, None, res),
            self matches MqttPersistence::Default ==> exists|dir: Option<PathBuf>|
                persistence_outcome(self, application_name.slug_view(), node_id@, dir, res),
    {
        let dir = match self {
            MqttPersistence::Default => default_dir(),
            _ => None,
        };
        let ghost chosen = dir;
        let res = self.locate(application_name, node_id, dir);
        assert(persistence_outcome(self, application_name.slug_view(), node_id@, chosen, res));
        res
    }
}

/// The user name and password to log in to the broker with.
#[derive(Debug)]
pub struct MqttAuthOptions {
    pub username: String,
    pub password: String,
}

/// How to reach the MQTT broker.
#[derive(Debug)]
pub struct MqttOptions {
    pub host: String,
    pub port: u16,
    pub tls: bool,
    pub auth: Option<MqttAuthOptions>,
    pub persistence: MqttPersistence,
}

impl MqttOptions {
    /// Plain MQTT to `host` on port 1883, without login, with the default persistence.
    pub fn new(host: String) -> (res: MqttOptions)
        ensures
            res.host == host,
            res.port == 1883,
            !res.tls,
            res.auth is None,
            res.persistence is Default,
    {
        MqttOptions { host, port: 1883, tls: false, auth: None, persistence: MqttPersistence::Default }
    }

    /// MQTT over TLS to `host` on port 8883, without login, with the default persistence.
    pub fn new_tls(host: String) -> (res: MqttOptions)
        ensures
            res.host == host,
            res.port == 8883,
            res.tls,
            res.auth is None,
            res.persistence is Default,
    {
        MqttOptions { host, port: 8883, tls: true, auth: None, persistence: MqttPersistence::Default }
    }

    /// Sets the option; returns the options again, so that calls chain.
    pub fn port(&mut self, port: u16) -> (res: &mut MqttOptions)
        ensures
            *res == (MqttOptions { port, ..*old(self) }),
            *final(self) == *final(res),
    {
        self.port = port;
        self
    }

    /// Sets the option; returns the options again, so that calls chain.
    pub fn tls(&mut self, tls: bool) -> (res: &mut MqttOptions)
        ensures
            *res == (MqttOptions { tls, ..*old(self) }),
            *final(self) == *final(res),
    {
        self.tls = tls;
        self
    }

    /// Sets the option; returns the options again, so that calls chain.
    pub fn auth(&mut self, username: String, password: String) -> (res: &mut MqttOptions)
        ensures
            *res == (MqttOptions { auth: Some(MqttAuthOptions { username, password }), ..*old(self) }),
            *final(self) == *final(res),
    {
        self.auth = Some(MqttAuthOptions { username, password });
        self
    }

    /// Sets the option; returns the options again, so that calls chain.
    pub fn persistence_dir(&mut self, dir: PathBuf) -> (res: &mut MqttOptions)
        ensures
            *res == (MqttOptions { persistence: MqttPersistence::Directory(dir), ..*old(self) }),
            *final(self) == *final(res),
    {
        self.persistence = MqttPersistence::Directory(dir);
        self
    }

    /// Sets the option; returns the options again, so that calls chain.
    pub fn persistence_file(&mut self, file: PathBuf) -> (res: &mut MqttOptions)
        ensures
            *res == (MqttOptions { persistence: MqttPersistence::File(file), ..*old(self) }),
            *final(self) == *final(res),
    {
        self.persistence = MqttPersistence::File(file);
        self
    }
}

/// The options of a Home Assistant MQTT client.
#[derive(Debug)]
pub struct HassMqttOptions {
    pub mqtt: MqttOptions,
    pub discovery_prefix: String,
    pub private_prefix: Option<String>,
    pub application_name: ApplicationName,
    pub node_id: NodeId,
}

/// The discovery prefix used unless another is chosen.
pub open spec fn default_discovery_prefix() -> Seq<char> {
    "homeassistant"@
}

/// The node id used unless another is chosen.
pub open spec fn default_node_id() -> Seq<char> {
    "default"@
}

/// The options a provider connects with.
#[derive(Debug)]
pub struct ProviderOptions {
    pub host: String,
    pub persistence: PathBuf,
    pub port: u16,
    pub tls: bool,
    pub auth: Option<MqttAuthOptions>,
}

/// The options could not be turned into provider options.
#[derive(Debug, Clone, Copy, PartialEq, Eq, Structural)]
pub struct MqttOptionsError {
    pub source: MqttPersistenceError,
}

impl MqttOptionsError {
    pub fn new(source: MqttPersistenceError) -> (res: MqttOptionsError)
        ensures
            res.source == source,
    {
        MqttOptionsError { source }
    }

    /// The error's message.
    pub fn message(&self) -> (res: &'static str)
        ensures
            res@ == "failed to convert ot mqtt options"@,
    {
        "failed to convert ot mqtt options"
    }
}

/// What turning `opts` into provider options gives, when the environment
/// offers `dir` as the default directory: the connection settings carried
/// over, and the persistence file placed as [`persistence_outcome`] says.
pub open spec fn provider_outcome(opts: HassMqttOptions, dir: Option<PathBuf>, res: Result<ProviderOptions, MqttOptionsError>) -> bool {
    let persistence = opts.mqtt.persistence;
    let slug = opts.application_name.slug_view();
    let node = opts.node_id@;
    match res {
        Ok(o) => {
            &&& persistence_outcome(persistence, slug, node, dir, Ok(o.persistence))
            &&& o.host == opts.mqtt.host
            &&& o.port == opts.mqtt.port
            &&& o.tls == opts.mqtt.tls
            &&& o.auth == opts.mqtt.auth
        },
        Err(e) => persistence_outcome(persistence, slug, node, dir, Err(e.source)),
    }
}

impl HassMqttOptions {
    /// Options for plain MQTT to `host`, for application `application_name`,
    /// with the default discovery prefix and node id and no private prefix.
    pub fn new(host: String, application_name: String) -> (res: HassMqttOptions)
        ensures
            res.mqtt.host == host,
            res.mqtt.port == 1883,
            !res.mqtt.tls,
            res.mqtt.auth is None,
            res.mqtt.persistence is Default,
            res.discovery_prefix@ == default_discovery_prefix(),
            res.private_prefix is None,
            res.application_name.name() == application_name@,
            res.application_name.slug_view() == slugified(application_name@),
            res.node_id@ == default_node_id(),
    {
        let application_name = ApplicationName::new(application_name);
        HassMqttOptions {
            mqtt: MqttOptions::new(host),
            discovery_prefix: "homeassistant".to_owned(),
            private_prefix: None,
            application_name,
            node_id: NodeId::from_str("default"),
        }
    }

    /// Options for MQTT over TLS to `host`, for application
    /// `application_name`, with the default discovery prefix and node id and
    /// no private prefix.
    pub fn new_tls(host: String, application_name: String) -> (res: HassMqttOptions)
        ensures
            res.mqtt.host == host,
            res.mqtt.port == 8883,
            res.mqtt.tls,
            res.mqtt.auth is None,
            res.mqtt.persistence is Default,
            res.discovery_prefix@ == default_discovery_prefix(),
            res.private_prefix is None,
            res.application_name.name() == application_name@,
            res.application_name.slug_view() == slugified(application_name@),
            res.node_id@ == default_node_id(),
    {
        let application_name = ApplicationName::new(application_name);
        HassMqttOptions {
            mqtt: MqttOptions::new_tls(host),
            discovery_prefix: "homeassistant".to_owned(),
            private_prefix: None,
            application_name,
            node_id: NodeId::from_str("default"),
        }
    }

    pub fn port(self, port: u16) -> (res: HassMqttOptions)
        ensures
            res == (HassMqttOptions { mqtt: MqttOptions { port, ..self.mqtt }, ..self }),
    {
        let mut s = self;
        s.mqtt.port(port);
        s
    }

    pub fn tls(self, tls: bool) -> (res: HassMqttOptions)
        ensures
            res == (HassMqttOptions { mqtt: MqttOptions { tls, ..self.mqtt }, ..self }),
    {
        let mut s = self;
        s.mqtt.tls(tls);
        s
    }

    pub fn auth(self, username: String, password: String) -> (res: HassMqttOptions)
        ensures
            res == (HassMqttOptions { mqtt: MqttOptions { auth: Some(MqttAuthOptions { username, password }), ..self.mqtt }, ..self }),
    {
        let mut s = self;
        s.mqtt.auth(username, password);
        s
    }

    pub fn discovery_prefix(self, discovery_prefix: String) -> (res: HassMqttOptions)
        ensures
            res == (HassMqttOptions { discovery_prefix, ..self }),
    {
        let mut s = self;
        s.discovery_prefix = discovery_prefix;
        s
    }

    pub fn private_prefix(self, private_prefix: String) -> (res: HassMqttOptions)
        ensures
            res == (HassMqttOptions { private_prefix: Some(private_prefix), ..self }),
    {
        let mut s = self;
        s.private_prefix = Some(private_prefix);
        s
    }

    pub fn node_id(self, node_id: String) -> (res: HassMqttOptions)
        ensures
            res.node_id@ == node_id@,
            res == (HassMqttOptions { node_id: res.node_id, ..self }),
    {
        let mut s = self;
        s.node_id = NodeId::new(node_id);
        s
    }

    pub fn persistence_dir(self, dir: PathBuf) -> (res: HassMqttOptions)
        ensures
            res == (HassMqttOptions { mqtt: MqttOptions { persistence: MqttPersistence::Directory(dir), ..self.mqtt }, ..self }),
    {
        let mut s = self;
        s.mqtt.persistence_dir(dir);
        s
    }

    pub fn persistence_file(self, file: PathBuf) -> (res: HassMqttOptions)
        ensures
            res == (HassMqttOptions { mqtt: MqttOptions { persistence: MqttPersistence::File(file), ..self.mqtt }, ..self }),
    {
        let mut s = self;
        s.mqtt.persistence_file(file);
        s
    }

    /// The id the client connects with: `slug_node`.
    pub fn client_id(&self) -> (res: String)
        ensures
            res@ == self.application_name.slug_view() + "_"@ + self.node_id@,
    {
        let mut s = self.application_name.slug().to_owned();
        s.append("_");
        s.append(self.node_id.as_str());
        s
    }

    /// The topics of the node: its private prefix is the one chosen, or else
    /// the application's slug.
    pub fn topics(&self) -> (res: TopicsConfig)
        ensures
            res.private_prefix() == match self.private_prefix {
                Some(p) => p@,
                None => self.application_name.slug_view(),
            },
            res.discovery_prefix() == self.discovery_prefix@,
            res.node() == self.node_id@,
    {
        let private = match &self.private_prefix {
            Some(p) => p.clone(),
            None => self.application_name.slug().to_owned(),
        };
        TopicsConfig::new(private, self.discovery_prefix.clone(), self.node_id.clone())
    }

    /// The provider options, with the persistence file placed given the
    /// default directory that the environment offers.
    pub fn provider_options_in(self, default_dir: Option<PathBuf>) -> (res: Result<ProviderOptions, MqttOptionsError>)
        ensures
            provider_outcome(self, default_dir, res),
    {
        let HassMqttOptions { mqtt, discovery_prefix: _, private_prefix: _, application_name, node_id } = self;
        let MqttOptions { host, port, tls, auth, persistence } = mqtt;
        match persistence.locate(&application_name, &node_id, default_dir) {
            Ok(path) => Ok(ProviderOptions { host, persistence: path, port, tls, auth }),
            Err(e) => Err(MqttOptionsError::new(e)),
        }
    }

    /// The provider options: the persistence file is placed in the user's
    /// state directory or else their cache directory when the default
    /// persistence is chosen, which the environment decides.
    pub fn provider_options(self) -> (res: Result<ProviderOptions, MqttOptionsError>)
        ensures
            exists|dir: Option<PathBuf>| #[trigger] provider_outcome(self, dir, res) && (!(self.mqtt.persistence is Default) ==> dir is None),
    {
        let dir = match self.mqtt.persistence {
            MqttPersistence::Default => default_dir(),
            _ => None,
        };
        let ghost chosen = dir;
        let res = self.provider_options_in(dir);
        assert(!(self.mqtt.persistence is Default) ==> chosen is None);
        res
    }
}

/// Turning options into provider options keeps the connection settings as
/// they are: a successful result has the options' own host, port, TLS flag
/// and credentials. The conversion fails only when the default persistence
/// is chosen and the environment offers no default directory, and a chosen
/// persistence file is used as given.
pub proof fn law_provider_options_keep_settings(
    opts: HassMqttOptions,
    dir: Option<PathBuf>,
    res: Result<ProviderOptions, MqttOptionsError>,
)
    requires
        provider_outcome(opts, dir, res),
    ensures
        res is Ok <==> !(opts.mqtt.persistence is Default && dir is None),
        res matches Ok(o) ==> o.host == opts.mqtt.host && o.port == opts.mqtt.port && o.tls == opts.mqtt.tls
            && o.auth == opts.mqtt.auth,
        match opts.mqtt.persistence {
            MqttPersistence::File(f) => res matches Ok(o) && o.persistence == f,
            _ => true,
        },
{
}

} // verus!
