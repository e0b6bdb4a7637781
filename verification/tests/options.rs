use std::path::PathBuf;
use hass_mqtt::mqtt::options::{HassMqttOptions, MqttOptions, MqttPersistence, MqttPersistenceError};
use hass_mqtt::mqtt::topics::{ApplicationName, NodeId};

#[test]
fn options_defaults() {
    let o = HassMqttOptions::new("broker".to_string(), "My App".to_string());
    assert_eq!(o.mqtt.host, "broker");
    assert_eq!(o.mqtt.port, 1883);
    assert!(!o.mqtt.tls);
    assert!(o.mqtt.auth.is_none());
    assert!(matches!(o.mqtt.persistence, MqttPersistence::Default));
    assert_eq!(o.discovery_prefix, "homeassistant");
    assert!(o.private_prefix.is_none());
    assert_eq!(o.node_id.as_str(), "default");
    assert_eq!(o.application_name.slug(), "my-app");
    let t = HassMqttOptions::new_tls("broker".to_string(), "My App".to_string());
    assert_eq!(t.mqtt.port, 8883);
    assert!(t.mqtt.tls);
}

#[test]
fn options_builders() {
    let o = HassMqttOptions::new("broker".to_string(), "My App".to_string())
        .port(1234)
        .tls(true)
        .auth("user".to_string(), "pass".to_string())
        .discovery_prefix("ha".to_string())
        .private_prefix("priv".to_string())
        .node_id("n2".to_string())
        .persistence_dir(PathBuf::from("/tmp/x"));
    assert_eq!(o.mqtt.port, 1234);
    assert!(o.mqtt.tls);
    let auth = o.mqtt.auth.as_ref().unwrap();
    assert_eq!(auth.username, "user");
    assert_eq!(auth.password, "pass");
    assert_eq!(o.discovery_prefix, "ha");
    assert_eq!(o.private_prefix.as_deref(), Some("priv"));
    assert_eq!(o.node_id.as_str(), "n2");
    assert!(matches!(&o.mqtt.persistence, MqttPersistence::Directory(d) if d == &PathBuf::from("/tmp/x")));
    assert_eq!(o.client_id(), "my-app_n2");
    let topics = o.topics();
    assert_eq!(topics.available(), "priv/n2/available");
    assert_eq!(topics.discovery_topic("light", "l"), "ha/light/n2/l/config");
}

#[test]
fn topics_default_to_application_slug() {
    let o = HassMqttOptions::new("broker".to_string(), "My App".to_string());
    assert_eq!(o.topics().available(), "my-app/default/available");
}

#[test]
fn mqtt_options_setters() {
    let mut m = MqttOptions::new("h".to_string());
    m.port(99);
    m.tls(true);
    m.auth("u".to_string(), "p".to_string());
    m.persistence_file(PathBuf::from("/f"));
    assert_eq!(m.port, 99);
    assert!(m.tls);
    assert!(matches!(&m.persistence, MqttPersistence::File(f) if f == &PathBuf::from("/f")));
    m.persistence_dir(PathBuf::from("/d"));
    assert!(matches!(&m.persistence, MqttPersistence::Directory(f) if f == &PathBuf::from("/d")));
    let t = MqttOptions::new_tls("h".to_string());
    assert_eq!(t.port, 8883);
}

#[test]
fn persistence_locations() {
    let app = ApplicationName::new("My App".to_string());
    let node = NodeId::from_str("n1");
    assert_eq!(
        MqttPersistence::Directory(PathBuf::from("/d")).locate(&app, &node, None).ok(),
        Some(PathBuf::from("/d/my-app.n1.mqtt"))
    );
    assert_eq!(
        MqttPersistence::File(PathBuf::from("/f.mqtt")).locate(&app, &node, Some(PathBuf::from("/state"))).ok(),
        Some(PathBuf::from("/f.mqtt"))
    );
    assert_eq!(
        MqttPersistence::Default.locate(&app, &node, Some(PathBuf::from("/state"))).ok(),
        Some(PathBuf::from("/state/my-app.n1.mqtt"))
    );
    assert_eq!(MqttPersistence::Default.locate(&app, &node, None).err(), Some(MqttPersistenceError));
}

#[test]
fn to_path_joins_the_directory() {
    let app = ApplicationName::new("My App".to_string());
    let node = NodeId::from_str("n1");
    assert_eq!(
        MqttPersistence::Directory(PathBuf::from("/var/lib/x")).to_path(&app, &node).ok(),
        Some(PathBuf::from("/var/lib/x/my-app.n1.mqtt"))
    );
    assert_eq!(MqttPersistence::File(PathBuf::from("/tmp/f.db")).to_path(&app, &node).ok(), Some(PathBuf::from("/tmp/f.db")));
}

#[test]
fn provider_options_carry_connection() {
    let o = HassMqttOptions::new("broker".to_string(), "App".to_string())
        .port(1000)
        .persistence_file(PathBuf::from("/p"));
    let p = o.provider_options_in(None).unwrap();
    assert_eq!(p.host, "broker");
    assert_eq!(p.port, 1000);
    assert_eq!(p.persistence, PathBuf::from("/p"));
    let err = HassMqttOptions::new("b".to_string(), "App".to_string()).provider_options_in(None).unwrap_err();
    assert_eq!(err.source, MqttPersistenceError);
    assert_eq!(err.message(), "failed to convert ot mqtt options");
    assert_eq!(MqttPersistenceError::new().message(), "failed to get state dir");
}

#[test]
fn provider_options_from_environment() {
    let o = HassMqttOptions::new("broker".to_string(), "App".to_string()).persistence_dir(PathBuf::from("/d"));
    assert_eq!(o.provider_options().unwrap().persistence, PathBuf::from("/d/app.default.mqtt"));
}

#[test]
fn option_setters_chain() {
    let mut m = MqttOptions::new("h".to_string());
    m.port(1884).tls(true).auth("u".to_string(), "p".to_string());
    assert_eq!(m.port, 1884);
    assert!(m.tls);
    assert_eq!(m.auth.as_ref().map(|a| a.username.as_str()), Some("u"));
}
