use hass_mqtt::mqtt::topics::{ApplicationName, NodeId, QosLevel, TopicKind, TopicName, TopicsConfig, availability_message};

fn config() -> TopicsConfig {
    TopicsConfig::new("app".to_string(), "homeassistant".to_string(), NodeId::from_str("node1"))
}

#[test]
fn application_name_slug() {
    let name = ApplicationName::new("My Test String!!!1!1".to_string());
    assert_eq!(name.slug(), "my-test-string-1-1");
    assert_eq!(name.as_str(), "My Test String!!!1!1");
    assert_eq!(ApplicationName::new("  --test_-_cool".to_string()).slug(), "test-cool");
    assert_eq!(ApplicationName::new("You & Me".to_string()).slug(), "you-me");
}

#[test]
fn discovery_topic_format() {
    assert_eq!(config().discovery_topic("light", "bedroom"), "homeassistant/light/node1/bedroom/config");
}

#[test]
fn node_topics_format() {
    let c = config();
    assert_eq!(c.node_topic("x/y"), "app/node1/x/y");
    assert_eq!(c.available(), "app/node1/available");
    assert_eq!(c.state_topic("light", "bedroom", None), "app/node1/light/bedroom/state");
    assert_eq!(c.state_topic("light", "bedroom", Some("brightness")), "app/node1/light/bedroom/state/brightness");
    assert_eq!(c.command_topic("light", "bedroom", None), "app/node1/light/bedroom/set");
    assert_eq!(c.command_topic("light", "bedroom", Some("brightness")), "app/node1/light/bedroom/set/brightness");
}

#[test]
fn availability_messages() {
    let c = config();
    let online = c.online_message();
    assert_eq!(online.topic, "app/node1/available");
    assert_eq!(online.payload, b"online".to_vec());
    assert_eq!(online.qos, QosLevel::ExactlyOnce);
    assert!(online.retain);
    let offline = c.offline_message();
    assert_eq!(offline.topic, "app/node1/available");
    assert_eq!(offline.payload, b"offline".to_vec());
    let m = availability_message("t", "p");
    assert_eq!(m.topic, "t");
    assert_eq!(m.payload, b"p".to_vec());
}

#[test]
fn entity_topics() {
    let c = config();
    let e = c.entity("switch", "pump", None);
    assert_eq!(e.discovery_topic(), "homeassistant/switch/node1/pump/config");
    assert_eq!(e.domain_str(), "switch");
    assert_eq!(e.entity_id_str(), "pump");
    assert_eq!(e.state_topic(None), "app/node1/switch/pump/state");
    assert_eq!(e.command_topic(Some("speed")), "app/node1/switch/pump/set/speed");
    let custom = c.entity("switch", "pump", Some("custom/config".to_string()));
    assert_eq!(custom.discovery_topic(), "custom/config");
}

#[test]
fn topic_name_choices() {
    let e = config().entity("switch", "pump", None);
    assert_eq!(TopicName::Default.get(&e, TopicKind::State), "app/node1/switch/pump/state");
    assert_eq!(TopicName::Default.get(&e, TopicKind::Command), "app/node1/switch/pump/set");
    assert_eq!(TopicName::Named("a".to_string()).get(&e, TopicKind::State), "app/node1/switch/pump/state/a");
    assert_eq!(TopicName::Named("a".to_string()).get(&e, TopicKind::Command), "app/node1/switch/pump/set/a");
    assert_eq!(TopicName::Custom("my/topic".to_string()).get(&e, TopicKind::Command), "my/topic");
}

#[test]
fn state_and_command_topics_differ() {
    let e = config().entity("switch", "pump", None);
    for a in [None, Some("x"), Some("set")] {
        for b in [None, Some("x"), Some("state")] {
            assert_ne!(e.state_topic(a), e.command_topic(b));
        }
    }
    assert_ne!(e.state_topic(Some("a")), e.state_topic(Some("b")));
    assert_ne!(e.state_topic(Some("a")), e.state_topic(None));
    assert!(e.command_topic(Some("q")).starts_with("app/node1/"));
}
