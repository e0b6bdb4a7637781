use hass_mqtt::mqtt::client::{entity, publish, subscribe, ClientCore, EntityCommand, Message, SubscribeStep};
use hass_mqtt::mqtt::provider::{paho_qos, MqttProviderCreateError, PahoProviderConnectError};
use hass_mqtt::mqtt::rand::FastRand;
use hass_mqtt::mqtt::topics::{NodeId, QosLevel, TopicsConfig};

fn client_core() -> ClientCore {
    ClientCore::new(TopicsConfig::new("app".to_string(), "homeassistant".to_string(), NodeId::from_str("n")))
}

#[test]
fn subscribe_then_deliver_then_unsubscribe() {
    let mut c = client_core();
    assert_eq!(c.subscribe("t".to_string(), 1), SubscribeStep::SubscribeAtBroker);
    assert!(c.deliver("t").is_empty());
    let first = c.complete_subscription("t".to_string(), 99, 1);
    let second = match c.subscribe("t".to_string(), 2) {
        SubscribeStep::Registered(id) => id,
        SubscribeStep::SubscribeAtBroker => panic!("already subscribed"),
    };
    let delivered: Vec<u64> = c.deliver("t").iter().map(|m| m.value).collect();
    assert_eq!(delivered, vec![1, 2]);
    assert_eq!(c.unsubscribe(first), None);
    assert_eq!(c.unsubscribe(second), Some(99));
    assert_eq!(c.unsubscribe(second), None);
    assert_eq!(c.subscribe("t".to_string(), 3), SubscribeStep::SubscribeAtBroker);
}

#[test]
fn drop_failed_handlers() {
    let mut c = client_core();
    let a = c.complete_subscription("t".to_string(), 5, 1);
    let b = c.complete_subscription("t".to_string(), 6, 2);
    let d = c.complete_subscription("u".to_string(), 7, 3);
    c.drop_failed(&vec![a, d]);
    let delivered: Vec<u64> = c.deliver("t").iter().map(|m| m.value).collect();
    assert_eq!(delivered, vec![2]);
    assert!(c.deliver("u").is_empty());
    assert_eq!(c.unsubscribe(b), Some(5));
}

#[test]
fn commands() {
    let e = entity("light".to_string(), "l".to_string(), None);
    let topics = TopicsConfig::new("app".to_string(), "ha".to_string(), NodeId::from_str("n"));
    let cfg = e.run(&topics);
    assert_eq!(cfg.discovery_topic(), "ha/light/n/l/config");
    let with_topic = EntityCommand::new("light".to_string(), "l".to_string(), Some("x/config".to_string()));
    assert_eq!(with_topic.run(&topics).discovery_topic(), "x/config");
    let p = publish("t".to_string(), vec![1, 2], true, QosLevel::AtLeastOnce);
    let m = p.message();
    assert_eq!(m.topic, "t");
    assert_eq!(m.payload, vec![1, 2]);
    assert!(m.retain);
    assert_eq!(m.qos, QosLevel::AtLeastOnce);
    let s = subscribe("t".to_string(), QosLevel::ExactlyOnce);
    assert_eq!(s.topic, "t");
    assert_eq!(s.qos, QosLevel::ExactlyOnce);
}

#[test]
fn message_accessors() {
    let m = Message { topic: "t".to_string(), payload: vec![7], retained: true };
    assert_eq!(m.topic(), "t");
    assert_eq!(m.payload(), &[7]);
    assert!(m.retained());
}

#[test]
fn provider_errors_and_qos() {
    assert_eq!(paho_qos(QosLevel::AtMostOnce), 0);
    assert_eq!(paho_qos(QosLevel::AtLeastOnce), 1);
    assert_eq!(paho_qos(QosLevel::ExactlyOnce), 2);
    assert!(matches!(PahoProviderConnectError::resolve_host("h", 1), PahoProviderConnectError::ResolveHost { ref host, port: 1 } if host == "h"));
    assert!(matches!(PahoProviderConnectError::create_message("online".to_string()), PahoProviderConnectError::Message { ref kind } if kind == "online"));
}

#[test]
fn fast_rand_sequence() {
    let mut r = FastRand::new(0x0000_0001_0000_0000);
    assert_eq!(r.one, 1);
    assert_eq!(r.two, 1);
    let s0 = r.two;
    let mut s1 = r.one;
    s1 ^= s1 << 17;
    s1 = s1 ^ s0 ^ s1 >> 7 ^ s0 >> 16;
    let expected = s0.wrapping_add(s1);
    assert_eq!(r.fastrand(), expected);
    assert_eq!((r.one, r.two), (s0, s1));
    let seeded = FastRand::new(0x1234_5678_9abc_def0);
    assert_eq!(seeded.one, 0x1234_5678);
    assert_eq!(seeded.two, 0x9abc_def0);
}

#[test]
fn fast_rand_n_in_range() {
    let mut r = FastRand::new(42);
    for n in [1u32, 2, 3, 10, 1000, u32::MAX] {
        for _ in 0..100 {
            assert!(r.fastrand_n(n) < n);
        }
    }
    assert_eq!(r.fastrand_n(0), 0);
    let mut a = FastRand::new(7);
    let mut b = FastRand::new(7);
    let x = a.fastrand();
    assert_eq!(b.fastrand_n(10), ((x as u64 * 10) >> 32) as u32);
}

#[test]
fn client_thread_is_named_after_the_application_slug() {
    let name = hass_mqtt::mqtt::topics::ApplicationName::new("My App".to_string());
    assert_eq!(hass_mqtt::mqtt::client::client_thread_name(&name), "mqtt-my-app-hass");
}
