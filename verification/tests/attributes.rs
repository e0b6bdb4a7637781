use hass_mqtt::state::attributes::Attributes;
use hass_mqtt::state::entity_state::{EntityState, Sensor};

#[test]
fn attributes_get_after_insert() {
    let mut attributes = Attributes::new();
    assert_eq!(attributes.insert("k1".to_string(), "v1".to_string()), None);
    assert_eq!(attributes.insert("k2".to_string(), "v2".to_string()), None);
    assert_eq!(attributes.get("k1"), Some("v1"));
    assert_eq!(attributes.get_inner("k2").map(|s| s.as_str()), Some("v2"));
    assert_eq!(attributes.get("k3"), None);
    assert_eq!(attributes.insert("k1".to_string(), "v3".to_string()), Some("v1".to_string()));
    assert_eq!(attributes.get("k1"), Some("v3"));
}

#[test]
fn attributes_remove() {
    let mut attributes = Attributes::new();
    attributes.insert("k1".to_string(), "v1".to_string());
    assert_eq!(attributes.remove("k1"), Some("v1".to_string()));
    assert_eq!(attributes.remove("k1"), None);
    assert_eq!(attributes.get("k1"), None);
    assert!(attributes.entries().is_empty());
}

#[test]
fn attributes_entries_sorted_by_key() {
    let mut attributes = Attributes::new();
    for (k, v) in [("zeta", "1"), ("alpha", "2"), ("mu", "3"), ("alphabet", "4"), ("Beta", "5")] {
        attributes.insert(k.to_string(), v.to_string());
    }
    let keys: Vec<&str> = attributes.entries().iter().map(|(k, _)| k.as_str()).collect();
    assert_eq!(keys, vec!["Beta", "alpha", "alphabet", "mu", "zeta"]);
}

#[test]
fn attributes_entry_or_insert() {
    let mut attributes = Attributes::new();
    {
        let v = attributes.entry("k".to_string()).or_insert("first".to_string());
        assert_eq!(v, "first");
        v.push_str("!");
    }
    assert_eq!(attributes.get("k"), Some("first!"));
    let v = attributes.entry("k".to_string()).or_insert("second".to_string());
    assert_eq!(v, "first!");
}

#[test]
fn attributes_entry_or_insert_with_and_modify() {
    let mut attributes = Attributes::new();
    let mut called = false;
    attributes.entry("k".to_string()).or_insert_with(|| {
        called = true;
        "made".to_string()
    });
    assert!(called);
    assert_eq!(attributes.get("k"), Some("made"));
    let entry = attributes.entry("k".to_string());
    assert_eq!(entry.key(), "k");
    assert_eq!(entry.key_inner(), "k");
    let v = entry.and_modify(|s| s + "+").or_insert_with(|| panic!("not called"));
    assert_eq!(v, "made+");
    let v = attributes.entry("n".to_string()).and_modify(|s| s + "+").or_insert("new".to_string());
    assert_eq!(v, "new");
}

#[test]
fn sensor_state_and_attributes() {
    let mut sensor = Sensor::new(21u32);
    assert_eq!(*sensor.get(), 21);
    *sensor.get_mut() = 22;
    assert_eq!(*sensor.get(), 22);
    sensor.attributes_mut().insert("unit".to_string(), "C".to_string());
    assert_eq!(sensor.attributes().get("unit"), Some("C"));
}

#[test]
fn attributes_equal_when_same_pairs() {
    let mut a = Attributes::new();
    a.insert("k2".to_string(), "v2".to_string());
    a.insert("k1".to_string(), "v1".to_string());
    let mut b = Attributes::new();
    b.insert("k1".to_string(), "v1".to_string());
    b.insert("k2".to_string(), "v2".to_string());
    assert!(a.same_as(&b));
    assert!(a == b);
    b.insert("k2".to_string(), "other".to_string());
    assert!(!a.same_as(&b));
    assert!(a != b);
}
