use hass_mqtt::discovery::availability::{Availability, AvailabilityDataInvalidity};
use hass_mqtt::discovery::strings::{Name, NameInvalidity, Payload, PayloadInvalidity, Template, TemplateInvalidity, Topic, TopicInvalidity};

#[test]
fn invalid_payload_available_is_invalid() {
    let err: Vec<_> = Availability {
        topic: Topic::from_str("topic"),
        payload_available: Some(Payload::from_str("")),
        payload_not_available: None,
    }
    .validate()
    .expect_err("should be invalid")
    .into_iter()
    .collect();

    assert_eq!(&*err, &[AvailabilityDataInvalidity::PayloadAvailable(PayloadInvalidity::Empty)])
}

#[test]
fn invalid_payload_not_available_is_invalid() {
    let err: Vec<_> = Availability {
        topic: Topic::from_str("topic"),
        payload_available: None,
        payload_not_available: Some(Payload::from_str("")),
    }
    .validate()
    .expect_err("should be invalid")
    .into_iter()
    .collect();

    assert_eq!(&*err, &[AvailabilityDataInvalidity::PayloadNotAvailable(PayloadInvalidity::Empty)])
}

#[test]
fn invalid_topic_is_invalid() {
    let err: Vec<_> = Availability {
        topic: Topic::from_str(""),
        payload_available: None,
        payload_not_available: None,
    }
    .validate()
    .expect_err("should be invalid")
    .into_iter()
    .collect();

    assert_eq!(&*err, &[AvailabilityDataInvalidity::Topic(TopicInvalidity::Empty)])
}

#[test]
fn name_empty_payload_is_invalid() {
    let err: Vec<_> = Name::from_str("")
        .validate()
        .expect_err("should be invalid")
        .into_iter()
        .collect();

    assert_eq!(&*err, &[NameInvalidity::Empty])
}

#[test]
fn template_empty_payload_is_invalid() {
    let err: Vec<_> = Template::from_str("")
        .validate()
        .expect_err("should be invalid")
        .into_iter()
        .collect();

    assert_eq!(&*err, &[TemplateInvalidity::Empty])
}

#[test]
fn no_payloads() {
    let a = Availability::new(Topic::from_str("the/topic"));
    assert_eq!(a.topic.as_str(), "the/topic");
    assert!(a.payload_available.is_none());
    assert!(a.payload_not_available.is_none());
    assert!(a.validate().is_ok());
}

#[test]
fn with_payloads() {
    let a = Availability::new_with_payloads(
        Topic::from_str("the/topic"),
        Payload::from_str("available"),
        Payload::from_str("not_available"),
    );
    assert_eq!(a.topic.as_str(), "the/topic");
    assert_eq!(a.payload_available.as_ref().map(|p| p.0.as_str()), Some("available"));
    assert_eq!(a.payload_not_available.as_ref().map(|p| p.0.as_str()), Some("not_available"));
    assert!(a.validate().is_ok());
}
