use hass_mqtt::discovery::availability::{Availability, AvailabilityDataInvalidity, AvailabilityMode};
use hass_mqtt::discovery::button::Button;
use hass_mqtt::discovery::cover::{Cover, CoverInvalidity};
use hass_mqtt::discovery::entity::{Entity, EntityInvalidity};
use hass_mqtt::discovery::light::{ColorMode, ColorModeSet, ColorModeSetValidator, ColorModesInvalidity, Light, LightInvalidity};
use hass_mqtt::discovery::sensor::{NonZeroSeconds, Sensor};
use hass_mqtt::discovery::simple_entities::{BinarySensor, DeviceTracker, Switch};
use hass_mqtt::discovery::source_type::SourceType;
use hass_mqtt::discovery::strings::{Name, NameInvalidity, Payload, PayloadInvalidity, Template, TemplateInvalidity, Topic, TopicInvalidity};

#[test]
fn availability_mode_default() {
    assert_eq!(AvailabilityMode::default(), AvailabilityMode::Latest);
    assert!(AvailabilityMode::Latest.is_default());
    assert!(!AvailabilityMode::All.is_default());
    assert!(!AvailabilityMode::Any.is_default());
}

#[test]
fn availability_constructors_and_validity() {
    let a = Availability::new(Topic::from_str("the/topic"));
    assert!(a.payload_available.is_none() && a.payload_not_available.is_none());
    assert_eq!(a.validate(), Ok(()));
    let b = Availability::new_with_payloads(Topic::from_str("t"), Payload::from_str("available"), Payload::from_str("not_available"));
    assert_eq!(b.payload_available.as_ref().unwrap().as_str(), "available");
    assert_eq!(b.validate(), Ok(()));
    let c = Availability::new_with_payloads(Topic::from_str(""), Payload::from_str(""), Payload::from_str(""));
    assert_eq!(
        c.validate(),
        Err(vec![
            AvailabilityDataInvalidity::Topic(TopicInvalidity::Empty),
            AvailabilityDataInvalidity::PayloadAvailable(PayloadInvalidity::Empty),
            AvailabilityDataInvalidity::PayloadNotAvailable(PayloadInvalidity::Empty),
        ])
    );
}

#[test]
fn string_wrappers_validity() {
    assert_eq!(Topic::from_str("t").validate(), Ok(()));
    assert_eq!(Payload::from_str("").validate(), Err(vec![PayloadInvalidity::Empty]));
    assert_eq!(Name::from_str("n").validate(), Ok(()));
    assert_eq!(Template::from_str("{{ x }}").validate(), Ok(()));
}

#[test]
fn entity_invalidities_in_field_order() {
    let mut e = Entity::new();
    assert_eq!(e.validate(), Ok(()));
    e.availability.push(Availability::new(Topic::from_str("")));
    e.availability.push(Availability::new_with_payloads(Topic::from_str("ok"), Payload::from_str(""), Payload::from_str("x")));
    e.json_attributes_template = Some(Template::from_str(""));
    e.json_attributes_topic = Some(Topic::from_str(""));
    e.name = Some(Name::from_str(""));
    assert_eq!(
        e.validate(),
        Err(vec![
            EntityInvalidity::Availability(AvailabilityDataInvalidity::Topic(TopicInvalidity::Empty)),
            EntityInvalidity::Availability(AvailabilityDataInvalidity::PayloadAvailable(PayloadInvalidity::Empty)),
            EntityInvalidity::Template(TemplateInvalidity::Empty),
            EntityInvalidity::Topic(TopicInvalidity::Empty),
            EntityInvalidity::Name(NameInvalidity::Empty),
        ])
    );
}

#[test]
fn sensor_builder_and_validity() {
    let s = Sensor::builder()
        .device_class(Some("temperature".to_string()))
        .expire_after(NonZeroSeconds::new(30))
        .force_update(Some(true))
        .last_reset_value_template(Some(Template::from_str("")))
        .state_class(Some("measurement".to_string()))
        .unit_of_measurement(Some("°C".to_string()))
        .value_template(Some(Template::from_str("{{ value }}")))
        .entity(Entity::new())
        .state_topic(Topic::from_str(""))
        .build();
    assert_eq!(s.device_class.as_deref(), Some("temperature"));
    assert_eq!(s.expire_after.map(|v| v.get()), Some(30));
    assert_eq!(s.force_update, Some(true));
    assert_eq!(s.state_class.as_deref(), Some("measurement"));
    assert_eq!(s.unit_of_measurement.as_deref(), Some("°C"));
    assert_eq!(
        s.validate(),
        Err(vec![EntityInvalidity::Template(TemplateInvalidity::Empty), EntityInvalidity::Topic(TopicInvalidity::Empty)])
    );
    let ok = Sensor::builder().state_topic(Topic::from_str("s/t")).build();
    assert_eq!(ok.validate(), Ok(()));
}

#[test]
fn button_validity() {
    let mut b = Button::new(Topic::from_str(""));
    b.command_template = Some(Template::from_str(""));
    b.payload_press = Some(Payload::from_str(""));
    assert_eq!(
        b.validate(),
        Err(vec![
            EntityInvalidity::Topic(TopicInvalidity::Empty),
            EntityInvalidity::Template(TemplateInvalidity::Empty),
            EntityInvalidity::Payload(PayloadInvalidity::Empty),
        ])
    );
    assert_eq!(Button::new(Topic::from_str("c")).validate(), Ok(()));
}

#[test]
fn simple_entities_validity() {
    let mut b = BinarySensor::new(Topic::from_str("s"));
    assert_eq!(b.validate(), Ok(()));
    b.entity.name = Some(Name::from_str(""));
    assert_eq!(b.validate(), Err(vec![EntityInvalidity::Name(NameInvalidity::Empty)]));
    let mut d = DeviceTracker::new(Topic::from_str("s"));
    d.source_type = Some(SourceType::BluetoothLE);
    assert_eq!(d.validate(), Ok(()));
    assert_eq!(SourceType::BluetoothLE.as_str(), "bluetooth_le");
    assert_eq!(SourceType::GPS.as_str(), "gps");
    let s = Switch::new(Topic::from_str("c"));
    assert_eq!(s.validate(), Ok(()));
}

#[test]
fn cover_rules() {
    let mut c = Cover::new();
    assert_eq!(c.validate(), Ok(()));
    c.value_template = Some(Template::from_str("v"));
    c.set_position_topic = Some(Topic::from_str("sp"));
    c.position_template = Some(Template::from_str("p"));
    c.tilt_command_template = Some(Template::from_str("tc"));
    c.tilt_status_template = Some(Template::from_str("ts"));
    c.entity.json_attributes_topic = Some(Topic::from_str(""));
    assert_eq!(
        c.validate(),
        Err(vec![
            CoverInvalidity::Entity(EntityInvalidity::Topic(TopicInvalidity::Empty)),
            CoverInvalidity::StateTopicMissing,
            CoverInvalidity::PositionTopicMissing,
            CoverInvalidity::PositionTopicMissing,
            CoverInvalidity::TiltCommandTopicMissing,
            CoverInvalidity::TiltStatusTopicMissing,
        ])
    );
    let mut d = Cover::new();
    d.set_position_template = Some(Template::from_str("x"));
    assert_eq!(d.validate(), Err(vec![CoverInvalidity::SetPositionTopicMissing]));
    d.set_position_topic = Some(Topic::from_str("y"));
    d.position_topic = Some(Topic::from_str("z"));
    assert_eq!(d.validate(), Ok(()));
}

fn modes(list: &[ColorMode]) -> ColorModeSet {
    list.iter().fold(ColorModeSet::empty(), |s, m| s.insert(*m))
}

fn check(list: &[ColorMode]) -> Vec<ColorModesInvalidity> {
    let mut found = Vec::new();
    ColorModeSetValidator.validate_value(&modes(list), &mut found);
    found
}

#[test]
fn color_mode_rules() {
    assert_eq!(check(&[ColorMode::OnOff]), vec![]);
    assert_eq!(check(&[ColorMode::Brightness]), vec![]);
    assert_eq!(check(&[ColorMode::OnOff, ColorMode::ColorTemp]), vec![ColorModesInvalidity::OnOffWithOthers]);
    assert_eq!(
        check(&[ColorMode::OnOff, ColorMode::Brightness]),
        vec![ColorModesInvalidity::OnOffWithOthers, ColorModesInvalidity::BrightnessWithOthers]
    );
    assert_eq!(check(&[ColorMode::White]), vec![ColorModesInvalidity::WhiteWithoutColorModes]);
    assert_eq!(check(&[ColorMode::White, ColorMode::ColorTemp]), vec![ColorModesInvalidity::WhiteWithoutColorModes]);
    assert_eq!(check(&[ColorMode::White, ColorMode::XY]), vec![]);
    assert_eq!(check(&[ColorMode::White, ColorMode::RedGreenBlueWhiteWarmWhite, ColorMode::HueSaturation]), vec![]);
}

#[test]
fn color_mode_set_operations() {
    let s = modes(&[ColorMode::XY, ColorMode::White]);
    assert!(s.contains(ColorMode::XY));
    assert!(!s.contains(ColorMode::OnOff));
    assert_eq!(s.len(), 2);
    assert!(!s.is_empty());
    assert!(ColorModeSet::empty().is_empty());
    assert!(modes(&[ColorMode::OnOff]).is_only(ColorMode::OnOff));
    assert!(!s.is_only(ColorMode::XY));
    assert!(!s.is_disjoint_from_color_modes());
    assert!(modes(&[ColorMode::ColorTemp]).is_disjoint_from_color_modes());
    assert_eq!(ColorMode::HueSaturation.as_str(), "hs");
    assert_eq!(ColorMode::RedGreenBlueWhiteWarmWhite.as_str(), "rgbww");
}

#[test]
fn light_rules() {
    let mut l = Light::new(Topic::from_str("c"));
    assert_eq!(l.validate(), Ok(()));
    l.color_mode = Some(true);
    assert_eq!(l.validate(), Err(vec![LightInvalidity::ColorModeWithoutSupportedColorModes]));
    l.supported_color_modes = modes(&[ColorMode::White]);
    assert_eq!(l.validate(), Err(vec![LightInvalidity::SupportedColorModes(ColorModesInvalidity::WhiteWithoutColorModes)]));
    l.supported_color_modes = modes(&[ColorMode::RedGreenBlue]);
    l.color_mode = Some(false);
    assert_eq!(l.validate(), Ok(()));
}

#[test]
fn non_zero_seconds_refuse_zero() {
    assert!(NonZeroSeconds::new(0).is_none());
    assert_eq!(NonZeroSeconds::new(5).map(|v| v.get()), Some(5));
}
