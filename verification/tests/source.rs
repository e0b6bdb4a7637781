use hass_mqtt::derive_input::{AttrArgs, AttrInput, DeriveError, StructData, Validation};
use hass_mqtt::meta::{Meta, MetaError, MetaLit, MetaPath};
use hass_mqtt::source::{from_derive_input, read_document, read_entity, ParsedAttr, ParsedField, ParsedStruct};
use hass_mqtt::types::TypeTree;
use hass_mqtt::source::{entity, entity_doc, state_doc, SourceError};

fn derive_errors<T>(res: Result<T, SourceError>) -> Vec<DeriveError> {
    match res {
        Err(SourceError::Derive(e)) => e,
        Err(other) => panic!("expected derive errors, got {:?}", other),
        Ok(_) => panic!("expected derive errors"),
    }
}

#[test]
fn entity_from_source_reads_fields_after_the_common_ones() {
    let s = entity::create(
        "/// A sensor.\npub struct Sensor<'a> { #[entity(validate)] pub state_topic: Topic<'a>, pub name: Option<&'a str> }",
    )
    .unwrap();
    assert_eq!(s.ident, "Sensor");
    assert_eq!(s.invalidity_ident, "SensorInvalidity");
    assert_eq!(s.docs.len(), 1);
    assert_eq!(s.fields.len(), 15);
    assert_eq!(s.fields[13].ident, "state_topic");
    assert_eq!(s.fields[13].variant_ident, "StateTopic");
    assert!(s.fields[13].validate);
    assert_eq!(s.fields[14].ident, "name");
    assert!(!s.fields[14].validate);
}

#[test]
fn entity_from_source_refuses_what_syn_refuses() {
    assert!(matches!(entity::create("pub struct {"), Err(SourceError::Syntax)));
}

#[test]
fn entity_unknown_option_is_reported() {
    let e = derive_errors(entity::create("#[entity(frobnicate)] pub struct S<'a> { pub a: &'a str }"));
    assert_eq!(e, vec![DeriveError::UnknownOption("frobnicate".to_string())]);
}

#[test]
fn entity_builder_option_is_unknown() {
    let e = derive_errors(entity::create("pub struct S<'a> { #[entity(builder)] pub a: &'a str }"));
    assert_eq!(e, vec![DeriveError::UnknownOption("builder".to_string())]);
}

#[test]
fn duplicate_field_option_is_reported() {
    let e = derive_errors(entity::create("pub struct S<'a> { #[entity(validate, validate)] pub a: &'a str }"));
    assert_eq!(e, vec![DeriveError::DuplicateOption("validate".to_string())]);
}

#[test]
fn invalid_option_value_is_reported() {
    let e = derive_errors(entity::create("pub struct S<'a> { #[entity(validate = 5)] pub a: &'a str }"));
    assert_eq!(e, vec![DeriveError::InvalidOption(MetaError::UnexpectedLiteral)]);
}

#[test]
fn unreadable_attribute_is_reported() {
    let e = derive_errors(entity::create("#[entity = \"x\"] pub struct S<'a> { pub a: &'a str }"));
    assert_eq!(e, vec![DeriveError::UnreadableAttribute]);
}

#[test]
fn reading_errors_of_struct_and_fields_come_together() {
    let e = derive_errors(entity::create(
        "#[entity(other)] pub struct S<'a> { #[entity(validate, validate)] pub a: &'a str, #[entity(x)] pub b: u8 }",
    ));
    assert_eq!(
        e,
        vec![
            DeriveError::UnknownOption("other".to_string()),
            DeriveError::DuplicateOption("validate".to_string()),
            DeriveError::UnknownOption("x".to_string()),
        ]
    );
}

#[test]
fn entity_checks_run_after_reading() {
    let e = derive_errors(entity::create("pub struct S { pub a: u8 }"));
    assert_eq!(e, vec![DeriveError::MissingLifetime]);
}

#[test]
fn state_attribute_is_not_read_on_entities() {
    assert!(entity::create("#[state(anything)] pub struct S<'a> { pub a: &'a str }").is_ok());
}

#[test]
fn entity_document_reads_options() {
    let (s, args) = entity_doc::create(
        "#[entity(extend_json(platform = \"mqtt\"))] pub struct Doc<'a> { #[entity(builder = \"named\", validate = \"crate::check\")] pub name: Option<&'a str> }",
        "",
    )
    .unwrap();
    assert!(args.impl_eq);
    assert_eq!(s.ident, "Doc");
    assert_eq!(s.fields.len(), 14);
    assert_eq!(s.fields[13].ident, "name");
    assert_eq!(s.fields[13].builder.rename, Some("named".to_string()));
    assert!(matches!(&s.fields[13].validate, Validation::With(p) if p == "crate::check"));
    let props = s.additional_props.unwrap();
    assert_eq!(props.props(), &vec![("platform".to_string(), "mqtt".to_string())]);
    assert!(s.additional_invalidities.is_none());
}

#[test]
fn entity_document_refuses_bad_arguments_first() {
    assert!(matches!(entity_doc::create("pub struct {", "Eq"), Err(SourceError::Args(_))));
}

#[test]
fn state_document_reads_state_options() {
    let (s, args) =
        state_doc::create("#[state(validate(Broken))] pub struct St<'a> { #[state(builder = false)] pub a: Option<&'a str> }", "?Eq")
            .unwrap();
    assert!(!args.impl_eq);
    assert_eq!(s.fields.len(), 1);
    assert!(!s.fields[0].builder.enabled);
    let variants = s.additional_invalidities.unwrap();
    assert_eq!(variants.variants().len(), 1);
    assert_eq!(variants.variants()[0].ident, "Broken");
}

#[test]
fn state_document_private_field_is_reported() {
    let e = derive_errors(state_doc::create("pub struct St<'a> { a: &'a str }", ""));
    assert_eq!(e, vec![DeriveError::PrivateField(Some("a".to_string()))]);
}

#[test]
fn document_duplicate_builder_is_reported() {
    let e = derive_errors(state_doc::create("pub struct St<'a> { #[state(builder)] #[entity(builder = false)] pub a: &'a str }", ""));
    assert_eq!(e, vec![DeriveError::DuplicateOption("builder".to_string())]);
}

fn plain_field(name: &str, attrs: Vec<ParsedAttr>) -> ParsedField {
    ParsedField { ident: Some(name.to_string()), is_public: true, ty: TypeTree::Other("u8".to_string()), attrs }
}

fn option_attr(ident: &str, items: Option<Vec<Meta>>) -> ParsedAttr {
    ParsedAttr { attr: AttrInput { ident: Some(ident.to_string()), args: AttrArgs::List(String::new()) }, items }
}

fn key(name: &str) -> MetaPath {
    MetaPath { segments: vec![name.to_string()], text: name.to_string() }
}

#[test]
fn from_derive_input_puts_common_fields_first() {
    let p = ParsedStruct {
        ident: "S".to_string(),
        lifetimes: vec!["a".to_string()],
        data: StructData::Named(vec![plain_field("x", vec![option_attr("entity", Some(vec![Meta::Path(key("validate"))]))])]),
        attrs: vec![],
    };
    let full = from_derive_input(p).ok().unwrap();
    match full.data {
        StructData::Named(fields) => {
            assert_eq!(fields.len(), 14);
            assert_eq!(fields[13].ident, Some("x".to_string()));
            assert!(matches!(fields[13].validate, Validation::Default));
            assert_eq!(fields[13].attrs.len(), 1);
        }
        StructData::Other => panic!("expected named fields"),
    }
}

#[test]
fn read_entity_reports_unreadable_field_attribute() {
    let p = ParsedStruct {
        ident: "S".to_string(),
        lifetimes: vec![],
        data: StructData::Named(vec![plain_field("x", vec![option_attr("entity", None)])]),
        attrs: vec![],
    };
    assert_eq!(read_entity(p).err().unwrap(), vec![DeriveError::UnreadableAttribute]);
}

#[test]
fn read_document_keeps_default_builder_and_reads_validation() {
    let p = ParsedStruct {
        ident: "D".to_string(),
        lifetimes: vec!["a".to_string()],
        data: StructData::Named(vec![plain_field(
            "x",
            vec![option_attr("state", Some(vec![Meta::NameValue(key("validate"), MetaLit::Str("crate::check".to_string()))]))],
        )]),
        attrs: vec![],
    };
    let own = read_document(p).ok().unwrap();
    match own.data {
        StructData::Named(fields) => {
            assert_eq!(fields.len(), 1);
            assert!(fields[0].builder.enabled);
            assert!(fields[0].builder.rename.is_none());
            assert!(matches!(&fields[0].validate, Validation::With(p) if p == "crate::check"));
        }
        StructData::Other => panic!("expected named fields"),
    }
}
