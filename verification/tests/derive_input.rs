use hass_mqtt::derive_input::{
    common_document_fields, common_fields, AttrArgs, AttrInput, Builder, DeriveError, DeriveKind, DocumentFieldInput, DocumentStruct, DocumentStructInput,
    EntityField, EntityFieldInput, EntityStruct, EntityStructInput, StructData, Validation,
};
use hass_mqtt::meta::{Format, Meta, MetaError, MetaLit, MetaPath};
use hass_mqtt::types::TypeTree;

fn attr(ident: &str, args: AttrArgs) -> AttrInput {
    AttrInput { ident: Some(ident.to_string()), args }
}

fn doc(text: &str) -> AttrInput {
    attr("doc", AttrArgs::NameValue(text.to_string()))
}

fn entity_field(name: &str, attrs: Vec<AttrInput>) -> EntityFieldInput {
    EntityFieldInput { ident: Some(name.to_string()), ty: TypeTree::Other("u8".to_string()), attrs, validate: Validation::Disabled }
}

fn document_field(name: Option<&str>, is_public: bool, attrs: Vec<AttrInput>) -> DocumentFieldInput {
    DocumentFieldInput {
        ident: name.map(|n| n.to_string()),
        is_public,
        ty: TypeTree::Other("String".to_string()),
        attrs,
        validate: Validation::Default,
        builder: Builder { enabled: true, rename: None },
    }
}

#[test]
fn entity_field_variant_is_pascal_case() {
    let field = EntityField::from_input(entity_field("state_topic", vec![]));
    assert_eq!(field.ident, "state_topic");
    assert_eq!(field.variant_ident, "StateTopic");
    assert!(field.required);
    assert!(!field.validate);
}

#[test]
fn entity_field_with_serde_default_is_optional() {
    let field = EntityField::from_input(entity_field(
        "name",
        vec![doc("the name"), attr("serde", AttrArgs::List("borrow, default".to_string())), attr("entity", AttrArgs::List("validate".to_string()))],
    ));
    assert!(!field.required);
    assert_eq!(field.docs.len(), 1);
    assert_eq!(field.attrs.len(), 2);
}

#[test]
fn unnamed_entity_field_is_unknown() {
    let mut input = entity_field("x", vec![]);
    input.ident = None;
    input.validate = Validation::With("check".to_string());
    let field = EntityField::from_input(input);
    assert_eq!(field.ident, "unknown");
    assert!(field.validate);
}

#[test]
fn entity_struct_is_checked() {
    let input = EntityStructInput {
        ident: "Sensor".to_string(),
        lifetimes: vec!["a".to_string()],
        data: StructData::Named(vec![entity_field("device_class", vec![])]),
        attrs: vec![doc("A sensor"), attr("derive", AttrArgs::List("Debug".to_string()))],
    };
    let checked = EntityStruct::from_input(input).ok().expect("should be valid");
    assert_eq!(checked.invalidity_ident, "SensorInvalidity");
    assert_eq!(checked.docs.len(), 1);
    assert_eq!(checked.attrs.len(), 1);
    assert_eq!(checked.fields.len(), 1);
    assert_eq!(checked.fields[0].variant_ident, "DeviceClass");
}

#[test]
fn entity_struct_errors_are_all_reported() {
    let input = EntityStructInput {
        ident: "Bad".to_string(),
        lifetimes: vec!["b".to_string(), "c".to_string()],
        data: StructData::Other,
        attrs: vec![],
    };
    let errors = EntityStruct::from_input(input).err().expect("should be invalid");
    assert_eq!(
        errors,
        vec![
            DeriveError::ExtraLifetime("b".to_string()),
            DeriveError::ExtraLifetime("c".to_string()),
            DeriveError::MissingLifetime,
            DeriveError::NotStruct,
        ]
    );
    assert_eq!(errors[0].message(DeriveKind::Entity), "Entities must only have a single lifetime named 'a");
    assert_eq!(errors[2].message(DeriveKind::Entity), "Entities must have a lifetime 'a");
    assert_eq!(errors[3].message(DeriveKind::Document), "Documents must be structs");
}

#[test]
fn document_struct_is_checked() {
    let input = DocumentStructInput {
        ident: "Light".to_string(),
        lifetimes: vec!["a".to_string()],
        data: StructData::Named(vec![
            document_field(Some("brightness"), true, vec![attr("serde", AttrArgs::List("default".to_string()))]),
            document_field(Some("color_mode"), true, vec![doc("mode"), attr("serde", AttrArgs::NameValue("\"default\"".to_string()))]),
        ]),
        attrs: vec![],
        extend_json: None,
        validate: None,
    };
    let checked = DocumentStruct::from_input(input).ok().expect("should be valid");
    assert_eq!(checked.invalidity_ident, "LightInvalidity");
    assert_eq!(checked.fields.len(), 2);
    assert!(!checked.fields[0].required);
    assert_eq!(checked.fields[0].serde.len(), 1);
    assert!(checked.fields[1].required);
    assert_eq!(checked.fields[1].variant_ident, "ColorMode");
    assert_eq!(checked.fields[1].docs.len(), 1);
}

#[test]
fn document_field_errors_are_all_reported() {
    let input = DocumentStructInput {
        ident: "Doc".to_string(),
        lifetimes: vec!["a".to_string()],
        data: StructData::Named(vec![
            document_field(None, false, vec![]),
            document_field(Some("ok"), true, vec![]),
            document_field(Some("hidden"), false, vec![]),
        ]),
        attrs: vec![],
        extend_json: None,
        validate: None,
    };
    let errors = DocumentStruct::from_input(input).err().expect("should be invalid");
    assert_eq!(
        errors,
        vec![
            DeriveError::UnnamedField,
            DeriveError::PrivateField(None),
            DeriveError::PrivateField(Some("hidden".to_string())),
        ]
    );
    assert_eq!(errors[0].message(DeriveKind::Document), "Document fields must be named");
    assert_eq!(errors[1].message(DeriveKind::Document), "Document fields must be public");
}

#[test]
fn document_without_lifetime_is_refused() {
    let input = DocumentStructInput {
        ident: "Doc".to_string(),
        lifetimes: vec![],
        data: StructData::Named(vec![]),
        attrs: vec![],
        extend_json: None,
        validate: None,
    };
    assert_eq!(DocumentStruct::from_input(input).err(), Some(vec![DeriveError::MissingLifetime]));
}

fn builder_path() -> MetaPath {
    MetaPath { segments: vec!["builder".to_string()], text: "builder".to_string() }
}

#[test]
fn builder_attribute_forms() {
    let b = Builder::from_meta(&Meta::Path(builder_path())).ok().expect("valid");
    assert!(b.enabled && b.rename.is_none());
    let b = Builder::from_meta(&Meta::NameValue(builder_path(), MetaLit::Bool(false))).ok().expect("valid");
    assert!(!b.enabled && b.rename.is_none());
    let b = Builder::from_meta(&Meta::NameValue(builder_path(), MetaLit::Str("with_x".to_string()))).ok().expect("valid");
    assert!(b.enabled);
    assert_eq!(b.rename, Some("with_x".to_string()));
    assert_eq!(
        Builder::from_meta(&Meta::NameValue(builder_path(), MetaLit::Other)).err(),
        Some(vec![MetaError::UnexpectedLiteral])
    );
    assert_eq!(
        Builder::from_meta(&Meta::List(builder_path(), vec![])).err(),
        Some(vec![MetaError::Unsupported(Format::List)])
    );
    let d = Builder::default();
    assert!(d.enabled && d.rename.is_none());
}

const COMMON: [&str; 13] = [
    "availability",
    "availability_mode",
    "device",
    "enabled_by_default",
    "encoding",
    "entity_category",
    "icon",
    "json_attributes_template",
    "json_attributes_topic",
    "name",
    "object_id",
    "qos",
    "unique_id",
];

#[test]
fn common_fields_are_listed_in_order() {
    let fields = common_fields();
    let names: Vec<String> = fields.iter().map(|f| f.ident.clone().expect("named")).collect();
    assert_eq!(names, COMMON.iter().map(|n| n.to_string()).collect::<Vec<_>>());
    let validated: Vec<bool> = fields.iter().map(|f| !matches!(f.validate, Validation::Disabled)).collect();
    assert_eq!(validated, vec![true, false, true, false, false, false, true, true, true, true, false, false, true]);
}

#[test]
fn common_fields_are_never_required() {
    for field in common_fields() {
        let checked = EntityField::from_input(field);
        assert!(!checked.required, "{} should be optional", checked.ident);
    }
}

#[test]
fn entity_gets_common_fields_first() {
    let input = EntityStructInput {
        ident: "Sensor".to_string(),
        lifetimes: vec!["a".to_string()],
        data: StructData::Named(vec![entity_field("state_topic", vec![])]),
        attrs: vec![],
    }
    .with_common_fields();
    let checked = EntityStruct::from_input(input).ok().expect("should be valid");
    assert_eq!(checked.fields.len(), 14);
    assert_eq!(checked.fields[0].ident, "availability");
    assert_eq!(checked.fields[0].variant_ident, "Availability");
    assert_eq!(checked.fields[12].variant_ident, "UniqueId");
    assert_eq!(checked.fields[13].ident, "state_topic");
    assert!(checked.fields[13].required);
}

#[test]
fn document_gets_common_fields_first() {
    let fields = common_document_fields();
    assert_eq!(fields.len(), 13);
    assert!(fields.iter().all(|f| f.is_public && f.builder.enabled && f.builder.rename.is_none()));
    let input = DocumentStructInput {
        ident: "Light".to_string(),
        lifetimes: vec!["a".to_string()],
        data: StructData::Named(vec![document_field(Some("command_topic"), true, vec![])]),
        attrs: vec![],
        extend_json: None,
        validate: None,
    }
    .with_common_fields();
    let checked = DocumentStruct::from_input(input).ok().expect("should be valid");
    assert_eq!(checked.fields.len(), 14);
    assert_eq!(checked.fields[3].variant_ident, "EnabledByDefault");
    assert!(!checked.fields[3].required);
    assert_eq!(checked.fields[3].serde.len(), 1);
    assert_eq!(checked.fields[13].ident, "command_topic");
    assert!(checked.fields[13].required);
}

fn validate_path() -> MetaPath {
    MetaPath { segments: vec!["validate".to_string()], text: "validate".to_string() }
}

#[test]
fn field_validation_attribute_forms() {
    assert!(matches!(Validation::from_meta(&Meta::Path(validate_path())), Ok(Validation::Default)));
    match Validation::from_meta(&Meta::NameValue(validate_path(), MetaLit::Str("crate::checks::topic".to_string()))) {
        Ok(Validation::With(path)) => assert_eq!(path, "crate::checks::topic"),
        _ => panic!("expected a validation function"),
    }
    assert_eq!(
        Validation::from_meta(&Meta::NameValue(validate_path(), MetaLit::Str("not a path!".to_string()))).err(),
        Some(vec![MetaError::UnknownValue])
    );
    assert_eq!(
        Validation::from_meta(&Meta::NameValue(validate_path(), MetaLit::Bool(true))).err(),
        Some(vec![MetaError::UnexpectedLiteral])
    );
    assert_eq!(
        Validation::from_meta(&Meta::List(validate_path(), vec![])).err(),
        Some(vec![MetaError::Unsupported(Format::List)])
    );
}

#[test]
fn entity_with_only_a_lifetimes_is_accepted() {
    let input = |lifetimes: Vec<&str>| EntityStructInput {
        ident: "S".to_string(),
        lifetimes: lifetimes.into_iter().map(|l| l.to_string()).collect(),
        data: StructData::Named(vec![entity_field("x", vec![])]),
        attrs: vec![],
    };
    assert!(EntityStruct::from_input(input(vec!["a", "a"])).is_ok());
    assert!(EntityStruct::from_input(input(vec!["a", "b"])).is_err());
    assert!(EntityStruct::from_input(input(vec![])).is_err());
}

#[test]
fn document_is_accepted_only_with_named_public_fields() {
    let input = |is_public: bool| DocumentStructInput {
        ident: "D".to_string(),
        lifetimes: vec!["a".to_string()],
        data: StructData::Named(vec![document_field(Some("x"), true, vec![]), document_field(Some("y"), is_public, vec![])]),
        attrs: vec![],
        extend_json: None,
        validate: None,
    };
    assert!(DocumentStruct::from_input(input(true)).is_ok());
    assert!(DocumentStruct::from_input(input(false)).is_err());
}
