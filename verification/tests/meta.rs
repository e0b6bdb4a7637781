use hass_mqtt::meta::{
    AdditionalInvalidities, AdditionalProps, Format, Leaf, Meta, MetaError, MetaLit, MetaPath, NestedItem, VariantFields,
};

fn path(segments: &[&str]) -> MetaPath {
    MetaPath { segments: segments.iter().map(|s| s.to_string()).collect(), text: segments.join("::") }
}

fn name_value(name: &str, value: &str) -> NestedItem {
    NestedItem::NameValue(path(&[name]), MetaLit::Str(value.to_string()))
}

#[test]
fn props_are_read_in_name_order() {
    let meta = Meta::List(path(&["extend_json"]), vec![name_value("zeta", "1"), name_value("alpha", "2")]);
    let props = AdditionalProps::from_meta(&meta).ok().expect("should be valid");
    assert_eq!(
        props.props().clone(),
        vec![("alpha".to_string(), "2".to_string()), ("zeta".to_string(), "1".to_string())]
    );
}

#[test]
fn later_prop_wins() {
    let meta = Meta::List(path(&["extend_json"]), vec![name_value("a", "first"), name_value("a", "second")]);
    let props = AdditionalProps::from_meta(&meta).ok().expect("should be valid");
    assert_eq!(props.props().clone(), vec![("a".to_string(), "second".to_string())]);
}

#[test]
fn bad_props_are_all_reported() {
    let meta = Meta::List(
        path(&["extend_json"]),
        vec![
            NestedItem::Literal,
            name_value("ok", "v"),
            NestedItem::Path(path(&["p"])),
            NestedItem::List(path(&["l"]), vec![]),
            NestedItem::NameValue(path(&["a", "b"]), MetaLit::Str("v".to_string())),
            NestedItem::NameValue(path(&["n"]), MetaLit::Bool(true)),
        ],
    );
    let errors = AdditionalProps::from_meta(&meta).err().expect("should be invalid");
    assert_eq!(
        errors,
        vec![
            MetaError::Unsupported(Format::Literal),
            MetaError::Unsupported(Format::Path),
            MetaError::Unsupported(Format::List),
            MetaError::Unsupported(Format::Path),
            MetaError::UnexpectedLiteral,
        ]
    );
}

#[test]
fn props_need_a_list() {
    assert_eq!(
        AdditionalProps::from_meta(&Meta::Path(path(&["extend_json"]))).err(),
        Some(vec![MetaError::Unsupported(Format::Path)])
    );
    assert_eq!(
        AdditionalProps::from_meta(&Meta::NameValue(path(&["extend_json"]), MetaLit::Other)).err(),
        Some(vec![MetaError::Unsupported(Format::NameValue)])
    );
}

#[test]
fn default_props_are_empty() {
    assert!(AdditionalProps::default().props().is_empty());
}

#[test]
fn invalidity_variants_are_read_in_order() {
    let meta = Meta::List(
        path(&["validate"]),
        vec![
            NestedItem::Path(path(&["Plain"])),
            NestedItem::List(path(&["WithData"]), vec![Leaf::Path(path(&["u8"])), Leaf::Path(path(&["std", "string", "String"]))]),
        ],
    );
    let invalidities = AdditionalInvalidities::from_meta(&meta).ok().expect("should be valid");
    let variants = invalidities.variants();
    assert_eq!(variants.len(), 2);
    assert_eq!(variants[0].ident, "Plain");
    assert!(matches!(variants[0].fields, VariantFields::Unit));
    assert_eq!(variants[1].ident, "WithData");
    match &variants[1].fields {
        VariantFields::Unnamed(types) => assert_eq!(types, &vec!["u8".to_string(), "std::string::String".to_string()]),
        VariantFields::Unit => panic!("expected fields"),
    }
}

#[test]
fn single_invalidity_variant_from_path() {
    let invalidities = AdditionalInvalidities::from_meta(&Meta::Path(path(&["Only"]))).ok().expect("should be valid");
    assert_eq!(invalidities.variants().len(), 1);
    assert_eq!(invalidities.variants()[0].ident, "Only");
    assert_eq!(
        AdditionalInvalidities::from_meta(&Meta::Path(path(&["a", "B"]))).err(),
        Some(vec![MetaError::Unsupported(Format::Path)])
    );
}

#[test]
fn bad_invalidity_items_are_all_reported() {
    let meta = Meta::List(
        path(&["validate"]),
        vec![
            NestedItem::Literal,
            NestedItem::NameValue(path(&["x"]), MetaLit::Str("y".to_string())),
            NestedItem::Path(path(&["a", "B"])),
            NestedItem::List(path(&["V"]), vec![Leaf::Literal, Leaf::List, Leaf::NameValue, Leaf::Path(path(&["u8"]))]),
            NestedItem::List(path(&["a", "W"]), vec![Leaf::Literal]),
        ],
    );
    assert_eq!(
        AdditionalInvalidities::from_meta(&meta).err(),
        Some(vec![
            MetaError::Unsupported(Format::Literal),
            MetaError::Unsupported(Format::NameValue),
            MetaError::Unsupported(Format::Path),
            MetaError::Unsupported(Format::Literal),
            MetaError::Unsupported(Format::List),
            MetaError::Unsupported(Format::NameValue),
            MetaError::Unsupported(Format::Path),
        ])
    );
    assert_eq!(
        AdditionalInvalidities::from_meta(&Meta::NameValue(path(&["validate"]), MetaLit::Other)).err(),
        Some(vec![MetaError::Unsupported(Format::NameValue)])
    );
}

#[test]
fn default_invalidities_are_empty() {
    assert!(AdditionalInvalidities::default().variants().is_empty());
}
