use hass_mqtt::derive_input::{
    Builder, DocumentFieldInput, DocumentStruct, DocumentStructInput, EntityFieldInput, EntityStruct, EntityStructInput,
    StructData, Validation,
};
use hass_mqtt::generate::{document_checks, document_methods, entity_checks, entity_methods, entity_proxy_fields, serde_plan, MethodPlan};
use hass_mqtt::meta::{AdditionalProps, Meta, MetaLit, MetaPath, NestedItem};
use hass_mqtt::types::{ArgTree, ArgsTree, PathTree, SegmentTree, TypeTree};

fn path_type(ident: &str, args: ArgsTree) -> TypeTree {
    TypeTree::Path(None, PathTree { leading_colon: false, segments: vec![SegmentTree { ident: ident.to_string(), args }] })
}

fn option_of(inner: TypeTree) -> TypeTree {
    path_type("Option", ArgsTree::AngleBracketed(vec![ArgTree::Type(inner)]))
}

fn cow_a() -> TypeTree {
    path_type("Cow", ArgsTree::AngleBracketed(vec![ArgTree::Lifetime("a".to_string()), ArgTree::Type(path_type("str", ArgsTree::Empty))]))
}

fn doc_field(name: &str, ty: TypeTree, required: bool, builder: Builder) -> DocumentFieldInput {
    let attrs = if required {
        vec![]
    } else {
        vec![hass_mqtt::derive_input::AttrInput {
            ident: Some("serde".to_string()),
            args: hass_mqtt::derive_input::AttrArgs::List("default".to_string()),
        }]
    };
    DocumentFieldInput { ident: Some(name.to_string()), is_public: true, ty, attrs, validate: Validation::Disabled, builder }
}

fn enabled() -> Builder {
    Builder { enabled: true, rename: None }
}

fn document(fields: Vec<DocumentFieldInput>, extend_json: Option<AdditionalProps>) -> DocumentStruct {
    DocumentStruct::from_input(DocumentStructInput {
        ident: "Doc".to_string(),
        lifetimes: vec!["a".to_string()],
        data: StructData::Named(fields),
        attrs: vec![],
        extend_json,
        validate: None,
    })
    .ok()
    .expect("valid")
}

fn describe(plans: &[MethodPlan]) -> Vec<String> {
    plans
        .iter()
        .map(|p| match p {
            MethodPlan::Constructor(params) => format!("new{:?}", params),
            MethodPlan::Setter { field, method, inner } => format!("set {} {} {}", field, method, inner),
            MethodPlan::Unset { field, method } => format!("unset {} {}", field, method),
        })
        .collect()
}

#[test]
fn document_methods_plan() {
    let doc = document(
        vec![
            doc_field("command_topic", cow_a(), true, enabled()),
            doc_field("brightness", option_of(path_type("bool", ArgsTree::Empty)), false, enabled()),
            doc_field("hidden", path_type("u8", ArgsTree::Empty), true, Builder { enabled: false, rename: None }),
            doc_field("state_topic", option_of(cow_a()), false, Builder { enabled: true, rename: Some("state".to_string()) }),
        ],
        None,
    );
    assert_eq!(
        describe(&document_methods(&doc)),
        vec![
            "new[0, 2]",
            "set 0 command_topic false",
            "set 1 brightness true",
            "unset 1 unset_brightness",
            "set 3 state true",
            "unset 3 unset_state",
        ]
    );
}

#[test]
fn entity_methods_plan() {
    let input = EntityStructInput {
        ident: "Sensor".to_string(),
        lifetimes: vec!["a".to_string()],
        data: StructData::Named(vec![
            EntityFieldInput { ident: Some("state_topic".to_string()), ty: cow_a(), attrs: vec![], validate: Validation::Disabled },
            EntityFieldInput {
                ident: Some("unit".to_string()),
                ty: TypeTree::Path(
                    None,
                    PathTree {
                        leading_colon: true,
                        segments: vec![
                            SegmentTree { ident: "core".to_string(), args: ArgsTree::Empty },
                            SegmentTree { ident: "option".to_string(), args: ArgsTree::Empty },
                            SegmentTree { ident: "Option".to_string(), args: ArgsTree::AngleBracketed(vec![ArgTree::Type(cow_a())]) },
                        ],
                    },
                ),
                attrs: vec![],
                validate: Validation::Disabled,
            },
        ]),
        attrs: vec![],
    };
    let entity = EntityStruct::from_input(input).ok().expect("valid");
    // entities only recognise `std` options
    assert_eq!(describe(&entity_methods(&entity)), vec!["new[0, 1]", "set 0 state_topic false", "set 1 unit false"]);
    let proxy = entity_proxy_fields(&entity);
    assert_eq!(proxy.len(), 2);
    match &proxy[0] {
        TypeTree::Path(_, p) => match &p.segments[0].args {
            ArgsTree::AngleBracketed(args) => assert!(matches!(&args[0], ArgTree::Lifetime(l) if l == "b")),
            _ => panic!("expected arguments"),
        },
        _ => panic!("expected a path"),
    }
}

#[test]
fn serde_plan_renames_lifetimes_and_lists_props() {
    let meta = Meta::List(
        MetaPath { segments: vec!["extend_json".to_string()], text: "extend_json".to_string() },
        vec![
            NestedItem::NameValue(MetaPath { segments: vec!["schema".to_string()], text: "schema".to_string() }, MetaLit::Str("json".to_string())),
            NestedItem::NameValue(MetaPath { segments: vec!["platform".to_string()], text: "platform".to_string() }, MetaLit::Str("mqtt".to_string())),
        ],
    );
    let props = AdditionalProps::from_meta(&meta).ok().expect("valid");
    let doc = document(vec![doc_field("command_topic", cow_a(), true, enabled())], Some(props));
    let plan = serde_plan(&doc);
    assert_eq!(plan.extra, vec![("platform".to_string(), "mqtt".to_string()), ("schema".to_string(), "json".to_string())]);
    match &plan.fields[0] {
        TypeTree::Path(_, p) => match &p.segments[0].args {
            ArgsTree::AngleBracketed(args) => assert!(matches!(&args[0], ArgTree::Lifetime(l) if l == "b")),
            _ => panic!("expected arguments"),
        },
        _ => panic!("expected a path"),
    }
    let plain = document(vec![doc_field("x", cow_a(), true, enabled())], None);
    assert!(serde_plan(&plain).extra.is_empty());
}

#[test]
fn document_checks_follow_validated_fields() {
    let mut a = doc_field("first_value", path_type("u8", ArgsTree::Empty), true, enabled());
    a.validate = Validation::Default;
    let b = doc_field("skipped", path_type("u8", ArgsTree::Empty), true, enabled());
    let mut c = doc_field("third", path_type("u8", ArgsTree::Empty), true, enabled());
    c.validate = Validation::With("crate::check".to_string());
    let s = document(vec![a, b, c], None);
    let checks = document_checks(&s);
    let described: Vec<(usize, String, Option<String>)> = checks.into_iter().map(|c| (c.field, c.variant, c.with)).collect();
    assert_eq!(
        described,
        vec![(0, "FirstValue".to_string(), None), (2, "Third".to_string(), Some("crate::check".to_string()))]
    );
}

#[test]
fn entity_checks_follow_validated_fields() {
    let field = |name: &str, validate: Validation| EntityFieldInput {
        ident: Some(name.to_string()),
        ty: path_type("u8", ArgsTree::Empty),
        attrs: vec![],
        validate,
    };
    let s = EntityStruct::from_input(EntityStructInput {
        ident: "E".to_string(),
        lifetimes: vec!["a".to_string()],
        data: StructData::Named(vec![field("plain", Validation::Disabled), field("state_topic", Validation::Default)]),
        attrs: vec![],
    })
    .ok()
    .expect("valid");
    assert_eq!(entity_checks(&s), vec![(1, "StateTopic".to_string())]);
}
