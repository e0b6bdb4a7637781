use hass_mqtt::types::{
    make_lifetimes, make_lifetimes_static, ArgTree, ArgsTree, BoundTree, PathTree, QSelfTree, SegmentTree, TypeTree,
};

fn simple(ident: &str, args: ArgsTree) -> TypeTree {
    TypeTree::Path(None, PathTree { leading_colon: false, segments: vec![SegmentTree { ident: ident.to_string(), args }] })
}

fn reference(lifetime: Option<&str>, elem: TypeTree) -> TypeTree {
    TypeTree::Reference(lifetime.map(|l| l.to_string()), false, Box::new(elem))
}

fn lifetimes_of(t: &TypeTree, out: &mut Vec<String>) {
    match t {
        TypeTree::Array(e, _) | TypeTree::Group(e) | TypeTree::Paren(e) | TypeTree::Slice(e) => lifetimes_of(e, out),
        TypeTree::Reference(l, _, e) => {
            if let Some(l) = l {
                out.push(l.clone());
            }
            lifetimes_of(e, out);
        }
        TypeTree::Tuple(es) => es.iter().for_each(|e| lifetimes_of(e, out)),
        TypeTree::Path(q, p) => {
            if let Some(q) = q {
                lifetimes_of(&q.ty, out);
            }
            for s in &p.segments {
                if let ArgsTree::AngleBracketed(args) = &s.args {
                    for a in args {
                        match a {
                            ArgTree::Lifetime(l) => out.push(l.clone()),
                            ArgTree::Type(t) | ArgTree::AssocType(_, t) => lifetimes_of(t, out),
                            ArgTree::Constraint(_, bounds) => {
                                for b in bounds {
                                    if let BoundTree::Lifetime(l) = b {
                                        out.push(l.clone());
                                    }
                                }
                            }
                            ArgTree::Other(_) => {}
                        }
                    }
                }
            }
        }
        TypeTree::Other(_) => {}
    }
}

fn cow_of_str() -> TypeTree {
    // ::std::borrow::Cow<'a, str>
    TypeTree::Path(
        None,
        PathTree {
            leading_colon: true,
            segments: vec![
                SegmentTree { ident: "std".to_string(), args: ArgsTree::Empty },
                SegmentTree { ident: "borrow".to_string(), args: ArgsTree::Empty },
                SegmentTree {
                    ident: "Cow".to_string(),
                    args: ArgsTree::AngleBracketed(vec![
                        ArgTree::Lifetime("a".to_string()),
                        ArgTree::Type(TypeTree::Other("str".to_string())),
                    ]),
                },
            ],
        },
    )
}

#[test]
fn every_lifetime_becomes_static() {
    let t = TypeTree::Tuple(vec![
        reference(Some("a"), cow_of_str()),
        TypeTree::Slice(Box::new(reference(Some("b"), simple("u8", ArgsTree::Empty)))),
        simple("Option", ArgsTree::AngleBracketed(vec![ArgTree::Type(cow_of_str())])),
    ]);
    let mut before = Vec::new();
    lifetimes_of(&t, &mut before);
    assert_eq!(before, vec!["a", "a", "b", "a"]);
    let s = make_lifetimes_static(&t);
    let mut after = Vec::new();
    lifetimes_of(&s, &mut after);
    assert_eq!(after, vec!["static", "static", "static", "static"]);
}

#[test]
fn references_without_lifetime_stay_elided() {
    let t = reference(None, cow_of_str());
    match make_lifetimes(&t, &"x".to_string()) {
        TypeTree::Reference(None, false, inner) => {
            let mut found = Vec::new();
            lifetimes_of(&inner, &mut found);
            assert_eq!(found, vec!["x"]);
        }
        _ => panic!("expected a reference without lifetime"),
    }
}

#[test]
fn constraint_lifetime_bounds_are_dropped() {
    let t = simple(
        "Box",
        ArgsTree::AngleBracketed(vec![ArgTree::Constraint(
            "Item".to_string(),
            vec![BoundTree::Lifetime("a".to_string()), BoundTree::Trait("Send".to_string())],
        )]),
    );
    match make_lifetimes_static(&t) {
        TypeTree::Path(None, p) => match &p.segments[0].args {
            ArgsTree::AngleBracketed(args) => match &args[0] {
                ArgTree::Constraint(name, bounds) => {
                    assert_eq!(name, "Item");
                    assert_eq!(bounds.len(), 1);
                    assert!(matches!(&bounds[0], BoundTree::Trait(b) if b == "Send"));
                }
                _ => panic!("expected a constraint"),
            },
            _ => panic!("expected arguments"),
        },
        _ => panic!("expected a path"),
    }
}

#[test]
fn qualified_self_and_other_types() {
    let t = TypeTree::Path(
        Some(QSelfTree { ty: Box::new(reference(Some("a"), TypeTree::Other("T".to_string()))), position: 1 }),
        PathTree {
            leading_colon: false,
            segments: vec![
                SegmentTree { ident: "Trait".to_string(), args: ArgsTree::Parenthesized("(&'a u8)".to_string()) },
                SegmentTree { ident: "Output".to_string(), args: ArgsTree::Empty },
            ],
        },
    );
    match make_lifetimes_static(&t) {
        TypeTree::Path(Some(q), p) => {
            assert_eq!(q.position, 1);
            assert!(matches!(&*q.ty, TypeTree::Reference(Some(l), _, _) if l == "static"));
            assert!(matches!(&p.segments[0].args, ArgsTree::Parenthesized(text) if text == "(&'a u8)"));
        }
        _ => panic!("expected a qualified path"),
    }
    let fn_ptr = TypeTree::Other("fn(&'a u8)".to_string());
    assert!(matches!(make_lifetimes_static(&fn_ptr), TypeTree::Other(text) if text == "fn(&'a u8)"));
    let arr = TypeTree::Array(Box::new(reference(Some("a"), TypeTree::Other("u8".to_string()))), "4".to_string());
    assert!(matches!(make_lifetimes_static(&arr), TypeTree::Array(e, n) if n == "4" && matches!(&*e, TypeTree::Reference(Some(l), _, _) if l == "static")));
}

#[test]
fn relabeling_twice_is_relabeling_once() {
    let t = reference(Some("a"), cow_of_str());
    let once = make_lifetimes_static(&t);
    let twice = make_lifetimes_static(&once);
    let (mut a, mut b) = (Vec::new(), Vec::new());
    lifetimes_of(&once, &mut a);
    lifetimes_of(&twice, &mut b);
    assert_eq!(a, b);
}
