use hass_mqtt::types::{as_option, as_std_option, match_path, ArgTree, ArgsTree, PathTree, SegmentTree, TypeTree};

fn segment(ident: &str, args: ArgsTree) -> SegmentTree {
    SegmentTree { ident: ident.to_string(), args }
}

fn other(text: &str) -> TypeTree {
    TypeTree::Other(text.to_string())
}

fn option_args(ty: &str) -> ArgsTree {
    ArgsTree::AngleBracketed(vec![ArgTree::Type(other(ty))])
}

fn full(root: &str, ty: &str) -> PathTree {
    PathTree {
        leading_colon: true,
        segments: vec![segment(root, ArgsTree::Empty), segment("option", ArgsTree::Empty), segment("Option", option_args(ty))],
    }
}

fn inner_text(t: Option<&TypeTree>) -> Option<&str> {
    match t {
        Some(TypeTree::Other(text)) => Some(text.as_str()),
        _ => None,
    }
}

#[test]
fn bare_option_is_recognised() {
    let path = PathTree { leading_colon: false, segments: vec![segment("Option", option_args("u8"))] };
    assert_eq!(inner_text(as_option(&path)), Some("u8"));
    assert_eq!(inner_text(as_std_option(&path)), Some("u8"));
}

#[test]
fn full_paths_are_recognised() {
    assert_eq!(inner_text(as_option(&full("std", "String"))), Some("String"));
    assert_eq!(inner_text(as_option(&full("core", "String"))), Some("String"));
    assert_eq!(inner_text(as_std_option(&full("std", "String"))), Some("String"));
    assert!(as_std_option(&full("core", "String")).is_none());
}

#[test]
fn full_path_needs_leading_colon() {
    let mut path = full("std", "u8");
    path.leading_colon = false;
    assert!(as_option(&path).is_none());
}

#[test]
fn other_types_are_not_options() {
    let vec_path = PathTree { leading_colon: false, segments: vec![segment("Vec", option_args("u8"))] };
    assert!(as_option(&vec_path).is_none());
    let two_args = PathTree {
        leading_colon: false,
        segments: vec![segment("Option", ArgsTree::AngleBracketed(vec![ArgTree::Type(other("u8")), ArgTree::Lifetime("a".to_string())]))],
    };
    assert!(as_option(&two_args).is_none());
    let lifetime = PathTree {
        leading_colon: false,
        segments: vec![segment("Option", ArgsTree::AngleBracketed(vec![ArgTree::Lifetime("a".to_string())]))],
    };
    assert!(as_option(&lifetime).is_none());
    let no_args = PathTree { leading_colon: false, segments: vec![segment("Option", ArgsTree::Empty)] };
    assert!(as_option(&no_args).is_none());
}

#[test]
fn match_path_gives_the_counting_segment() {
    let path = full("std", "u8");
    assert!(matches!(match_path(&path, &vec!["std", "option", "Option"]), Some(ArgsTree::AngleBracketed(_))));
    assert!(match_path(&path, &vec!["core", "option", "Option"]).is_none());
    let single = PathTree { leading_colon: false, segments: vec![segment("Option", ArgsTree::Parenthesized("(u8)".to_string()))] };
    assert!(matches!(match_path(&single, &vec!["std", "option", "Option"]), Some(ArgsTree::Parenthesized(_))));
}
