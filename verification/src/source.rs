//! Reading a derive's input from the struct's source: syn parses it, and the
//! result is converted one for one into the library's model (`parse_struct`,
//! with the `convert_*` functions that make up its conversion); the derive's
//! own attributes (`#[entity(..)]`, and `#[state(..)]` for documents) are
//! then read, every problem reported together, and the struct is checked.

pub mod entity;
pub mod entity_doc;
pub mod state_doc;

use vstd::prelude::*;
use syn::punctuated::Punctuated;
use syn::{Attribute, Data, DeriveInput, Expr, Field, Fields, GenericArgument, Lit, Path, PathArguments, Type, TypeParamBound};
use crate::args::ArgsError;
use crate::derive_input::{
    has_ident, AttrArgs, AttrInput, Builder, DeriveError, DocumentFieldInput, DocumentStruct, DocumentStructInput, EntityFieldInput,
    EntityStruct, EntityStructInput, StructData, Validation, entity_errors, entity_struct_made, entity_with_common,
    document_errors, document_struct_made,
};
use crate::meta::{
    invalidity_errors, prop_errors, props_of, variant_made, AdditionalInvalidities, AdditionalProps, Format, Leaf, Meta,
    MetaError, MetaLit, MetaPath, NestedItem,
};
use crate::discovery::strings::str_equal;
use crate::types::{ArgTree, ArgsTree, BoundTree, PathTree, QSelfTree, SegmentTree, TypeTree};

verus! {

/// `syn::DeriveInput`, opaque.
#[verifier::external_type_specification]
#[verifier::external_body]
pub struct ExDeriveInput(DeriveInput);

/// `syn::Data`, opaque.
#[verifier::external_type_specification]
#[verifier::external_body]
pub struct ExData(Data);

/// `syn::Field`, opaque.
#[verifier::external_type_specification]
#[verifier::external_body]
pub struct ExField(Field);

/// `syn::Attribute`, opaque.
#[verifier::external_type_specification]
#[verifier::external_body]
pub struct ExAttribute(Attribute);

/// `syn::Expr`, opaque.
#[verifier::external_type_specification]
#[verifier::external_body]
pub struct ExExpr(Expr);

/// `syn::Path`, opaque.
#[verifier::external_type_specification]
#[verifier::external_body]
pub struct ExPath(Path);

/// `syn::Type`, opaque.
#[verifier::external_type_specification]
#[verifier::external_body]
pub struct ExType(Type);

/// `syn::PathArguments`, opaque.
#[verifier::external_type_specification]
#[verifier::external_body]
pub struct ExPathArguments(PathArguments);

/// `syn::GenericArgument`, opaque.
#[verifier::external_type_specification]
#[verifier::external_body]
pub struct ExGenericArgument(GenericArgument);

/// `syn::TypeParamBound`, opaque.
#[verifier::external_type_specification]
#[verifier::external_body]
pub struct ExTypeParamBound(TypeParamBound);

/// An attribute of the struct or of a field.
pub struct ParsedAttr {
    /// The attribute's path and arguments as text.
    pub attr: AttrInput,
    /// The attribute's arguments read as a list of meta items, when they are
    /// one: paths, `path(..)` lists and `path = literal` pairs.
    pub items: Option<Vec<Meta>>,
}

/// A field of the struct.
pub struct ParsedField {
    pub ident: Option<String>,
    pub is_public: bool,
    pub ty: TypeTree,
    pub attrs: Vec<ParsedAttr>,
}

/// A struct (or another item a derive is applied to), as syn reads it.
pub struct ParsedStruct {
    pub ident: String,
    /// The names of the declared lifetimes, without the quote.
    pub lifetimes: Vec<String>,
    pub data: StructData<ParsedField>,
    pub attrs: Vec<ParsedAttr>,
}

/// What syn reads from a derive's input source, in the library's model;
/// `None` when syn refuses the source.
pub uninterp spec fn parsed_struct(source: Seq<char>) -> Option<ParsedStruct>;

/// `syn::parse_str::<syn::DeriveInput>(source)`, converted one for one into
/// the library's model: the result is a function of the source alone, `None`
/// where syn refuses it. What syn accepts and how it reads it is not stated.
#[verifier::external_body]
pub(crate) fn parse_struct(source: &str) -> (res: Option<ParsedStruct>)
    ensures
        res == parsed_struct(source@),
{
    match syn::parse_str::<DeriveInput>(source) {
        Ok(input) => Some(convert_input(&input)),
        Err(_) => None,
    }
}

/// Converts a parsed derive input.
#[verifier::external_body]
fn convert_input(input: &DeriveInput) -> ParsedStruct {
    ParsedStruct {
        ident: input.ident.to_string(),
        lifetimes: input.generics.lifetimes().map(|l| l.lifetime.ident.to_string()).collect(),
        data: convert_data(&input.data),
        attrs: input.attrs.iter().map(convert_attr).collect(),
    }
}

/// Converts the body of a derive input.
#[verifier::external_body]
fn convert_data(data: &Data) -> StructData<ParsedField> {
    match data {
        Data::Struct(s) => match &s.fields {
            Fields::Named(named) => StructData::Named(named.named.iter().map(convert_field).collect()),
            _ => StructData::Other,
        },
        _ => StructData::Other,
    }
}

/// Converts a field.
#[verifier::external_body]
fn convert_field(field: &Field) -> ParsedField {
    ParsedField {
        ident: field.ident.as_ref().map(|i| i.to_string()),
        is_public: matches!(field.vis, syn::Visibility::Public(_)),
        ty: convert_type(&field.ty),
        attrs: field.attrs.iter().map(convert_attr).collect(),
    }
}

/// Converts an attribute: its path, its arguments as text, and its
/// arguments read as meta items.
#[verifier::external_body]
fn convert_attr(attr: &Attribute) -> ParsedAttr {
    let items = match attr.parse_args_with(Punctuated::<Expr, syn::token::Comma>::parse_terminated) {
        Ok(list) => list.iter().map(convert_meta).collect::<Option<Vec<Meta>>>(),
        Err(_) => None,
    };
    let ident = attr.path().get_ident().map(|i| i.to_string());
    ParsedAttr { attr: AttrInput { ident, args: convert_attr_args(attr) }, items }
}

/// Converts the arguments of an attribute to text (a documentation line's text).
#[verifier::external_body]
fn convert_attr_args(attr: &Attribute) -> AttrArgs {
    match &attr.meta {
        syn::Meta::Path(_) => AttrArgs::Empty,
        syn::Meta::List(list) => AttrArgs::List(list.tokens.to_string()),
        syn::Meta::NameValue(nv) => AttrArgs::NameValue(match &nv.value {
            Expr::Lit(syn::ExprLit { lit: Lit::Str(s), .. }) => s.value(),
            other => quote::ToTokens::to_token_stream(other).to_string(),
        }),
    }
}

/// Converts a meta item: a path, `path(items)` or `path = literal`.
#[verifier::external_body]
fn convert_meta(expr: &Expr) -> Option<Meta> {
    match expr {
        Expr::Path(p) => Some(Meta::Path(convert_meta_path(&p.path))),
        Expr::Call(c) => match &*c.func {
            Expr::Path(p) => Some(Meta::List(convert_meta_path(&p.path), c.args.iter().map(convert_item).collect())),
            _ => None,
        },
        Expr::Assign(a) => match &*a.left {
            Expr::Path(p) => Some(Meta::NameValue(convert_meta_path(&p.path), convert_lit(&a.right))),
            _ => None,
        },
        _ => None,
    }
}

/// Converts an item of a meta list.
#[verifier::external_body]
fn convert_item(expr: &Expr) -> NestedItem {
    match expr {
        Expr::Path(p) => NestedItem::Path(convert_meta_path(&p.path)),
        Expr::Call(c) => match &*c.func {
            Expr::Path(p) => NestedItem::List(convert_meta_path(&p.path), c.args.iter().map(convert_leaf).collect()),
            _ => NestedItem::Literal,
        },
        Expr::Assign(a) => match &*a.left {
            Expr::Path(p) => NestedItem::NameValue(convert_meta_path(&p.path), convert_lit(&a.right)),
            _ => NestedItem::Literal,
        },
        _ => NestedItem::Literal,
    }
}

/// Converts an item of a list nested in a meta list.
#[verifier::external_body]
fn convert_leaf(expr: &Expr) -> Leaf {
    match expr {
        Expr::Path(p) => Leaf::Path(convert_meta_path(&p.path)),
        Expr::Call(_) => Leaf::List,
        Expr::Assign(_) => Leaf::NameValue,
        _ => Leaf::Literal,
    }
}

/// Converts the literal on the right of `path = ..`.
#[verifier::external_body]
fn convert_lit(expr: &Expr) -> MetaLit {
    match expr {
        Expr::Lit(syn::ExprLit { lit: Lit::Str(s), .. }) => MetaLit::Str(s.value()),
        Expr::Lit(syn::ExprLit { lit: Lit::Bool(b), .. }) => MetaLit::Bool(b.value),
        _ => MetaLit::Other,
    }
}

/// Converts a path in an attribute.
#[verifier::external_body]
fn convert_meta_path(path: &Path) -> MetaPath {
    MetaPath {
        segments: path.segments.iter().map(|s| s.ident.to_string()).collect(),
        text: quote::ToTokens::to_token_stream(path).to_string(),
    }
}

/// Converts a type.
#[verifier::external_body]
fn convert_type(ty: &Type) -> TypeTree {
    match ty {
        Type::Tuple(t) => TypeTree::Tuple(t.elems.iter().map(convert_type).collect()),
        Type::Path(p) => TypeTree::Path(
            p.qself.as_ref().map(|q| QSelfTree { ty: Box::new(convert_type(&q.ty)), position: q.position }),
            convert_type_path(&p.path),
        ),
        other => convert_wrapped_type(other),
    }
}

/// Converts a type that wraps another: an array, a group, parentheses, a
/// slice or a reference; any other type as its text.
#[verifier::external_body]
fn convert_wrapped_type(ty: &Type) -> TypeTree {
    match ty {
        Type::Array(a) => TypeTree::Array(Box::new(convert_type(&a.elem)), quote::ToTokens::to_token_stream(&a.len).to_string()),
        Type::Group(g) => TypeTree::Group(Box::new(convert_type(&g.elem))),
        Type::Paren(p) => TypeTree::Paren(Box::new(convert_type(&p.elem))),
        Type::Slice(s) => TypeTree::Slice(Box::new(convert_type(&s.elem))),
        Type::Reference(r) => TypeTree::Reference(
            r.lifetime.as_ref().map(|l| l.ident.to_string()),
            r.mutability.is_some(),
            Box::new(convert_type(&r.elem)),
        ),
        other => TypeTree::Other(quote::ToTokens::to_token_stream(other).to_string()),
    }
}

/// Converts the path of a type.
#[verifier::external_body]
fn convert_type_path(path: &Path) -> PathTree {
    PathTree {
        leading_colon: path.leading_colon.is_some(),
        segments: path.segments.iter().map(|s| SegmentTree { ident: s.ident.to_string(), args: convert_args(&s.arguments) }).collect(),
    }
}

/// Converts the arguments of a path segment.
#[verifier::external_body]
fn convert_args(args: &PathArguments) -> ArgsTree {
    match args {
        PathArguments::None => ArgsTree::Empty,
        PathArguments::AngleBracketed(a) => ArgsTree::AngleBracketed(a.args.iter().map(convert_generic_arg).collect()),
        PathArguments::Parenthesized(p) => ArgsTree::Parenthesized(quote::ToTokens::to_token_stream(p).to_string()),
    }
}

/// Converts a generic argument.
#[verifier::external_body]
fn convert_generic_arg(arg: &GenericArgument) -> ArgTree {
    match arg {
        GenericArgument::Lifetime(l) => ArgTree::Lifetime(l.ident.to_string()),
        GenericArgument::Type(t) => ArgTree::Type(convert_type(t)),
        GenericArgument::AssocType(a) => ArgTree::AssocType(a.ident.to_string(), convert_type(&a.ty)),
        GenericArgument::Constraint(c) => ArgTree::Constraint(c.ident.to_string(), c.bounds.iter().map(convert_bound).collect()),
        other => ArgTree::Other(quote::ToTokens::to_token_stream(other).to_string()),
    }
}

/// Converts a bound of a constraint.
#[verifier::external_body]
fn convert_bound(bound: &TypeParamBound) -> BoundTree {
    match bound {
        TypeParamBound::Lifetime(l) => BoundTree::Lifetime(l.ident.to_string()),
        other => BoundTree::Trait(quote::ToTokens::to_token_stream(other).to_string()),
    }
}

// --- reading the derive's options ---

/// The attribute carries the derive's options: `entity`, and for documents
/// also `state`.
pub open spec fn is_option_attr(a: ParsedAttr, document: bool) -> bool {
    has_ident(a.attr, "entity"@) || (document && has_ident(a.attr, "state"@))
}

/// The options of the attributes, in order: each item of an option
/// attribute, or `None` for an option attribute whose arguments are not a
/// list of options.
pub open spec fn option_entries(attrs: Seq<ParsedAttr>, document: bool) -> Seq<Option<Meta>>
    decreases attrs.len(),
{
    if attrs.len() == 0 {
        Seq::empty()
    } else {
        let rest = option_entries(attrs.drop_last(), document);
        let a = attrs.last();
        if is_option_attr(a, document) {
            match a.items {
                Some(items) => rest + items@.map_values(|m: Meta| Some(m)),
                None => rest.push(None),
            }
        } else {
            rest
        }
    }
}

/// The path of an option.
pub open spec fn meta_path(m: Meta) -> MetaPath {
    match m {
        Meta::Path(p) => p,
        Meta::List(p, _) => p,
        Meta::NameValue(p, _) => p,
    }
}

/// The option's path is the single name `key`.
pub open spec fn is_key(p: MetaPath, key: Seq<char>) -> bool {
    p.segments@.len() == 1 && p.segments@[0]@ == key
}

/// What the `validate` option of a field says.
pub open spec fn validation_of(m: Meta) -> Result<Validation, MetaError> {
    match m {
        Meta::Path(_) => Ok(Validation::Default),
        Meta::NameValue(_, MetaLit::Str(text)) => if crate::derive_input::parses_as_path(text@) {
            Ok(Validation::With(text))
        } else {
            Err(MetaError::UnknownValue)
        },
        Meta::NameValue(_, _) => Err(MetaError::UnexpectedLiteral),
        Meta::List(_, _) => Err(MetaError::Unsupported(Format::List)),
    }
}

/// What the `builder` option of a document field says.
pub open spec fn builder_of(m: Meta) -> Result<Builder, MetaError> {
    match m {
        Meta::Path(_) => Ok(Builder { enabled: true, rename: None }),
        Meta::NameValue(_, MetaLit::Bool(v)) => Ok(Builder { enabled: v, rename: None }),
        Meta::NameValue(_, MetaLit::Str(name)) => Ok(Builder { enabled: true, rename: Some(name) }),
        Meta::NameValue(_, MetaLit::Other) => Err(MetaError::UnexpectedLiteral),
        Meta::List(_, _) => Err(MetaError::Unsupported(Format::List)),
    }
}

/// The options of a field, read so far.
#[verifier::ext_equal]
pub struct FieldOptions {
    pub validate_seen: bool,
    pub validate: Option<Validation>,
    pub builder_seen: bool,
    pub builder: Option<Builder>,
    pub errors: Seq<DeriveError>,
}

/// Reads one more option of a field.
pub open spec fn field_step(r: FieldOptions, e: Option<Meta>, document: bool) -> FieldOptions {
    match e {
        None => FieldOptions { errors: r.errors.push(DeriveError::UnreadableAttribute), ..r },
        Some(m) => {
            let p = meta_path(m);
            if is_key(p, "validate"@) {
                if r.validate_seen {
                    FieldOptions { errors: r.errors.push(DeriveError::DuplicateOption(p.text)), ..r }
                } else {
                    match validation_of(m) {
                        Ok(v) => FieldOptions { validate_seen: true, validate: Some(v), ..r },
                        Err(x) => FieldOptions { validate_seen: true, errors: r.errors.push(DeriveError::InvalidOption(x)), ..r },
                    }
                }
            } else if document && is_key(p, "builder"@) {
                if r.builder_seen {
                    FieldOptions { errors: r.errors.push(DeriveError::DuplicateOption(p.text)), ..r }
                } else {
                    match builder_of(m) {
                        Ok(b) => FieldOptions { builder_seen: true, builder: Some(b), ..r },
                        Err(x) => FieldOptions { builder_seen: true, errors: r.errors.push(DeriveError::InvalidOption(x)), ..r },
                    }
                }
            } else {
                FieldOptions { errors: r.errors.push(DeriveError::UnknownOption(p.text)), ..r }
            }
        },
    }
}

/// The options of a field, read in order.
pub open spec fn field_options(entries: Seq<Option<Meta>>, document: bool) -> FieldOptions
    decreases entries.len(),
{
    if entries.len() == 0 {
        FieldOptions { validate_seen: false, validate: None, builder_seen: false, builder: None, errors: Seq::empty() }
    } else {
        field_step(field_options(entries.drop_last(), document), entries.last(), document)
    }
}

/// The errors a reading of `extend_json` reports.
pub open spec fn props_meta_errors(m: Meta) -> Seq<MetaError> {
    match m {
        Meta::Path(_) => seq![MetaError::Unsupported(Format::Path)],
        Meta::NameValue(_, _) => seq![MetaError::Unsupported(Format::NameValue)],
        Meta::List(_, items) => prop_errors(items@),
    }
}

/// The errors a reading of `validate(..)` reports.
pub open spec fn invalidity_meta_errors(m: Meta) -> Seq<MetaError> {
    match m {
        Meta::NameValue(_, _) => seq![MetaError::Unsupported(Format::NameValue)],
        Meta::Path(p) => if p.segments@.len() == 1 {
            Seq::empty()
        } else {
            seq![MetaError::Unsupported(Format::Path)]
        },
        Meta::List(_, items) => invalidity_errors(items@),
    }
}

/// The option errors, as derive errors.
pub open spec fn option_errors(es: Seq<MetaError>) -> Seq<DeriveError> {
    es.map_values(|e: MetaError| DeriveError::InvalidOption(e))
}

/// The options of a struct, read so far: the `extend_json` and `validate`
/// options that were read without error.
#[verifier::ext_equal]
pub struct StructOptions {
    pub props_seen: bool,
    pub props: Option<Meta>,
    pub invalid_seen: bool,
    pub invalid: Option<Meta>,
    pub errors: Seq<DeriveError>,
}

/// Reads one more option of a struct.
pub open spec fn struct_step(r: StructOptions, e: Option<Meta>) -> StructOptions {
    match e {
        None => StructOptions { errors: r.errors.push(DeriveError::UnreadableAttribute), ..r },
        Some(m) => {
            let p = meta_path(m);
            if is_key(p, "extend_json"@) {
                if r.props_seen {
                    StructOptions { errors: r.errors.push(DeriveError::DuplicateOption(p.text)), ..r }
                } else {
                    let es = props_meta_errors(m);
                    StructOptions {
                        props_seen: true,
                        props: if es.len() == 0 { Some(m) } else { None },
                        errors: r.errors + option_errors(es),
                        ..r
                    }
                }
            } else if is_key(p, "validate"@) {
                if r.invalid_seen {
                    StructOptions { errors: r.errors.push(DeriveError::DuplicateOption(p.text)), ..r }
                } else {
                    let es = invalidity_meta_errors(m);
                    StructOptions {
                        invalid_seen: true,
                        invalid: if es.len() == 0 { Some(m) } else { None },
                        errors: r.errors + option_errors(es),
                        ..r
                    }
                }
            } else {
                StructOptions { errors: r.errors.push(DeriveError::UnknownOption(p.text)), ..r }
            }
        },
    }
}

/// The options of a struct, read in order.
pub open spec fn struct_options(entries: Seq<Option<Meta>>) -> StructOptions
    decreases entries.len(),
{
    if entries.len() == 0 {
        StructOptions { props_seen: false, props: None, invalid_seen: false, invalid: None, errors: Seq::empty() }
    } else {
        struct_step(struct_options(entries.drop_last()), entries.last())
    }
}

/// The option errors of the fields, in field order.
pub open spec fn fields_option_errors(fields: Seq<ParsedField>, document: bool) -> Seq<DeriveError>
    decreases fields.len(),
{
    if fields.len() == 0 {
        Seq::empty()
    } else {
        fields_option_errors(fields.drop_last(), document) + field_options(
            option_entries(fields.last().attrs@, document),
            document,
        ).errors
    }
}

/// All the errors reading the derive's options reports: the struct's, then
/// each field's.
pub open spec fn reading_errors(p: ParsedStruct, document: bool) -> Seq<DeriveError> {
    struct_options(option_entries(p.attrs@, document)).errors + match p.data {
        StructData::Named(fields) => fields_option_errors(fields@, document),
        StructData::Other => Seq::empty(),
    }
}

/// The attributes as the checks see them.
pub open spec fn attr_inputs(attrs: Seq<ParsedAttr>) -> Seq<AttrInput> {
    attrs.map_values(|a: ParsedAttr| a.attr)
}

/// `f` is what reading the entity field `pf` gives.
pub open spec fn entity_field_read(f: EntityFieldInput, pf: ParsedField) -> bool {
    &&& f.ident == pf.ident
    &&& f.ty == pf.ty
    &&& f.attrs@ == attr_inputs(pf.attrs@)
    &&& f.validate == match field_options(option_entries(pf.attrs@, false), false).validate {
        Some(v) => v,
        None => Validation::Disabled,
    }
}

/// `f` is what reading the document field `pf` gives.
pub open spec fn document_field_read(f: DocumentFieldInput, pf: ParsedField) -> bool {
    let o = field_options(option_entries(pf.attrs@, true), true);
    &&& f.ident == pf.ident
    &&& f.is_public == pf.is_public
    &&& f.ty == pf.ty
    &&& f.attrs@ == attr_inputs(pf.attrs@)
    &&& f.validate == match o.validate {
        Some(v) => v,
        None => Validation::Disabled,
    }
    &&& f.builder == match o.builder {
        Some(b) => b,
        None => Builder { enabled: true, rename: None },
    }
}

/// `i` is what reading the entity struct `p` gives, when that reports no error.
pub open spec fn entity_input_read(i: EntityStructInput, p: ParsedStruct) -> bool {
    &&& i.ident == p.ident
    &&& i.lifetimes == p.lifetimes
    &&& i.attrs@ == attr_inputs(p.attrs@)
    &&& match p.data {
        StructData::Other => i.data is Other,
        StructData::Named(fs) => i.data matches StructData::Named(ifs) && ifs@.len() == fs@.len() && forall|k: int|
            0 <= k < fs@.len() ==> entity_field_read(#[trigger] ifs@[k], fs@[k]),
    }
}

/// `v` is the `extend_json` value the option `m` (read without error) gives.
pub open spec fn props_read(v: Option<AdditionalProps>, m: Option<Meta>) -> bool {
    match m {
        None => v is None,
        Some(Meta::List(_, items)) => v matches Some(a) && a.wf() && a.view() == props_of(items@),
        Some(_) => false,
    }
}

/// `v` is the `validate` value the option `m` (read without error) gives.
pub open spec fn invalid_read(v: Option<AdditionalInvalidities>, m: Option<Meta>) -> bool {
    match m {
        None => v is None,
        Some(Meta::Path(path)) => v matches Some(a) && a@.len() == 1 && variant_made(a@[0], NestedItem::Path(path)),
        Some(Meta::List(_, items)) => v matches Some(a) && a@.len() == items@.len() && forall|k: int|
            0 <= k < items@.len() ==> variant_made(#[trigger] a@[k], items@[k]),
        Some(_) => false,
    }
}

/// `i` is what reading the document struct `p` gives, when that reports no error.
pub open spec fn document_input_read(i: DocumentStructInput, p: ParsedStruct) -> bool {
    let o = struct_options(option_entries(p.attrs@, true));
    &&& i.ident == p.ident
    &&& i.lifetimes == p.lifetimes
    &&& i.attrs@ == attr_inputs(p.attrs@)
    &&& props_read(i.extend_json, o.props)
    &&& invalid_read(i.validate, o.invalid)
    &&& match p.data {
        StructData::Other => i.data is Other,
        StructData::Named(fs) => i.data matches StructData::Named(ifs) && ifs@.len() == fs@.len() && forall|k: int|
            0 <= k < fs@.len() ==> document_field_read(#[trigger] ifs@[k], fs@[k]),
    }
}

// --- reading, executed ---

/// The attribute's path is the identifier `name`.
fn attr_named(a: &AttrInput, name: &str) -> (res: bool)
    ensures
        res == has_ident(*a, name@),
{
    match &a.ident {
        Some(i) => str_equal(i.as_str(), name),
        None => false,
    }
}

/// Whether the attribute carries the derive's options.
fn option_attr(a: &ParsedAttr, document: bool) -> (res: bool)
    ensures
        res == is_option_attr(*a, document),
{
    attr_named(&a.attr, "entity") || (document && attr_named(&a.attr, "state"))
}

/// Whether the option's path is the single name `key`.
fn key_is(p: &MetaPath, key: &str) -> (res: bool)
    ensures
        res == is_key(*p, key@),
{
    p.segments.len() == 1 && str_equal(p.segments[0].as_str(), key)
}

/// The path of an option.
fn path_of(m: &Meta) -> (res: &MetaPath)
    ensures
        *res == meta_path(*m),
{
    match m {
        Meta::Path(p) => p,
        Meta::List(p, _) => p,
        Meta::NameValue(p, _) => p,
    }
}

/// The option errors of `es`, as derive errors, after `errors`.
fn push_option_errors(errors: &mut Vec<DeriveError>, es: Vec<MetaError>)
    ensures
        final(errors)@ == old(errors)@ + option_errors(es@),
{
    let mut i: usize = 0;
    while i < es.len()
        invariant
            i <= es.len(),
            errors@ == old(errors)@ + option_errors(es@.take(i as int)),
        decreases es.len() - i,
    {
        assert(option_errors(es@.take(i + 1)) =~= option_errors(es@.take(i as int)).push(DeriveError::InvalidOption(es@[i as int])));
        errors.push(DeriveError::InvalidOption(es[i]));
        i = i + 1;
    }
    assert(es@.take(es.len() as int) =~= es@);
}

/// The options of a field, as they are read.
struct FieldReader {
    validate_seen: bool,
    validate: Option<Validation>,
    builder_seen: bool,
    builder: Option<Builder>,
    errors: Vec<DeriveError>,
}

impl FieldReader {
    spec fn state(self) -> FieldOptions {
        FieldOptions {
            validate_seen: self.validate_seen,
            validate: self.validate,
            builder_seen: self.builder_seen,
            builder: self.builder,
            errors: self.errors@,
        }
    }

    /// Reads one option.
    fn step(&mut self, m: &Meta, document: bool)
        ensures
            final(self).state() == field_step(old(self).state(), Some(*m), document),
    {
        let p = path_of(m);
        if key_is(p, "validate") {
            if self.validate_seen {
                self.errors.push(DeriveError::DuplicateOption(p.text.clone()));
            } else {
                self.validate_seen = true;
                match Validation::from_meta(m) {
                    Ok(v) => {
                        self.validate = Some(v);
                    },
                    Err(es) => {
                        self.errors.push(DeriveError::InvalidOption(es[0]));
                    },
                }
            }
        } else if document && key_is(p, "builder") {
            if self.builder_seen {
                self.errors.push(DeriveError::DuplicateOption(p.text.clone()));
            } else {
                self.builder_seen = true;
                match Builder::from_meta(m) {
                    Ok(b) => {
                        self.builder = Some(b);
                    },
                    Err(es) => {
                        self.errors.push(DeriveError::InvalidOption(es[0]));
                    },
                }
            }
        } else {
            self.errors.push(DeriveError::UnknownOption(p.text.clone()));
        }
    }
}

/// Reads the options of a field's attributes.
fn read_field_options(attrs: &Vec<ParsedAttr>, document: bool) -> (res: FieldReader)
    ensures
        res.state() == field_options(option_entries(attrs@, document), document),
{
    let mut r = FieldReader { validate_seen: false, validate: None, builder_seen: false, builder: None, errors: Vec::new() };
    let mut i: usize = 0;
    while i < attrs.len()
        invariant
            i <= attrs.len(),
            r.state() == field_options(option_entries(attrs@.take(i as int), document), document),
        decreases attrs.len() - i,
    {
        let ghost before = option_entries(attrs@.take(i as int), document);
        assert(attrs@.take(i + 1).drop_last() =~= attrs@.take(i as int));
        assert(attrs@.take(i + 1).last() == attrs@[i as int]);
        let a = &attrs[i];
        if option_attr(a, document) {
            match &a.items {
                None => {
                    r.errors.push(DeriveError::UnreadableAttribute);
                    assert(before.push(None::<Meta>).drop_last() =~= before);
                },
                Some(items) => {
                    let mut j: usize = 0;
                    while j < items.len()
                        invariant
                            j <= items.len(),
                            r.state() == field_options(
                                before + items@.take(j as int).map_values(|m: Meta| Some(m)),
                                document,
                            ),
                        decreases items.len() - j,
                    {
                        let ghost next = before + items@.take(j + 1).map_values(|m: Meta| Some(m));
                        assert(next.drop_last() =~= before + items@.take(j as int).map_values(|m: Meta| Some(m)));
                        assert(next.last() == Some(items@[j as int]));
                        r.step(&items[j], document);
                        j = j + 1;
                    }
                    assert(items@.take(items.len() as int) =~= items@);
                },
            }
        }
        i = i + 1;
    }
    assert(attrs@.take(attrs.len() as int) =~= attrs@);
    r
}

/// The options of a struct, as they are read.
struct StructReader {
    props_seen: bool,
    props: Option<AdditionalProps>,
    props_meta: Ghost<Option<Meta>>,
    invalid_seen: bool,
    invalid: Option<AdditionalInvalidities>,
    invalid_meta: Ghost<Option<Meta>>,
    errors: Vec<DeriveError>,
}

impl StructReader {
    spec fn state(self) -> StructOptions {
        StructOptions {
            props_seen: self.props_seen,
            props: self.props_meta@,
            invalid_seen: self.invalid_seen,
            invalid: self.invalid_meta@,
            errors: self.errors@,
        }
    }

    spec fn holds_read(self) -> bool {
        props_read(self.props, self.props_meta@) && invalid_read(self.invalid, self.invalid_meta@)
    }

    /// Reads one option.
    fn step(&mut self, m: &Meta)
        requires
            old(self).holds_read(),
        ensures
            final(self).state() == struct_step(old(self).state(), Some(*m)),
            final(self).holds_read(),
    {
        let p = path_of(m);
        if key_is(p, "extend_json") {
            if self.props_seen {
                self.errors.push(DeriveError::DuplicateOption(p.text.clone()));
            } else {
                self.props_seen = true;
                match AdditionalProps::from_meta(m) {
                    Ok(v) => {
                        self.props = Some(v);
                        self.props_meta = Ghost(Some(*m));
                        assert(option_errors(Seq::<MetaError>::empty()) =~= Seq::<DeriveError>::empty());
                        assert(self.errors@ =~= self.errors@ + option_errors(Seq::<MetaError>::empty()));
                    },
                    Err(es) => {
                        self.props = None;
                        self.props_meta = Ghost(None);
                        push_option_errors(&mut self.errors, es);
                    },
                }
            }
        } else if key_is(p, "validate") {
            if self.invalid_seen {
                self.errors.push(DeriveError::DuplicateOption(p.text.clone()));
            } else {
                self.invalid_seen = true;
                match AdditionalInvalidities::from_meta(m) {
                    Ok(v) => {
                        self.invalid = Some(v);
                        self.invalid_meta = Ghost(Some(*m));
                        assert(option_errors(Seq::<MetaError>::empty()) =~= Seq::<DeriveError>::empty());
                        assert(self.errors@ =~= self.errors@ + option_errors(Seq::<MetaError>::empty()));
                    },
                    Err(es) => {
                        self.invalid = None;
                        self.invalid_meta = Ghost(None);
                        push_option_errors(&mut self.errors, es);
                    },
                }
            }
        } else {
            self.errors.push(DeriveError::UnknownOption(p.text.clone()));
        }
    }
}

/// Reads the options of a struct's attributes.
fn read_struct_options(attrs: &Vec<ParsedAttr>, document: bool) -> (res: StructReader)
    ensures
        res.state() == struct_options(option_entries(attrs@, document)),
        res.holds_read(),
{
    let mut r = StructReader {
        props_seen: false,
        props: None,
        props_meta: Ghost(None),
        invalid_seen: false,
        invalid: None,
        invalid_meta: Ghost(None),
        errors: Vec::new(),
    };
    let mut i: usize = 0;
    while i < attrs.len()
        invariant
            i <= attrs.len(),
            r.state() == struct_options(option_entries(attrs@.take(i as int), document)),
            r.holds_read(),
        decreases attrs.len() - i,
    {
        let ghost before = option_entries(attrs@.take(i as int), document);
        assert(attrs@.take(i + 1).drop_last() =~= attrs@.take(i as int));
        assert(attrs@.take(i + 1).last() == attrs@[i as int]);
        let a = &attrs[i];
        if option_attr(a, document) {
            match &a.items {
                None => {
                    r.errors.push(DeriveError::UnreadableAttribute);
                    assert(before.push(None::<Meta>).drop_last() =~= before);
                },
                Some(items) => {
                    let mut j: usize = 0;
                    while j < items.len()
                        invariant
                            j <= items.len(),
                            r.state() == struct_options(before + items@.take(j as int).map_values(|m: Meta| Some(m))),
                            r.holds_read(),
                        decreases items.len() - j,
                    {
                        let ghost next = before + items@.take(j + 1).map_values(|m: Meta| Some(m));
                        assert(next.drop_last() =~= before + items@.take(j as int).map_values(|m: Meta| Some(m)));
                        assert(next.last() == Some(items@[j as int]));
                        r.step(&items[j]);
                        j = j + 1;
                    }
                    assert(items@.take(items.len() as int) =~= items@);
                },
            }
        }
        i = i + 1;
    }
    assert(attrs@.take(attrs.len() as int) =~= attrs@);
    r
}

/// The attributes as the checks see them.
fn attr_inputs_of(attrs: Vec<ParsedAttr>) -> (res: Vec<AttrInput>)
    ensures
        res@ == attr_inputs(attrs@),
{
    let ghost all = attrs@;
    let n = attrs.len();
    let mut rest = attrs;
    let mut res: Vec<AttrInput> = Vec::new();
    let mut k: usize = 0;
    while rest.len() > 0
        invariant
            all.len() == n,
            k <= n,
            rest@ == all.skip(k as int),
            res@ == attr_inputs(all.take(k as int)),
        decreases rest.len(),
    {
        let a = rest.remove(0);
        assert(a == all[k as int]);
        assert(attr_inputs(all.take(k + 1)) =~= attr_inputs(all.take(k as int)).push(a.attr));
        res.push(a.attr);
        k = k + 1;
        assert(rest@ =~= all.skip(k as int));
    }
    assert(all.take(n as int) =~= all);
    res
}

/// Reads a field of an entity: its options and its attributes.
fn read_entity_field(pf: ParsedField) -> (res: (EntityFieldInput, Vec<DeriveError>))
    ensures
        entity_field_read(res.0, pf),
        res.1@ == field_options(option_entries(pf.attrs@, false), false).errors,
{
    let r = read_field_options(&pf.attrs, false);
    let validate = match r.validate {
        Some(v) => v,
        None => Validation::Disabled,
    };
    let attrs = attr_inputs_of(pf.attrs);
    (EntityFieldInput { ident: pf.ident, ty: pf.ty, attrs, validate }, r.errors)
}

/// Reads a field of a document: its options and its attributes.
fn read_document_field(pf: ParsedField) -> (res: (DocumentFieldInput, Vec<DeriveError>))
    ensures
        document_field_read(res.0, pf),
        res.1@ == field_options(option_entries(pf.attrs@, true), true).errors,
{
    let r = read_field_options(&pf.attrs, true);
    let validate = match r.validate {
        Some(v) => v,
        None => Validation::Disabled,
    };
    let builder = match r.builder {
        Some(b) => b,
        None => Builder::default(),
    };
    let attrs = attr_inputs_of(pf.attrs);
    (DocumentFieldInput { ident: pf.ident, is_public: pf.is_public, ty: pf.ty, attrs, validate, builder }, r.errors)
}

/// Reads the derive's options of an entity struct. Every option that
/// cannot be read is reported, the struct's first, then each field's.
pub fn read_entity(p: ParsedStruct) -> (res: Result<EntityStructInput, Vec<DeriveError>>)
    ensures
        if reading_errors(p, false).len() == 0 {
            res matches Ok(i) && entity_input_read(i, p)
        } else {
            res matches Err(e) && e@ == reading_errors(p, false)
        },
{
    let sr = read_struct_options(&p.attrs, false);
    let mut errors = sr.errors;
    let ParsedStruct { ident, lifetimes, data, attrs } = p;
    let data = match data {
        StructData::Other => StructData::Other,
        StructData::Named(fields) => {
            let ghost all = fields@;
            let ghost before = errors@;
            let n = fields.len();
            let mut rest = fields;
            let mut out: Vec<EntityFieldInput> = Vec::new();
            let mut k: usize = 0;
            while rest.len() > 0
                invariant
                    all.len() == n,
                    k <= n,
                    rest@ == all.skip(k as int),
                    errors@ == before + fields_option_errors(all.take(k as int), false),
                    out@.len() == k,
                    forall|i: int| 0 <= i < k ==> entity_field_read(#[trigger] out@[i], all[i]),
                decreases rest.len(),
            {
                let pf = rest.remove(0);
                assert(pf == all[k as int]);
                assert(all.take(k + 1).drop_last() =~= all.take(k as int));
                assert(all.take(k + 1).last() == all[k as int]);
                let (f, mut es) = read_entity_field(pf);
                out.push(f);
                errors.append(&mut es);
                k = k + 1;
                assert(rest@ =~= all.skip(k as int));
                assert(errors@ =~= before + fields_option_errors(all.take(k as int), false));
            }
            assert(all.take(n as int) =~= all);
            StructData::Named(out)
        },
    };
    if errors.len() != 0 {
        return Err(errors);
    }
    let attrs = attr_inputs_of(attrs);
    Ok(EntityStructInput { ident, lifetimes, data, attrs })
}

/// Reads the derive's options of a document struct (`#[entity(..)]` and
/// `#[state(..)]`). Every option that cannot be read is reported, the
/// struct's first, then each field's.
pub fn read_document(p: ParsedStruct) -> (res: Result<DocumentStructInput, Vec<DeriveError>>)
    ensures
        if reading_errors(p, true).len() == 0 {
            res matches Ok(i) && document_input_read(i, p)
        } else {
            res matches Err(e) && e@ == reading_errors(p, true)
        },
{
    let sr = read_struct_options(&p.attrs, true);
    let StructReader { props, invalid, errors, .. } = sr;
    let mut errors = errors;
    let ParsedStruct { ident, lifetimes, data, attrs } = p;
    let data = match data {
        StructData::Other => StructData::Other,
        StructData::Named(fields) => {
            let ghost all = fields@;
            let ghost before = errors@;
            let n = fields.len();
            let mut rest = fields;
            let mut out: Vec<DocumentFieldInput> = Vec::new();
            let mut k: usize = 0;
            while rest.len() > 0
                invariant
                    all.len() == n,
                    k <= n,
                    rest@ == all.skip(k as int),
                    errors@ == before + fields_option_errors(all.take(k as int), true),
                    out@.len() == k,
                    forall|i: int| 0 <= i < k ==> document_field_read(#[trigger] out@[i], all[i]),
                decreases rest.len(),
            {
                let pf = rest.remove(0);
                assert(pf == all[k as int]);
                assert(all.take(k + 1).drop_last() =~= all.take(k as int));
                assert(all.take(k + 1).last() == all[k as int]);
                let (f, mut es) = read_document_field(pf);
                out.push(f);
                errors.append(&mut es);
                k = k + 1;
                assert(rest@ =~= all.skip(k as int));
                assert(errors@ =~= before + fields_option_errors(all.take(k as int), true));
            }
            assert(all.take(n as int) =~= all);
            StructData::Named(out)
        },
    };
    if errors.len() != 0 {
        return Err(errors);
    }
    let attrs = attr_inputs_of(attrs);
    Ok(DocumentStructInput { ident, lifetimes, data, attrs, extend_json: props, validate: invalid })
}

// --- from source to checked struct ---

/// Why a derive's input cannot be turned into a checked struct.
#[derive(Debug)]
pub enum SourceError {
    /// syn refuses the source.
    Syntax,
    /// The attribute's arguments are not valid.
    Args(ArgsError),
    /// Reading the options or checking the struct reports these errors.
    Derive(Vec<DeriveError>),
}

/// `res` is what checking the entity struct `full` gives.
pub open spec fn entity_checked(res: Result<EntityStruct, SourceError>, full: EntityStructInput) -> bool {
    if entity_errors(full).len() == 0 {
        res matches Ok(s) && entity_struct_made(s, full)
    } else {
        res matches Err(SourceError::Derive(e)) && e@ == entity_errors(full)
    }
}

/// `res` is what checking the document struct `full` gives.
pub open spec fn document_checked(res: Result<DocumentStruct, SourceError>, full: DocumentStructInput) -> bool {
    if document_errors(full).len() == 0 {
        res matches Ok(s) && document_struct_made(s, full)
    } else {
        res matches Err(SourceError::Derive(e)) && e@ == document_errors(full)
    }
}

/// Reads an entity struct for its derive: the derive's options are read,
/// every one that cannot be read reported, and the common fields are put
/// before the struct's own.
pub fn from_derive_input(p: ParsedStruct) -> (res: Result<EntityStructInput, Vec<DeriveError>>)
    ensures
        if reading_errors(p, false).len() == 0 {
            res matches Ok(full) && exists|own: EntityStructInput| entity_input_read(own, p) && entity_with_common(full, own)
        } else {
            res matches Err(e) && e@ == reading_errors(p, false)
        },
{
    match read_entity(p) {
        Ok(own) => {
            let ghost own0 = own;
            let full = own.with_common_fields();
            assert(entity_input_read(own0, p) && entity_with_common(full, own0));
            Ok(full)
        },
        Err(e) => Err(e),
    }
}

} // verus!
