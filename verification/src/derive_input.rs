//! The checks made on a struct that an entity or document derive is applied
//! to: it must be a struct with named fields and a single lifetime `'a`, and
//! a document's fields must be named and public. Attributes are sorted into
//! documentation, serde and other attributes, and each field learns its
//! variant name and whether it must be present in a serialised document.

use vstd::prelude::*;
use vstd::string::StringSliceAdditionalSpecFns;
use convert_case::{Case, Casing};
use syn::Path;
use crate::meta::{AdditionalInvalidities, AdditionalProps, Meta, MetaLit, MetaError, Format};
use crate::discovery::strings::str_equal;
use crate::types::{ArgTree, ArgsTree, PathTree, SegmentTree, TypeTree};

verus! {

/// What `convert_case` makes of a `snake_case` name in `PascalCase`.
pub uninterp spec fn pascal_from_snake(s: Seq<char>) -> Seq<char>;

/// `s.from_case(Case::Snake).to_case(Case::Pascal)` of `convert_case`: the
/// result is a function of `s` alone. How words are split and capitalised
/// is not stated.
#[verifier::external_body]
fn snake_to_pascal(s: &str) -> (res: String)
    ensures
        res@ == pascal_from_snake(s@),
{
    s.from_case(Case::Snake).to_case(Case::Pascal)
}

/// Whether `syn` parses the text as a path.
pub uninterp spec fn parses_as_path(s: Seq<char>) -> bool;

/// `syn::parse_str::<syn::Path>(s)` succeeds: the answer is a function of
/// `s` alone. Which texts are paths is not stated.
#[verifier::external_body]
fn is_path(s: &str) -> (res: bool)
    ensures
        res == parses_as_path(s@),
{
    syn::parse_str::<Path>(s).is_ok()
}

/// The arguments of an attribute, as text.
pub enum AttrArgs {
    /// `#[name]`.
    Empty,
    /// `#[name(...)]`, with the text between the brackets.
    List(String),
    /// `#[name = ...]`, with the text after `=`.
    NameValue(String),
}

/// An attribute of the struct or of a field.
pub struct AttrInput {
    /// The attribute's path, where it is a single identifier.
    pub ident: Option<String>,
    pub args: AttrArgs,
}

impl Clone for AttrArgs {
    fn clone(&self) -> (res: AttrArgs)
        ensures
            res == *self,
    {
        match self {
            AttrArgs::Empty => AttrArgs::Empty,
            AttrArgs::List(t) => AttrArgs::List(t.clone()),
            AttrArgs::NameValue(t) => AttrArgs::NameValue(t.clone()),
        }
    }
}

impl Clone for AttrInput {
    fn clone(&self) -> (res: AttrInput)
        ensures
            res == *self,
    {
        let ident = match &self.ident {
            Some(i) => Some(i.clone()),
            None => None,
        };
        AttrInput { ident, args: self.args.clone() }
    }
}

/// The attribute's path is the identifier `name`.
pub open spec fn has_ident(a: AttrInput, name: Seq<char>) -> bool {
    match a.ident {
        Some(i) => i@ == name,
        None => false,
    }
}

/// A documentation attribute.
pub open spec fn is_doc(a: AttrInput) -> bool {
    has_ident(a, "doc"@)
}

/// A serde attribute.
pub open spec fn is_serde(a: AttrInput) -> bool {
    has_ident(a, "serde"@)
}

/// Neither a documentation nor a serde attribute.
pub open spec fn is_other(a: AttrInput) -> bool {
    !is_doc(a) && !is_serde(a)
}

/// A class of attributes.
#[derive(Clone, Copy, Debug, PartialEq, Eq, Structural)]
pub enum AttrClass {
    Doc,
    NotDoc,
    Serde,
    Other,
}

/// The attribute belongs to the class.
pub open spec fn in_class(a: AttrInput, c: AttrClass) -> bool {
    match c {
        AttrClass::Doc => is_doc(a),
        AttrClass::NotDoc => !is_doc(a),
        AttrClass::Serde => is_serde(a),
        AttrClass::Other => is_other(a),
    }
}

/// The attributes of the class, in their order.
pub open spec fn keep(attrs: Seq<AttrInput>, c: AttrClass) -> Seq<AttrInput>
    decreases attrs.len(),
{
    if attrs.len() == 0 {
        Seq::empty()
    } else {
        let rest = keep(attrs.drop_last(), c);
        if in_class(attrs.last(), c) {
            rest.push(attrs.last())
        } else {
            rest
        }
    }
}

/// `needle` occurs in `hay`.
pub open spec fn contains_seq(hay: Seq<char>, needle: Seq<char>) -> bool {
    exists|i: int| 0 <= i && i + needle.len() <= hay.len() && #[trigger] hay.subrange(i, i + needle.len()) == needle
}

/// The arguments of an attribute as text.
pub open spec fn args_text(args: AttrArgs) -> Seq<char> {
    match args {
        AttrArgs::Empty => Seq::empty(),
        AttrArgs::List(t) => t@,
        AttrArgs::NameValue(t) => t@,
    }
}

/// An entity field has a default: a serde attribute mentions `default`.
pub open spec fn entity_has_default(attrs: Seq<AttrInput>) -> bool {
    exists|i: int| 0 <= i < attrs.len() && is_serde(#[trigger] attrs[i]) && contains_seq(args_text(attrs[i].args), "default"@)
}

/// A document field has a default: a serde attribute in list form mentions
/// `default`.
pub open spec fn document_has_default(attrs: Seq<AttrInput>) -> bool {
    exists|i: int|
        0 <= i < attrs.len() && is_serde(#[trigger] attrs[i]) && (attrs[i].args matches AttrArgs::List(t)
            && contains_seq(t@, "default"@))
}

/// The name of a field, `unknown` where it has none.
pub open spec fn field_name(ident: Option<String>) -> Seq<char> {
    match ident {
        Some(i) => i@,
        None => "unknown"@,
    }
}

/// How a field is validated.
pub enum Validation {
    /// Not validated.
    Disabled,
    /// Validated with the field type's own validation.
    Default,
    /// Validated with the function at this path.
    With(String),
}

/// Whether a document field gets a builder method, and under which name.
pub struct Builder {
    pub enabled: bool,
    pub rename: Option<String>,
}

/// Which derive the struct is checked for.
#[derive(Clone, Copy, Debug, PartialEq, Eq, Structural)]
pub enum DeriveKind {
    Entity,
    Document,
}

/// Why the struct cannot be derived.
#[derive(Clone, Debug, PartialEq, Eq)]
pub enum DeriveError {
    /// A lifetime other than `'a` is declared; its name.
    ExtraLifetime(String),
    /// The lifetime `'a` is not declared.
    MissingLifetime,
    /// It is not a struct with named fields.
    NotStruct,
    /// A field has no name.
    UnnamedField,
    /// A field is not public; its name, where it has one.
    PrivateField(Option<String>),
    /// The arguments of a derive attribute are not a list of options.
    UnreadableAttribute,
    /// An option that the derive does not know; its path as written.
    UnknownOption(String),
    /// An option given twice; its path as written.
    DuplicateOption(String),
    /// The value of an option cannot be read.
    InvalidOption(MetaError),
}

impl DeriveError {
    /// The error's message.
    pub fn message(&self, kind: DeriveKind) -> (res: &'static str)
        ensures
            match (self, kind) {
                (DeriveError::ExtraLifetime(_), DeriveKind::Entity) => res@ == "Entities must only have a single lifetime named 'a"@,
                (DeriveError::ExtraLifetime(_), DeriveKind::Document) => res@ == "Documents must only have a single lifetime named 'a"@,
                (DeriveError::MissingLifetime, DeriveKind::Entity) => res@ == "Entities must have a lifetime 'a"@,
                (DeriveError::MissingLifetime, DeriveKind::Document) => res@ == "Documents must have a lifetime 'a"@,
                (DeriveError::NotStruct, DeriveKind::Entity) => res@ == "Entities must be structs"@,
                (DeriveError::NotStruct, DeriveKind::Document) => res@ == "Documents must be structs"@,
                (DeriveError::UnnamedField, _) => res@ == "Document fields must be named"@,
                (DeriveError::PrivateField(_), _) => res@ == "Document fields must be public"@,
                (DeriveError::UnreadableAttribute, _) => res@ == "Unable to parse attribute"@,
                (DeriveError::UnknownOption(_), _) => res@ == "Unknown field"@,
                (DeriveError::DuplicateOption(_), _) => res@ == "Duplicate field"@,
                (DeriveError::InvalidOption(_), _) => res@ == "Invalid value"@,
            },
    {
        match (self, kind) {
            (DeriveError::ExtraLifetime(_), DeriveKind::Entity) => "Entities must only have a single lifetime named 'a",
            (DeriveError::ExtraLifetime(_), DeriveKind::Document) => "Documents must only have a single lifetime named 'a",
            (DeriveError::MissingLifetime, DeriveKind::Entity) => "Entities must have a lifetime 'a",
            (DeriveError::MissingLifetime, DeriveKind::Document) => "Documents must have a lifetime 'a",
            (DeriveError::NotStruct, DeriveKind::Entity) => "Entities must be structs",
            (DeriveError::NotStruct, DeriveKind::Document) => "Documents must be structs",
            (DeriveError::UnnamedField, _) => "Document fields must be named",
            (DeriveError::PrivateField(_), _) => "Document fields must be public",
            (DeriveError::UnreadableAttribute, _) => "Unable to parse attribute",
            (DeriveError::UnknownOption(_), _) => "Unknown field",
            (DeriveError::DuplicateOption(_), _) => "Duplicate field",
            (DeriveError::InvalidOption(_), _) => "Invalid value",
        }
    }
}

/// The errors about the declared lifetimes: one for each lifetime that is
/// not `'a`, in their order.
pub open spec fn extra_lifetime_errors(lifetimes: Seq<String>) -> Seq<DeriveError>
    decreases lifetimes.len(),
{
    if lifetimes.len() == 0 {
        Seq::empty()
    } else {
        let rest = extra_lifetime_errors(lifetimes.drop_last());
        if lifetimes.last()@ == "a"@ {
            rest
        } else {
            rest.push(DeriveError::ExtraLifetime(lifetimes.last()))
        }
    }
}

/// `'a` is among the declared lifetimes.
pub open spec fn declares_a(lifetimes: Seq<String>) -> bool {
    exists|i: int| 0 <= i < lifetimes.len() && (#[trigger] lifetimes[i])@ == "a"@
}

/// All the errors about the declared lifetimes.
pub open spec fn lifetime_errors(lifetimes: Seq<String>) -> Seq<DeriveError> {
    if declares_a(lifetimes) {
        extra_lifetime_errors(lifetimes)
    } else {
        extra_lifetime_errors(lifetimes).push(DeriveError::MissingLifetime)
    }
}

/// The body of the struct.
pub enum StructData<F> {
    /// An enum, or a struct without named fields.
    Other,
    /// A struct with named fields.
    Named(Vec<F>),
}

// --- entities ---

/// A field of an entity struct.
pub struct EntityFieldInput {
    pub ident: Option<String>,
    /// The field's type.
    pub ty: TypeTree,
    pub attrs: Vec<AttrInput>,
    pub validate: Validation,
}

/// A checked field of an entity.
pub struct EntityField {
    pub ident: String,
    /// The name of the field's variant in the invalidity enum.
    pub variant_ident: String,
    pub ty: TypeTree,
    pub docs: Vec<AttrInput>,
    pub attrs: Vec<AttrInput>,
    pub validate: bool,
    /// The field must be present in a document: it has no serde default.
    pub required: bool,
}

/// `out` is what checking the entity field `input` gives.
pub open spec fn entity_field_made(out: EntityField, input: EntityFieldInput) -> bool {
    &&& out.ident@ == field_name(input.ident)
    &&& out.variant_ident@ == pascal_from_snake(field_name(input.ident))
    &&& out.ty == input.ty
    &&& out.docs@ == keep(input.attrs@, AttrClass::Doc)
    &&& out.attrs@ == keep(input.attrs@, AttrClass::NotDoc)
    &&& out.validate == !(input.validate is Disabled)
    &&& out.required == !entity_has_default(input.attrs@)
}

/// An entity struct.
pub struct EntityStructInput {
    pub ident: String,
    /// The names of the declared lifetimes, without the quote.
    pub lifetimes: Vec<String>,
    pub data: StructData<EntityFieldInput>,
    pub attrs: Vec<AttrInput>,
}

/// A checked entity struct.
pub struct EntityStruct {
    pub ident: String,
    /// The name of the struct's invalidity enum.
    pub invalidity_ident: String,
    pub docs: Vec<AttrInput>,
    pub attrs: Vec<AttrInput>,
    pub fields: Vec<EntityField>,
}

/// The errors found in an entity struct, in the order they are reported.
pub open spec fn entity_errors(input: EntityStructInput) -> Seq<DeriveError> {
    match input.data {
        StructData::Other => lifetime_errors(input.lifetimes@).push(DeriveError::NotStruct),
        StructData::Named(_) => lifetime_errors(input.lifetimes@),
    }
}

/// `out` is what checking the entity struct `input` gives, where it has no errors.
pub open spec fn entity_struct_made(out: EntityStruct, input: EntityStructInput) -> bool {
    &&& out.ident == input.ident
    &&& out.invalidity_ident@ == input.ident@ + "Invalidity"@
    &&& out.docs@ == keep(input.attrs@, AttrClass::Doc)
    &&& out.attrs@ == keep(input.attrs@, AttrClass::NotDoc)
    &&& (input.data matches StructData::Named(fields) && out.fields@.len() == fields@.len() && forall|i: int|
        0 <= i < fields@.len() ==> entity_field_made(#[trigger] out.fields@[i], fields@[i]))
}

// --- documents ---

/// A field of a document struct.
pub struct DocumentFieldInput {
    pub ident: Option<String>,
    pub is_public: bool,
    /// The field's type.
    pub ty: TypeTree,
    pub attrs: Vec<AttrInput>,
    pub validate: Validation,
    pub builder: Builder,
}

/// A checked field of a document.
pub struct DocumentField {
    pub ident: String,
    /// The name of the field's variant in the invalidity enum.
    pub variant_ident: String,
    pub ty: TypeTree,
    pub docs: Vec<AttrInput>,
    pub serde: Vec<AttrInput>,
    pub attrs: Vec<AttrInput>,
    pub validate: Validation,
    pub builder: Builder,
    /// The field must be present in a document: it has no serde default.
    pub required: bool,
}

/// The errors found in a document field, in the order they are reported.
pub open spec fn document_field_errors(input: DocumentFieldInput) -> Seq<DeriveError> {
    let unnamed: Seq<DeriveError> = if input.ident is None {
        seq![DeriveError::UnnamedField]
    } else {
        Seq::empty()
    };
    if input.is_public {
        unnamed
    } else {
        unnamed.push(DeriveError::PrivateField(input.ident))
    }
}

/// `out` is what checking the document field `input` gives.
pub open spec fn document_field_made(out: DocumentField, input: DocumentFieldInput) -> bool {
    &&& out.ident@ == field_name(input.ident)
    &&& out.variant_ident@ == pascal_from_snake(field_name(input.ident))
    &&& out.ty == input.ty
    &&& out.docs@ == keep(input.attrs@, AttrClass::Doc)
    &&& out.serde@ == keep(input.attrs@, AttrClass::Serde)
    &&& out.attrs@ == keep(input.attrs@, AttrClass::Other)
    &&& out.validate == input.validate
    &&& out.builder == input.builder
    &&& out.required == !document_has_default(input.attrs@)
}


/// A document struct.
pub struct DocumentStructInput {
    pub ident: String,
    /// The names of the declared lifetimes, without the quote.
    pub lifetimes: Vec<String>,
    pub data: StructData<DocumentFieldInput>,
    pub attrs: Vec<AttrInput>,
    /// The extra JSON properties the document declares.
    pub extend_json: Option<AdditionalProps>,
    /// The extra variants the document's invalidity enum declares.
    pub validate: Option<AdditionalInvalidities>,
}

/// A checked document struct.
pub struct DocumentStruct {
    pub ident: String,
    /// The name of the struct's invalidity enum.
    pub invalidity_ident: String,
    pub docs: Vec<AttrInput>,
    pub attrs: Vec<AttrInput>,
    pub fields: Vec<DocumentField>,
    pub additional_props: Option<AdditionalProps>,
    pub additional_invalidities: Option<AdditionalInvalidities>,
}

/// The errors of the fields, in their order.
pub open spec fn document_fields_errors(fields: Seq<DocumentFieldInput>) -> Seq<DeriveError>
    decreases fields.len(),
{
    if fields.len() == 0 {
        Seq::empty()
    } else {
        document_fields_errors(fields.drop_last()) + document_field_errors(fields.last())
    }
}

/// The errors found in a document struct, in the order they are reported.
pub open spec fn document_errors(input: DocumentStructInput) -> Seq<DeriveError> {
    match input.data {
        StructData::Other => lifetime_errors(input.lifetimes@).push(DeriveError::NotStruct),
        StructData::Named(fields) => lifetime_errors(input.lifetimes@) + document_fields_errors(fields@),
    }
}

// --- checking ---

/// Whether `needle` occurs in `hay`.
fn text_contains(hay: &str, needle: &str) -> (res: bool)
    ensures
        res == contains_seq(hay@, needle@),
{
    let h = hay.unicode_len();
    let n = needle.unicode_len();
    if n > h {
        return false;
    }
    let mut i: usize = 0;
    while i <= h - n
        invariant
            h == hay@.len(),
            n == needle@.len(),
            n <= h,
            forall|k: int| 0 <= k < i ==> #[trigger] hay@.subrange(k, k + n) != needle@,
        decreases h - n + 1 - i,
    {
        let mut j: usize = 0;
        while j < n && hay.get_char(i + j) == needle.get_char(j)
            invariant
                h == hay@.len(),
                n == needle@.len(),
                i + n <= h,
                j <= n,
                forall|m: int| 0 <= m < j ==> hay@[i + m] == needle@[m],
            decreases n - j,
        {
            j = j + 1;
        }
        if j == n {
            assert(hay@.subrange(i as int, i + n) =~= needle@);
            return true;
        }
        assert(hay@.subrange(i as int, i + n)[j as int] != needle@[j as int]);
        i = i + 1;
    }
    assert forall|k: int| 0 <= k && k + n <= h implies #[trigger] hay@.subrange(k, k + n) != needle@ by {
        assert(k < i);
    }
    false
}

/// Whether the attribute belongs to the class.
fn attr_in_class(a: &AttrInput, c: AttrClass) -> (res: bool)
    ensures
        res == in_class(*a, c),
{
    let doc = match &a.ident {
        Some(i) => str_equal(i.as_str(), "doc"),
        None => false,
    };
    let serde = match &a.ident {
        Some(i) => str_equal(i.as_str(), "serde"),
        None => false,
    };
    match c {
        AttrClass::Doc => doc,
        AttrClass::NotDoc => !doc,
        AttrClass::Serde => serde,
        AttrClass::Other => !doc && !serde,
    }
}

/// The attributes of the class, in their order.
fn select(attrs: &Vec<AttrInput>, c: AttrClass) -> (res: Vec<AttrInput>)
    ensures
        res@ == keep(attrs@, c),
{
    let mut res: Vec<AttrInput> = Vec::new();
    let mut i: usize = 0;
    while i < attrs.len()
        invariant
            i <= attrs.len(),
            res@ == keep(attrs@.take(i as int), c),
        decreases attrs.len() - i,
    {
        assert(attrs@.take(i + 1).drop_last() =~= attrs@.take(i as int));
        if attr_in_class(&attrs[i], c) {
            res.push(attrs[i].clone());
        }
        i = i + 1;
    }
    assert(attrs@.take(attrs.len() as int) =~= attrs@);
    res
}

/// Whether a serde attribute of an entity field mentions `default`.
fn entity_default(attrs: &Vec<AttrInput>) -> (res: bool)
    ensures
        res == entity_has_default(attrs@),
{
    let mut i: usize = 0;
    while i < attrs.len()
        invariant
            i <= attrs.len(),
            forall|k: int|
                0 <= k < i ==> !(is_serde(#[trigger] attrs@[k]) && contains_seq(args_text(attrs@[k].args), "default"@)),
        decreases attrs.len() - i,
    {
        let a = &attrs[i];
        if attr_in_class(a, AttrClass::Serde) {
            let found = match &a.args {
                AttrArgs::Empty => {
                    proof {
                        reveal_strlit("default");
                    }
                    false
                },
                AttrArgs::List(t) => text_contains(t.as_str(), "default"),
                AttrArgs::NameValue(t) => text_contains(t.as_str(), "default"),
            };
            if found {
                return true;
            }
        }
        i = i + 1;
    }
    false
}

/// Whether a serde attribute of a document field, in list form, mentions
/// `default`.
fn document_default(attrs: &Vec<AttrInput>) -> (res: bool)
    ensures
        res == document_has_default(attrs@),
{
    let mut i: usize = 0;
    while i < attrs.len()
        invariant
            i <= attrs.len(),
            forall|k: int|
                0 <= k < i ==> !(is_serde(#[trigger] attrs@[k]) && (attrs@[k].args matches AttrArgs::List(t)
                    && contains_seq(t@, "default"@))),
        decreases attrs.len() - i,
    {
        let a = &attrs[i];
        if attr_in_class(a, AttrClass::Serde) {
            if let AttrArgs::List(t) = &a.args {
                if text_contains(t.as_str(), "default") {
                    return true;
                }
            }
        }
        i = i + 1;
    }
    false
}

/// The errors about the declared lifetimes.
fn check_lifetimes(lifetimes: &Vec<String>) -> (res: Vec<DeriveError>)
    ensures
        res@ == lifetime_errors(lifetimes@),
{
    let mut errors: Vec<DeriveError> = Vec::new();
    let mut has_a = false;
    let mut i: usize = 0;
    while i < lifetimes.len()
        invariant
            i <= lifetimes.len(),
            errors@ == extra_lifetime_errors(lifetimes@.take(i as int)),
            has_a == exists|k: int| 0 <= k < i && (#[trigger] lifetimes@[k])@ == "a"@,
        decreases lifetimes.len() - i,
    {
        assert(lifetimes@.take(i + 1).drop_last() =~= lifetimes@.take(i as int));
        if str_equal(lifetimes[i].as_str(), "a") {
            has_a = true;
        } else {
            errors.push(DeriveError::ExtraLifetime(lifetimes[i].clone()));
        }
        i = i + 1;
    }
    assert(lifetimes@.take(lifetimes.len() as int) =~= lifetimes@);
    if !has_a {
        errors.push(DeriveError::MissingLifetime);
    }
    errors
}

/// The name of a field, `unknown` where it has none.
fn name_or_unknown(ident: Option<String>) -> (res: String)
    ensures
        res@ == field_name(ident),
{
    match ident {
        Some(i) => i,
        None => "unknown".to_owned(),
    }
}

/// `ident` followed by `Invalidity`.
fn invalidity_name(ident: &String) -> (res: String)
    ensures
        res@ == ident@ + "Invalidity"@,
{
    let res = ident.clone();
    res.concat("Invalidity")
}

impl EntityField {
    /// Checks a field of an entity; this never fails.
    pub fn from_input(input: EntityFieldInput) -> (res: EntityField)
        ensures
            entity_field_made(res, input),
    {
        let docs = select(&input.attrs, AttrClass::Doc);
        let attrs = select(&input.attrs, AttrClass::NotDoc);
        let validate = match input.validate {
            Validation::Disabled => false,
            _ => true,
        };
        let required = !entity_default(&input.attrs);
        let ident = name_or_unknown(input.ident);
        let variant_ident = snake_to_pascal(ident.as_str());
        EntityField { ident, variant_ident, ty: input.ty, docs, attrs, validate, required }
    }
}

impl EntityStruct {
    /// Checks an entity struct: the errors of all checks are reported together.
    pub fn from_input(input: EntityStructInput) -> (res: Result<EntityStruct, Vec<DeriveError>>)
        ensures
            if entity_errors(input).len() == 0 {
                res matches Ok(s) && entity_struct_made(s, input)
            } else {
                res matches Err(e) && e@ == entity_errors(input)
            },
    {
        let mut errors = check_lifetimes(&input.lifetimes);
        let mut out: Vec<EntityField> = Vec::new();
        match input.data {
            StructData::Other => {
                errors.push(DeriveError::NotStruct);
            },
            StructData::Named(fields) => {
                let ghost all = fields@;
                let n = fields.len();
                let mut rest = fields;
                let mut k: usize = 0;
                while rest.len() > 0
                    invariant
                        all.len() == n,
                        k <= all.len(),
                        rest@ == all.skip(k as int),
                        out@.len() == k,
                        forall|i: int| 0 <= i < k ==> entity_field_made(#[trigger] out@[i], all[i]),
                    decreases rest.len(),
                {
                    let field = rest.remove(0);
                    assert(field == all[k as int]);
                    out.push(EntityField::from_input(field));
                    k = k + 1;
                    assert(rest@ =~= all.skip(k as int));
                }
            },
        }
        if errors.len() != 0 {
            return Err(errors);
        }
        let docs = select(&input.attrs, AttrClass::Doc);
        let attrs = select(&input.attrs, AttrClass::NotDoc);
        let invalidity_ident = invalidity_name(&input.ident);
        Ok(EntityStruct { ident: input.ident, invalidity_ident, docs, attrs, fields: out })
    }
}

impl DocumentField {
    /// Checks a field of a document: it must be named and public.
    pub fn from_input(input: DocumentFieldInput) -> (res: Result<DocumentField, Vec<DeriveError>>)
        ensures
            if document_field_errors(input).len() == 0 {
                res matches Ok(f) && document_field_made(f, input)
            } else {
                res matches Err(e) && e@ == document_field_errors(input)
            },
    {
        let mut errors: Vec<DeriveError> = Vec::new();
        if input.ident.is_none() {
            errors.push(DeriveError::UnnamedField);
        }
        if !input.is_public {
            let ident = match &input.ident {
                Some(i) => Some(i.clone()),
                None => None,
            };
            errors.push(DeriveError::PrivateField(ident));
        }
        let docs = select(&input.attrs, AttrClass::Doc);
        let serde = select(&input.attrs, AttrClass::Serde);
        let attrs = select(&input.attrs, AttrClass::Other);
        let required = !document_default(&input.attrs);
        let ident = name_or_unknown(input.ident);
        let variant_ident = snake_to_pascal(ident.as_str());
        if errors.len() != 0 {
            return Err(errors);
        }
        Ok(DocumentField {
            ident,
            variant_ident,
            ty: input.ty,
            docs,
            serde,
            attrs,
            validate: input.validate,
            builder: input.builder,
            required,
        })
    }
}

/// `out` is what checking the document struct `input` gives, where it has no errors.
pub open spec fn document_struct_made(out: DocumentStruct, input: DocumentStructInput) -> bool {
    &&& out.ident == input.ident
    &&& out.invalidity_ident@ == input.ident@ + "Invalidity"@
    &&& out.docs@ == keep(input.attrs@, AttrClass::Doc)
    &&& out.attrs@ == keep(input.attrs@, AttrClass::NotDoc)
    &&& out.additional_props == input.extend_json
    &&& out.additional_invalidities == input.validate
    &&& (input.data matches StructData::Named(fields) && out.fields@.len() == fields@.len() && forall|i: int|
        0 <= i < fields@.len() ==> document_field_made(#[trigger] out.fields@[i], fields@[i]))
}

impl DocumentStruct {
    /// Checks a document struct: the errors of all checks, its fields'
    /// included, are reported together.
    pub fn from_input(input: DocumentStructInput) -> (res: Result<DocumentStruct, Vec<DeriveError>>)
        ensures
            if document_errors(input).len() == 0 {
                res matches Ok(s) && document_struct_made(s, input)
            } else {
                res matches Err(e) && e@ == document_errors(input)
            },
    {
        let mut errors = check_lifetimes(&input.lifetimes);
        let ghost lifetime_part = errors@;
        let mut out: Vec<DocumentField> = Vec::new();
        match input.data {
            StructData::Other => {
                errors.push(DeriveError::NotStruct);
            },
            StructData::Named(fields) => {
                let ghost all = fields@;
                let n = fields.len();
                let mut rest = fields;
                let mut k: usize = 0;
                while rest.len() > 0
                    invariant
                        all.len() == n,
                        k <= all.len(),
                        rest@ == all.skip(k as int),
                        errors@ == lifetime_part + document_fields_errors(all.take(k as int)),
                        document_fields_errors(all.take(k as int)).len() == 0 ==> {
                            &&& out@.len() == k
                            &&& forall|i: int| 0 <= i < k ==> document_field_made(#[trigger] out@[i], all[i])
                        },
                    decreases rest.len(),
                {
                    let field = rest.remove(0);
                    assert(field == all[k as int]);
                    assert(all.take(k + 1).drop_last() =~= all.take(k as int));
                    assert(all.take(k + 1).last() == all[k as int]);
                    match DocumentField::from_input(field) {
                        Ok(f) => {
                            out.push(f);
                        },
                        Err(mut es) => {
                            errors.append(&mut es);
                        },
                    }
                    k = k + 1;
                    assert(rest@ =~= all.skip(k as int));
                    assert(errors@ =~= lifetime_part + document_fields_errors(all.take(k as int)));
                }
                assert(all.take(n as int) =~= all);
            },
        }
        if errors.len() != 0 {
            return Err(errors);
        }
        let docs = select(&input.attrs, AttrClass::Doc);
        let attrs = select(&input.attrs, AttrClass::NotDoc);
        let invalidity_ident = invalidity_name(&input.ident);
        Ok(DocumentStruct {
            ident: input.ident,
            invalidity_ident,
            docs,
            attrs,
            fields: out,
            additional_props: input.extend_json,
            additional_invalidities: input.validate,
        })
    }
}

impl Default for Builder {
    fn default() -> (res: Builder)
        ensures
            res.enabled,
            res.rename is None,
    {
        Builder { enabled: true, rename: None }
    }
}

impl Builder {
    /// Reads `builder`, `builder = false` or `builder = "name"`.
    pub fn from_meta(meta: &Meta) -> (res: Result<Builder, Vec<MetaError>>)
        ensures
            match meta {
                Meta::Path(_) => res matches Ok(b) && b.enabled && b.rename is None,
                Meta::NameValue(_, MetaLit::Bool(v)) => res matches Ok(b) && b.enabled == *v && b.rename is None,
                Meta::NameValue(_, MetaLit::Str(name)) => res matches Ok(b) && b.enabled && b.rename == Some(*name),
                Meta::NameValue(_, MetaLit::Other) => res matches Err(e) && e@ == seq![MetaError::UnexpectedLiteral],
                Meta::List(_, _) => res matches Err(e) && e@ == seq![MetaError::Unsupported(Format::List)],
            },
    {
        match meta {
            Meta::Path(_) => Ok(Builder::default()),
            Meta::NameValue(_, MetaLit::Bool(v)) => Ok(Builder { enabled: *v, rename: None }),
            Meta::NameValue(_, MetaLit::Str(name)) => Ok(Builder { enabled: true, rename: Some(name.clone()) }),
            Meta::NameValue(_, MetaLit::Other) => {
                let mut e = Vec::new();
                e.push(MetaError::UnexpectedLiteral);
                Err(e)
            },
            Meta::List(_, _) => {
                let mut e = Vec::new();
                e.push(MetaError::Unsupported(Format::List));
                Err(e)
            },
        }
    }
}

// --- the fields every entity has ---

/// The names of the fields every entity has, in their order.
pub open spec fn common_field_names() -> Seq<Seq<char>> {
    seq!["availability"@, "availability_mode"@, "device"@, "enabled_by_default"@, "encoding"@, "entity_category"@, "icon"@, "json_attributes_template"@, "json_attributes_topic"@, "name"@, "object_id"@, "qos"@, "unique_id"@]
}

/// The common field at `i` is validated.
pub open spec fn common_field_validated(i: int) -> bool {
    i == 0 || i == 2 || i == 6 || i == 7 || i == 8 || i == 9 || i == 12
}

/// `t` is the type named by the single identifier `name`.
pub open spec fn is_named_type(t: TypeTree, name: Seq<char>) -> bool {
    t matches TypeTree::Path(None, p) && !p.leading_colon && p.segments@.len() == 1 && p.segments@[0].ident@ == name
        && p.segments@[0].args is Empty
}

/// `t` is `crate::module::name`, with the argument `<'a>` when it borrows.
pub open spec fn is_crate_type(t: TypeTree, module: Seq<char>, name: Seq<char>, borrows: bool) -> bool {
    t matches TypeTree::Path(None, p) && !p.leading_colon && p.segments@.len() == 3 && p.segments@[0].ident@ == "crate"@
        && p.segments@[0].args is Empty && p.segments@[1].ident@ == module && p.segments@[1].args is Empty
        && p.segments@[2].ident@ == name && (if borrows {
        p.segments@[2].args matches ArgsTree::AngleBracketed(a) && a@.len() == 1 && (a@[0] matches ArgTree::Lifetime(l)
            && l@ == "a"@)
    } else {
        p.segments@[2].args is Empty
    })
}

/// The `T` of `t` when `t` is written `Option<T>`.
pub open spec fn bare_option_inner(t: TypeTree) -> Option<TypeTree> {
    match t {
        TypeTree::Path(None, p) => if !p.leading_colon && p.segments@.len() == 1 && p.segments@[0].ident@ == "Option"@ {
            match p.segments@[0].args {
                ArgsTree::AngleBracketed(a) => if a@.len() == 1 {
                    match a@[0] {
                        ArgTree::Type(x) => Some(x),
                        _ => None,
                    }
                } else {
                    None
                },
                _ => None,
            }
        } else {
            None
        },
        _ => None,
    }
}

/// The `T` of `t` when `t` is written `::std::borrow::Cow<'a, T>`.
pub open spec fn cow_inner(t: TypeTree) -> Option<TypeTree> {
    match t {
        TypeTree::Path(None, p) => if p.leading_colon && p.segments@.len() == 3 && p.segments@[0].ident@ == "std"@
            && p.segments@[0].args is Empty && p.segments@[1].ident@ == "borrow"@ && p.segments@[1].args is Empty
            && p.segments@[2].ident@ == "Cow"@ {
            match p.segments@[2].args {
                ArgsTree::AngleBracketed(a) => if a@.len() == 2 && (a@[0] matches ArgTree::Lifetime(l) && l@ == "a"@) {
                    match a@[1] {
                        ArgTree::Type(x) => Some(x),
                        _ => None,
                    }
                } else {
                    None
                },
                _ => None,
            }
        } else {
            None
        },
        _ => None,
    }
}

/// `t` is `Option<crate::module::name<'a>>`.
pub open spec fn is_option_of_crate_type(t: TypeTree, module: Seq<char>, name: Seq<char>) -> bool {
    bare_option_inner(t) matches Some(x) && is_crate_type(x, module, name, true)
}

/// `t` is `Option<::std::borrow::Cow<'a, str>>`.
pub open spec fn is_option_of_cow_str(t: TypeTree) -> bool {
    bare_option_inner(t) matches Some(x) && (cow_inner(x) matches Some(y) && is_named_type(y, "str"@))
}

/// `t` is the type of the common field at `i`.
pub open spec fn has_common_type(t: TypeTree, i: int) -> bool {
    if i == 0 {
        cow_inner(t) matches Some(x) && (x matches TypeTree::Slice(e) && is_crate_type(*e, "availability"@, "Availability"@, true))
    } else if i == 1 {
        is_crate_type(t, "availability"@, "AvailabilityMode"@, false)
    } else if i == 2 {
        is_option_of_crate_type(t, "device"@, "Device"@)
    } else if i == 3 {
        bare_option_inner(t) matches Some(x) && is_named_type(x, "bool"@)
    } else if i == 4 {
        is_option_of_cow_str(t)
    } else if i == 5 {
        is_crate_type(t, "entity_category"@, "EntityCategory"@, false)
    } else if i == 6 {
        is_option_of_crate_type(t, "icon"@, "Icon"@)
    } else if i == 7 {
        is_option_of_crate_type(t, "template"@, "Template"@)
    } else if i == 8 {
        is_option_of_crate_type(t, "topic"@, "Topic"@)
    } else if i == 9 {
        is_option_of_crate_type(t, "name"@, "Name"@)
    } else if i == 10 {
        is_option_of_cow_str(t)
    } else if i == 11 {
        is_crate_type(t, "qos"@, "MqttQoS"@, false)
    } else {
        is_option_of_crate_type(t, "unique_id"@, "UniqueId"@)
    }
}

/// The documentation lines of the common field at `i`.
pub open spec fn common_field_docs(i: int) -> Seq<Seq<char>> {
    if i == 0 {
        seq![" A list of MQTT topics subscribed to receive availability (online/offline) updates."@]
    } else     if i == 1 {
        seq![" When `availability` is configured, this controls the conditions needed"@, " to set the entity to `available`."@]
    } else     if i == 2 {
        seq![" Information about the device this entity is a part of to tie it into the device registry."@, " Only works through MQTT discovery and when `unique_id` is set."@, " At least one of identifiers or connections must be present to identify the device."@]
    } else     if i == 3 {
        seq![" Flag which defines if the entity should be enabled when first added."@, " Defaults to `true`."@]
    } else     if i == 4 {
        seq![" The encoding of the payloads received and published messages. Set to \"\" to disable decoding of incoming payload."@, " Defaults to `\"utf-8\"`."@]
    } else     if i == 5 {
        seq![" The [category] of the entity."@, ""@, " [category]: https://developers.home-assistant.io/docs/core/entity#generic-properties"@]
    } else     if i == 6 {
        seq![" [Icon][icon] for the entity."@, ""@, " [icon]: https://www.home-assistant.io/docs/configuration/customizing-devices/#icon"@]
    } else     if i == 7 {
        seq![" Defines a [template][template] to extract the JSON dictionary from messages received"@, " on the `json_attributes_topic`."@, ""@, " [template]: https://www.home-assistant.io/docs/configuration/templating/#processing-incoming-data"@]
    } else     if i == 8 {
        seq![" The MQTT topic subscribed to receive a JSON dictionary payload and then set as entity"@, " attributes."@, ""@, " Implies `force_update` of the current state when a message is received on this topic."@]
    } else     if i == 9 {
        seq![" The name of the MQTT entity."@]
    } else     if i == 10 {
        seq![" Used instead of `name` for automatic generation of `entity_id`."@]
    } else     if i == 11 {
        seq![" The maximum QoS level of the state topic."@]
    } else     {
        seq![" An ID that uniquely identifies this entity. If two entities have the same unique ID,"@, " Home Assistant will raise an exception."@]
    }
}

/// The serde arguments of the common field at `i`.
pub open spec fn common_field_serde(i: int) -> Seq<char> {
    if i == 0 {
        "borrow, default, skip_serializing_if = \"<[crate::availability::Availability]>::is_empty\""@
    } else     if i == 1 {
        "default, skip_serializing_if = \"crate::availability::AvailabilityMode::is_default\""@
    } else     if i == 2 {
        "borrow, default, skip_serializing_if = \"Option::is_none\""@
    } else     if i == 3 {
        "default, skip_serializing_if = \"Option::is_none\""@
    } else     if i == 4 {
        "borrow, default, skip_serializing_if = \"Option::is_none\""@
    } else     if i == 5 {
        "default, skip_serializing_if = \"crate::entity_category::EntityCategory::is_none\""@
    } else     if i == 6 {
        "borrow, default, skip_serializing_if = \"Option::is_none\""@
    } else     if i == 7 {
        "borrow, default, skip_serializing_if = \"Option::is_none\""@
    } else     if i == 8 {
        "borrow, default, skip_serializing_if = \"Option::is_none\""@
    } else     if i == 9 {
        "borrow, default, skip_serializing_if = \"Option::is_none\""@
    } else     if i == 10 {
        "borrow, default, skip_serializing_if = \"Option::is_none\""@
    } else     if i == 11 {
        "default, skip_serializing_if = \"crate::qos::MqttQoS::is_default\""@
    } else     {
        "borrow, default, skip_serializing_if = \"Option::is_none\""@
    }
}

/// `attrs` are the attributes of a common field: a documentation attribute
/// per line of `docs`, then the serde attribute with arguments `serde`, then
/// `entity(validate)` when the field is validated.
pub open spec fn has_common_attrs(attrs: Seq<AttrInput>, docs: Seq<Seq<char>>, serde: Seq<char>, validated: bool) -> bool {
    &&& attrs.len() == docs.len() + 1 + (if validated { 1int } else { 0int })
    &&& forall|k: int|
        0 <= k < docs.len() ==> is_doc(#[trigger] attrs[k]) && (attrs[k].args matches AttrArgs::NameValue(t) && t@ == docs[k])
    &&& is_serde(attrs[docs.len() as int]) && (attrs[docs.len() as int].args matches AttrArgs::List(t) && t@ == serde)
    &&& validated ==> has_ident(attrs[docs.len() + 1int], "entity"@) && (attrs[docs.len() + 1int].args matches AttrArgs::List(t)
        && t@ == "validate"@)
}

/// `f` is the common entity field at `i`: its name, type, attributes and
/// validation, and that it has a serde default, so it is never required.
pub open spec fn is_common_entity_field(f: EntityFieldInput, i: int) -> bool {
    &&& f.ident matches Some(n) && n@ == common_field_names()[i]
    &&& has_common_type(f.ty, i)
    &&& has_common_attrs(f.attrs@, common_field_docs(i), common_field_serde(i), common_field_validated(i))
    &&& if common_field_validated(i) { f.validate is Default } else { f.validate is Disabled }
    &&& entity_has_default(f.attrs@)
    &&& document_has_default(f.attrs@)
}


/// A path segment without arguments.
fn plain_segment(ident: &str) -> (res: SegmentTree)
    ensures
        res.ident@ == ident@,
        res.args is Empty,
{
    SegmentTree { ident: ident.to_owned(), args: ArgsTree::Empty }
}

/// The type named `ident`.
fn named_type(ident: &str) -> (res: TypeTree)
    ensures
        is_named_type(res, ident@),
{
    let mut segments = Vec::new();
    segments.push(plain_segment(ident));
    TypeTree::Path(None, PathTree { leading_colon: false, segments })
}

/// `crate::module::name`, or `crate::module::name<'a>` when it borrows.
fn crate_type(module: &str, name: &str, borrows: bool) -> (res: TypeTree)
    ensures
        is_crate_type(res, module@, name@, borrows),
{
    let args = if borrows {
        let mut a = Vec::new();
        a.push(ArgTree::Lifetime("a".to_owned()));
        ArgsTree::AngleBracketed(a)
    } else {
        ArgsTree::Empty
    };
    let mut segments = Vec::new();
    segments.push(plain_segment("crate"));
    segments.push(plain_segment(module));
    segments.push(SegmentTree { ident: name.to_owned(), args });
    TypeTree::Path(None, PathTree { leading_colon: false, segments })
}

/// `Option<inner>`.
fn option_of(inner: TypeTree) -> (res: TypeTree)
    ensures
        bare_option_inner(res) == Some(inner),
{
    let mut a = Vec::new();
    a.push(ArgTree::Type(inner));
    let mut segments = Vec::new();
    segments.push(SegmentTree { ident: "Option".to_owned(), args: ArgsTree::AngleBracketed(a) });
    TypeTree::Path(None, PathTree { leading_colon: false, segments })
}

/// `::std::borrow::Cow<'a, inner>`.
fn cow(inner: TypeTree) -> (res: TypeTree)
    ensures
        cow_inner(res) == Some(inner),
{
    let mut a = Vec::new();
    a.push(ArgTree::Lifetime("a".to_owned()));
    a.push(ArgTree::Type(inner));
    let mut segments = Vec::new();
    segments.push(plain_segment("std"));
    segments.push(plain_segment("borrow"));
    segments.push(SegmentTree { ident: "Cow".to_owned(), args: ArgsTree::AngleBracketed(a) });
    TypeTree::Path(None, PathTree { leading_colon: true, segments })
}

/// A documentation attribute with the given line.
fn doc_attr(text: &str) -> (res: AttrInput)
    ensures
        is_doc(res),
        !is_serde(res),
        res.args matches AttrArgs::NameValue(t) && t@ == text@,
{
    proof {
        reveal_strlit("doc");
        reveal_strlit("serde");
        assert("doc"@.len() != "serde"@.len());
    }
    AttrInput { ident: Some("doc".to_owned()), args: AttrArgs::NameValue(text.to_owned()) }
}

/// A field of the entity common fields, with its documentation lines, its
/// serde arguments and whether it is validated.
fn common_field(name: &str, ty: TypeTree, docs: Vec<&str>, serde: &str, validate: bool) -> (res: EntityFieldInput)
    ensures
        res.ident matches Some(n) && n@ == name@,
        res.ty == ty,
        if validate { res.validate is Default } else { res.validate is Disabled },
        entity_has_default(res.attrs@) == contains_seq(serde@, "default"@),
        document_has_default(res.attrs@) == contains_seq(serde@, "default"@),
        has_common_attrs(res.attrs@, docs@.map_values(|d: &str| d@), serde@, validate),
{
    let mut attrs: Vec<AttrInput> = Vec::new();
    let mut i: usize = 0;
    while i < docs.len()
        invariant
            i <= docs.len(),
            attrs@.len() == i,
            forall|k: int| 0 <= k < i ==> !is_serde(#[trigger] attrs@[k]),
            forall|k: int|
                0 <= k < i ==> is_doc(#[trigger] attrs@[k]) && (attrs@[k].args matches AttrArgs::NameValue(t) && t@
                    == docs@[k]@),
        decreases docs.len() - i,
    {
        attrs.push(doc_attr(docs[i]));
        i = i + 1;
    }
    let ghost n = attrs@.len();
    proof {
        reveal_strlit("serde");
        reveal_strlit("entity");
    }
    attrs.push(AttrInput { ident: Some("serde".to_owned()), args: AttrArgs::List(serde.to_owned()) });
    if validate {
        attrs.push(AttrInput { ident: Some("entity".to_owned()), args: AttrArgs::List("validate".to_owned()) });
    }
    assert(is_serde(attrs@[n as int]));
    assert forall|k: int| 0 <= k < attrs@.len() && is_serde(#[trigger] attrs@[k]) implies k == n by {
        if k > n {
            assert("entity"@.len() != "serde"@.len());
        }
    }
    let validation = if validate { Validation::Default } else { Validation::Disabled };
    EntityFieldInput { ident: Some(name.to_owned()), ty, attrs, validate: validation }
}

/// The fields every entity has, in their order: its availability, device,
/// name, icon, quality of service and other settings shared by all kinds of
/// entities.
pub fn common_fields() -> (res: Vec<EntityFieldInput>)
    ensures
        res@.len() == common_field_names().len(),
        forall|i: int| 0 <= i < res@.len() ==> is_common_entity_field(#[trigger] res@[i], i),
{
let mut fields: Vec<EntityFieldInput> = Vec::new();
    fields.push(common_field("availability", cow(TypeTree::Slice(Box::new(crate_type("availability", "Availability", true)))), vec![" A list of MQTT topics subscribed to receive availability (online/offline) updates."], "borrow, default, skip_serializing_if = \"<[crate::availability::Availability]>::is_empty\"", true));
    proof {
        reveal_strlit("borrow, default, skip_serializing_if = \"<[crate::availability::Availability]>::is_empty\"");
        reveal_strlit("default");
        assert(("borrow, default, skip_serializing_if = \"<[crate::availability::Availability]>::is_empty\"")@.subrange(8, 8int + "default"@.len()) =~= "default"@);
        assert(contains_seq(("borrow, default, skip_serializing_if = \"<[crate::availability::Availability]>::is_empty\"")@, "default"@));
    }
    fields.push(common_field("availability_mode", crate_type("availability", "AvailabilityMode", false), vec![" When `availability` is configured, this controls the conditions needed", " to set the entity to `available`."], "default, skip_serializing_if = \"crate::availability::AvailabilityMode::is_default\"", false));
    proof {
        reveal_strlit("default, skip_serializing_if = \"crate::availability::AvailabilityMode::is_default\"");
        reveal_strlit("default");
        assert(("default, skip_serializing_if = \"crate::availability::AvailabilityMode::is_default\"")@.subrange(0, 0int + "default"@.len()) =~= "default"@);
        assert(contains_seq(("default, skip_serializing_if = \"crate::availability::AvailabilityMode::is_default\"")@, "default"@));
    }
    fields.push(common_field("device", option_of(crate_type("device", "Device", true)), vec![" Information about the device this entity is a part of to tie it into the device registry.", " Only works through MQTT discovery and when `unique_id` is set.", " At least one of identifiers or connections must be present to identify the device."], "borrow, default, skip_serializing_if = \"Option::is_none\"", true));
    proof {
        reveal_strlit("borrow, default, skip_serializing_if = \"Option::is_none\"");
        reveal_strlit("default");
        assert(("borrow, default, skip_serializing_if = \"Option::is_none\"")@.subrange(8, 8int + "default"@.len()) =~= "default"@);
        assert(contains_seq(("borrow, default, skip_serializing_if = \"Option::is_none\"")@, "default"@));
    }
    fields.push(common_field("enabled_by_default", option_of(named_type("bool")), vec![" Flag which defines if the entity should be enabled when first added.", " Defaults to `true`."], "default, skip_serializing_if = \"Option::is_none\"", false));
    proof {
        reveal_strlit("default, skip_serializing_if = \"Option::is_none\"");
        reveal_strlit("default");
        assert(("default, skip_serializing_if = \"Option::is_none\"")@.subrange(0, 0int + "default"@.len()) =~= "default"@);
        assert(contains_seq(("default, skip_serializing_if = \"Option::is_none\"")@, "default"@));
    }
    fields.push(common_field("encoding", option_of(cow(named_type("str"))), vec![" The encoding of the payloads received and published messages. Set to \"\" to disable decoding of incoming payload.", " Defaults to `\"utf-8\"`."], "borrow, default, skip_serializing_if = \"Option::is_none\"", false));
    proof {
        reveal_strlit("borrow, default, skip_serializing_if = \"Option::is_none\"");
        reveal_strlit("default");
        assert(("borrow, default, skip_serializing_if = \"Option::is_none\"")@.subrange(8, 8int + "default"@.len()) =~= "default"@);
        assert(contains_seq(("borrow, default, skip_serializing_if = \"Option::is_none\"")@, "default"@));
    }
    fields.push(common_field("entity_category", crate_type("entity_category", "EntityCategory", false), vec![" The [category] of the entity.", "", " [category]: https://developers.home-assistant.io/docs/core/entity#generic-properties"], "default, skip_serializing_if = \"crate::entity_category::EntityCategory::is_none\"", false));
    proof {
        reveal_strlit("default, skip_serializing_if = \"crate::entity_category::EntityCategory::is_none\"");
        reveal_strlit("default");
        assert(("default, skip_serializing_if = \"crate::entity_category::EntityCategory::is_none\"")@.subrange(0, 0int + "default"@.len()) =~= "default"@);
        assert(contains_seq(("default, skip_serializing_if = \"crate::entity_category::EntityCategory::is_none\"")@, "default"@));
    }
    fields.push(common_field("icon", option_of(crate_type("icon", "Icon", true)), vec![" [Icon][icon] for the entity.", "", " [icon]: https://www.home-assistant.io/docs/configuration/customizing-devices/#icon"], "borrow, default, skip_serializing_if = \"Option::is_none\"", true));
    proof {
        reveal_strlit("borrow, default, skip_serializing_if = \"Option::is_none\"");
        reveal_strlit("default");
        assert(("borrow, default, skip_serializing_if = \"Option::is_none\"")@.subrange(8, 8int + "default"@.len()) =~= "default"@);
        assert(contains_seq(("borrow, default, skip_serializing_if = \"Option::is_none\"")@, "default"@));
    }
    fields.push(common_field("json_attributes_template", option_of(crate_type("template", "Template", true)), vec![" Defines a [template][template] to extract the JSON dictionary from messages received", " on the `json_attributes_topic`.", "", " [template]: https://www.home-assistant.io/docs/configuration/templating/#processing-incoming-data"], "borrow, default, skip_serializing_if = \"Option::is_none\"", true));
    proof {
        reveal_strlit("borrow, default, skip_serializing_if = \"Option::is_none\"");
        reveal_strlit("default");
        assert(("borrow, default, skip_serializing_if = \"Option::is_none\"")@.subrange(8, 8int + "default"@.len()) =~= "default"@);
        assert(contains_seq(("borrow, default, skip_serializing_if = \"Option::is_none\"")@, "default"@));
    }
    fields.push(common_field("json_attributes_topic", option_of(crate_type("topic", "Topic", true)), vec![" The MQTT topic subscribed to receive a JSON dictionary payload and then set as entity", " attributes.", "", " Implies `force_update` of the current state when a message is received on this topic."], "borrow, default, skip_serializing_if = \"Option::is_none\"", true));
    proof {
        reveal_strlit("borrow, default, skip_serializing_if = \"Option::is_none\"");
        reveal_strlit("default");
        assert(("borrow, default, skip_serializing_if = \"Option::is_none\"")@.subrange(8, 8int + "default"@.len()) =~= "default"@);
        assert(contains_seq(("borrow, default, skip_serializing_if = \"Option::is_none\"")@, "default"@));
    }
    fields.push(common_field("name", option_of(crate_type("name", "Name", true)), vec![" The name of the MQTT entity."], "borrow, default, skip_serializing_if = \"Option::is_none\"", true));
    proof {
        reveal_strlit("borrow, default, skip_serializing_if = \"Option::is_none\"");
        reveal_strlit("default");
        assert(("borrow, default, skip_serializing_if = \"Option::is_none\"")@.subrange(8, 8int + "default"@.len()) =~= "default"@);
        assert(contains_seq(("borrow, default, skip_serializing_if = \"Option::is_none\"")@, "default"@));
    }
    fields.push(common_field("object_id", option_of(cow(named_type("str"))), vec![" Used instead of `name` for automatic generation of `entity_id`."], "borrow, default, skip_serializing_if = \"Option::is_none\"", false));
    proof {
        reveal_strlit("borrow, default, skip_serializing_if = \"Option::is_none\"");
        reveal_strlit("default");
        assert(("borrow, default, skip_serializing_if = \"Option::is_none\"")@.subrange(8, 8int + "default"@.len()) =~= "default"@);
        assert(contains_seq(("borrow, default, skip_serializing_if = \"Option::is_none\"")@, "default"@));
    }
    fields.push(common_field("qos", crate_type("qos", "MqttQoS", false), vec![" The maximum QoS level of the state topic."], "default, skip_serializing_if = \"crate::qos::MqttQoS::is_default\"", false));
    proof {
        reveal_strlit("default, skip_serializing_if = \"crate::qos::MqttQoS::is_default\"");
        reveal_strlit("default");
        assert(("default, skip_serializing_if = \"crate::qos::MqttQoS::is_default\"")@.subrange(0, 0int + "default"@.len()) =~= "default"@);
        assert(contains_seq(("default, skip_serializing_if = \"crate::qos::MqttQoS::is_default\"")@, "default"@));
    }
    fields.push(common_field("unique_id", option_of(crate_type("unique_id", "UniqueId", true)), vec![" An ID that uniquely identifies this entity. If two entities have the same unique ID,", " Home Assistant will raise an exception."], "borrow, default, skip_serializing_if = \"Option::is_none\"", true));
    proof {
        reveal_strlit("borrow, default, skip_serializing_if = \"Option::is_none\"");
        reveal_strlit("default");
        assert(("borrow, default, skip_serializing_if = \"Option::is_none\"")@.subrange(8, 8int + "default"@.len()) =~= "default"@);
        assert(contains_seq(("borrow, default, skip_serializing_if = \"Option::is_none\"")@, "default"@));
    }
    assert(is_common_entity_field(fields@[0], 0));
    assert(is_common_entity_field(fields@[1], 1));
    assert(is_common_entity_field(fields@[2], 2));
    assert(is_common_entity_field(fields@[3], 3));
    assert(is_common_entity_field(fields@[4], 4));
    assert(is_common_entity_field(fields@[5], 5));
    assert(is_common_entity_field(fields@[6], 6));
    assert(is_common_entity_field(fields@[7], 7));
    assert(is_common_entity_field(fields@[8], 8));
    assert(is_common_entity_field(fields@[9], 9));
    assert(is_common_entity_field(fields@[10], 10));
    assert(is_common_entity_field(fields@[11], 11));
    assert(is_common_entity_field(fields@[12], 12));
    fields
}

/// `res` is the entity struct `input` with the common fields before its own.
pub open spec fn entity_with_common(res: EntityStructInput, input: EntityStructInput) -> bool {
    &&& res.ident == input.ident
    &&& res.lifetimes == input.lifetimes
    &&& res.attrs == input.attrs
    &&& match input.data {
        StructData::Named(own) => res.data matches StructData::Named(all) && {
            &&& all@.len() == common_field_names().len() + own@.len()
            &&& forall|i: int| 0 <= i < common_field_names().len() ==> is_common_entity_field(#[trigger] all@[i], i)
            &&& all@.skip(common_field_names().len() as int) == own@
        },
        StructData::Other => res.data is Other,
    }
}

impl EntityStructInput {
    /// The struct with the common fields before its own.
    pub fn with_common_fields(self) -> (res: EntityStructInput)
        ensures
            entity_with_common(res, self),
    {
        let EntityStructInput { ident, lifetimes, data, attrs } = self;
        let data = match data {
            StructData::Named(own) => {
                let mut all = common_fields();
                let mut own = own;
                let ghost common = all@;
                let ghost own_fields = own@;
                all.append(&mut own);
                assert(all@.skip(common.len() as int) =~= own_fields);
                StructData::Named(all)
            },
            StructData::Other => StructData::Other,
        };
        EntityStructInput { ident, lifetimes, data, attrs }
    }
}

/// `f` is the common document field at `i`: public, with the default
/// builder, validated as the common entity field is, and never required.
pub open spec fn is_common_document_field(f: DocumentFieldInput, i: int) -> bool {
    &&& f.ident matches Some(n) && n@ == common_field_names()[i]
    &&& f.is_public
    &&& f.builder.enabled && f.builder.rename is None
    &&& has_common_type(f.ty, i)
    &&& has_common_attrs(f.attrs@, common_field_docs(i), common_field_serde(i), common_field_validated(i))
    &&& if common_field_validated(i) { f.validate is Default } else { f.validate is Disabled }
    &&& document_has_default(f.attrs@)
}

/// The fields every entity document has, in their order, as document fields.
pub fn common_document_fields() -> (res: Vec<DocumentFieldInput>)
    ensures
        res@.len() == common_field_names().len(),
        forall|i: int| 0 <= i < res@.len() ==> is_common_document_field(#[trigger] res@[i], i),
{
    let mut common = common_fields();
    let ghost all = common@;
    let n = common.len();
    let mut res: Vec<DocumentFieldInput> = Vec::new();
    let mut k: usize = 0;
    while common.len() > 0
        invariant
            all.len() == n,
            n == common_field_names().len(),
            forall|i: int| 0 <= i < n ==> is_common_entity_field(#[trigger] all[i], i),
            k <= n,
            common@ == all.skip(k as int),
            res@.len() == k,
            forall|i: int| 0 <= i < k ==> is_common_document_field(#[trigger] res@[i], i),
        decreases common.len(),
    {
        let f = common.remove(0);
        assert(f == all[k as int]);
        assert(is_common_entity_field(all[k as int], k as int));
        res.push(DocumentFieldInput {
            ident: f.ident,
            is_public: true,
            ty: f.ty,
            attrs: f.attrs,
            validate: f.validate,
            builder: Builder::default(),
        });
        k = k + 1;
        assert(common@ =~= all.skip(k as int));
    }
    res
}

/// `res` is the entity document `input` with the common fields before its own.
pub open spec fn document_with_common(res: DocumentStructInput, input: DocumentStructInput) -> bool {
    &&& res.ident == input.ident
    &&& res.lifetimes == input.lifetimes
    &&& res.attrs == input.attrs
    &&& res.extend_json == input.extend_json
    &&& res.validate == input.validate
    &&& match input.data {
        StructData::Named(own) => res.data matches StructData::Named(all) && {
            &&& all@.len() == common_field_names().len() + own@.len()
            &&& forall|i: int| 0 <= i < common_field_names().len() ==> is_common_document_field(#[trigger] all@[i], i)
            &&& all@.skip(common_field_names().len() as int) == own@
        },
        StructData::Other => res.data is Other,
    }
}

impl DocumentStructInput {
    /// The entity document with the common fields before its own.
    pub fn with_common_fields(self) -> (res: DocumentStructInput)
        ensures
            document_with_common(res, self),
    {
        let DocumentStructInput { ident, lifetimes, data, attrs, extend_json, validate } = self;
        let data = match data {
            StructData::Named(own) => {
                let mut all = common_document_fields();
                let mut own = own;
                let ghost common = all@;
                let ghost own_fields = own@;
                all.append(&mut own);
                assert(all@.skip(common.len() as int) =~= own_fields);
                StructData::Named(all)
            },
            StructData::Other => StructData::Other,
        };
        DocumentStructInput { ident, lifetimes, data, attrs, extend_json, validate }
    }
}

impl Validation {
    /// Reads `validate` (the field type's own validation) or
    /// `validate = "path"` (validation with the function at the path).
    pub fn from_meta(meta: &Meta) -> (res: Result<Validation, Vec<MetaError>>)
        ensures
            match meta {
                Meta::Path(_) => res matches Ok(v) && v is Default,
                Meta::NameValue(_, MetaLit::Str(text)) => if parses_as_path(text@) {
                    res matches Ok(v) && v == Validation::With(*text)
                } else {
                    res matches Err(e) && e@ == seq![MetaError::UnknownValue]
                },
                Meta::NameValue(_, _) => res matches Err(e) && e@ == seq![MetaError::UnexpectedLiteral],
                Meta::List(_, _) => res matches Err(e) && e@ == seq![MetaError::Unsupported(Format::List)],
            },
    {
        let error = match meta {
            Meta::Path(_) => {
                return Ok(Validation::Default);
            },
            Meta::NameValue(_, MetaLit::Str(text)) => {
                if is_path(text.as_str()) {
                    return Ok(Validation::With(text.clone()));
                }
                MetaError::UnknownValue
            },
            Meta::NameValue(_, _) => MetaError::UnexpectedLiteral,
            Meta::List(_, _) => MetaError::Unsupported(Format::List),
        };
        let mut e = Vec::new();
        e.push(error);
        Err(e)
    }
}


/// No lifetime is reported as extra exactly when every lifetime is `'a`.
proof fn lemma_no_extra_lifetimes(l: Seq<String>)
    ensures
        extra_lifetime_errors(l).len() == 0 <==> forall|k: int| 0 <= k < l.len() ==> (#[trigger] l[k])@ == "a"@,
    decreases l.len(),
{
    if l.len() > 0 {
        let rest = l.drop_last();
        lemma_no_extra_lifetimes(rest);
        if forall|k: int| 0 <= k < l.len() ==> (#[trigger] l[k])@ == "a"@ {
            assert forall|k: int| 0 <= k < rest.len() implies (#[trigger] rest[k])@ == "a"@ by {
                assert(rest[k] == l[k]);
            }
        }
        if extra_lifetime_errors(l).len() == 0 {
            assert forall|k: int| 0 <= k < l.len() implies (#[trigger] l[k])@ == "a"@ by {
                if k < rest.len() {
                    assert(rest[k] == l[k]);
                }
            }
        }
    }
}

/// No field of a document is reported exactly when each is named and public.
proof fn lemma_no_field_errors(fields: Seq<DocumentFieldInput>)
    ensures
        document_fields_errors(fields).len() == 0 <==> forall|k: int|
            0 <= k < fields.len() ==> (#[trigger] fields[k]).ident is Some && fields[k].is_public,
    decreases fields.len(),
{
    if fields.len() > 0 {
        let rest = fields.drop_last();
        lemma_no_field_errors(rest);
        if forall|k: int| 0 <= k < fields.len() ==> (#[trigger] fields[k]).ident is Some && fields[k].is_public {
            assert forall|k: int| 0 <= k < rest.len() implies (#[trigger] rest[k]).ident is Some && rest[k].is_public by {
                assert(rest[k] == fields[k]);
            }
            assert(fields[fields.len() - 1].ident is Some);
        }
        if document_fields_errors(fields).len() == 0 {
            assert forall|k: int| 0 <= k < fields.len() implies (#[trigger] fields[k]).ident is Some && fields[k].is_public by {
                if k < rest.len() {
                    assert(rest[k] == fields[k]);
                }
            }
        }
    }
}

/// An entity struct is accepted exactly when it is a struct with named
/// fields that declares the lifetime `'a` and no other.
pub proof fn law_entity_accepted(input: EntityStructInput)
    ensures
        entity_errors(input).len() == 0 <==> {
            &&& input.data is Named
            &&& input.lifetimes@.len() > 0
            &&& forall|k: int| 0 <= k < input.lifetimes@.len() ==> (#[trigger] input.lifetimes@[k])@ == "a"@
        },
{
    let l = input.lifetimes@;
    lemma_no_extra_lifetimes(l);
    if l.len() > 0 && forall|k: int| 0 <= k < l.len() ==> (#[trigger] l[k])@ == "a"@ {
        assert(l[0]@ == "a"@);
        assert(declares_a(l));
    }
}

/// A document struct is accepted exactly when it is a struct with named
/// fields that declares the lifetime `'a` and no other, and each of its
/// fields is named and public.
pub proof fn law_document_accepted(input: DocumentStructInput)
    ensures
        document_errors(input).len() == 0 <==> {
            &&& input.data matches StructData::Named(fields) && forall|k: int|
                0 <= k < fields@.len() ==> (#[trigger] fields@[k]).ident is Some && fields@[k].is_public
            &&& input.lifetimes@.len() > 0
            &&& forall|k: int| 0 <= k < input.lifetimes@.len() ==> (#[trigger] input.lifetimes@[k])@ == "a"@
        },
{
    let l = input.lifetimes@;
    lemma_no_extra_lifetimes(l);
    if l.len() > 0 && forall|k: int| 0 <= k < l.len() ==> (#[trigger] l[k])@ == "a"@ {
        assert(l[0]@ == "a"@);
        assert(declares_a(l));
    }
    match input.data {
        StructData::Named(fields) => {
            lemma_no_field_errors(fields@);
        },
        StructData::Other => {},
    }
}

} // verus!
