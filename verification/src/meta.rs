//! The arguments of the derive attributes: `extend_json(name = "value", ..)`
//! adds JSON properties to a document, `validate(Variant, Other(Type), ..)`
//! adds variants to its invalidity enum, and `builder`, `builder = false` or
//! `builder = "name"` sets up a field's builder method. Each is read from the
//! attribute's meta items; every item that cannot be read is reported, all
//! together.

use vstd::prelude::*;
use crate::state::attributes::Attributes;
use crate::state::order::strictly_sorted;

verus! {

/// A path in an attribute.
pub struct MetaPath {
    /// The identifiers of its segments.
    pub segments: Vec<String>,
    /// The path as written.
    pub text: String,
}

/// The literal on the right of `name = ...`.
pub enum MetaLit {
    /// A string literal, with its value.
    Str(String),
    /// A boolean literal.
    Bool(bool),
    /// Any other literal.
    Other,
}

/// An item in a list nested in another list, as far as it is read.
pub enum Leaf {
    Literal,
    Path(MetaPath),
    List,
    NameValue,
}

/// One item in the list of an attribute's arguments.
pub enum NestedItem {
    /// A bare literal.
    Literal,
    /// A bare path.
    Path(MetaPath),
    /// `path(...)`, with its items.
    List(MetaPath, Vec<Leaf>),
    /// `path = value`.
    NameValue(MetaPath, MetaLit),
}

/// An attribute argument: `name`, `name(...)` or `name = value`.
pub enum Meta {
    Path(MetaPath),
    List(MetaPath, Vec<NestedItem>),
    NameValue(MetaPath, MetaLit),
}

/// The form of an item that is not accepted.
#[derive(Clone, Copy, Debug, PartialEq, Eq, Structural)]
pub enum Format {
    Path,
    NameValue,
    Literal,
    List,
}

/// Why an item could not be read.
#[derive(Clone, Copy, Debug, PartialEq, Eq, Structural)]
pub enum MetaError {
    /// The item has a form that is not accepted.
    Unsupported(Format),
    /// The value is not a literal of the expected kind.
    UnexpectedLiteral,
    /// The string value does not have the expected form.
    UnknownValue,
}

/// The single error `e`.
fn single(e: MetaError) -> (res: Vec<MetaError>)
    ensures
        res@ == seq![e],
{
    let mut v = Vec::new();
    v.push(e);
    v
}

// --- extra JSON properties ---

/// What is wrong with one property item, if anything.
pub open spec fn prop_error(item: NestedItem) -> Option<MetaError> {
    match item {
        NestedItem::Literal => Some(MetaError::Unsupported(Format::Literal)),
        NestedItem::Path(_) => Some(MetaError::Unsupported(Format::Path)),
        NestedItem::List(_, _) => Some(MetaError::Unsupported(Format::List)),
        NestedItem::NameValue(path, value) => if path.segments@.len() != 1 {
            Some(MetaError::Unsupported(Format::Path))
        } else {
            match value {
                MetaLit::Str(_) => None,
                _ => Some(MetaError::UnexpectedLiteral),
            }
        },
    }
}

/// The errors of the property items, in their order.
pub open spec fn prop_errors(items: Seq<NestedItem>) -> Seq<MetaError>
    decreases items.len(),
{
    if items.len() == 0 {
        Seq::empty()
    } else {
        let rest = prop_errors(items.drop_last());
        match prop_error(items.last()) {
            Some(e) => rest.push(e),
            None => rest,
        }
    }
}

/// The properties the items set, a later item winning over an earlier one
/// with the same name.
pub open spec fn props_of(items: Seq<NestedItem>) -> Map<Seq<char>, Seq<char>>
    decreases items.len(),
{
    if items.len() == 0 {
        Map::empty()
    } else {
        let rest = props_of(items.drop_last());
        match items.last() {
            NestedItem::NameValue(path, MetaLit::Str(v)) => if path.segments@.len() == 1 {
                rest.insert(path.segments@[0]@, v@)
            } else {
                rest
            },
            _ => rest,
        }
    }
}

/// Additional properties: a map from names to values, kept in name order.
pub struct AdditionalProps {
    values: Attributes,
}

impl AdditionalProps {
    /// What the properties hold.
    pub closed spec fn view(&self) -> Map<Seq<char>, Seq<char>> {
        self.values.view()
    }

    /// The map is kept in order.
    pub closed spec fn wf(&self) -> bool {
        self.values.wf()
    }

    /// The properties, in increasing order of their names.
    pub fn props(&self) -> (res: &Vec<(String, String)>)
        requires
            self.wf(),
        ensures
            res@.len() == self.view().dom().len(),
            strictly_sorted(res@.map_values(|e: (String, String)| e.0@)),
            forall|i: int|
                0 <= i < res@.len() ==> {
                    &&& self.view().dom().contains(#[trigger] res@[i].0@)
                    &&& self.view()[res@[i].0@] == res@[i].1@
                },
            forall|k: Seq<char>|
                #[trigger] self.view().dom().contains(k) ==> exists|i: int| 0 <= i < res@.len() && res@[i].0@ == k,
    {
        self.values.entries()
    }

    /// Reads the properties from `extend_json(...)`. Every item that is not
    /// `name = "value"` with a one-segment name is an error.
    pub fn from_meta(meta: &Meta) -> (res: Result<AdditionalProps, Vec<MetaError>>)
        ensures
            match meta {
                Meta::Path(_) => res matches Err(e) && e@ == seq![MetaError::Unsupported(Format::Path)],
                Meta::NameValue(_, _) => res matches Err(e) && e@ == seq![MetaError::Unsupported(Format::NameValue)],
                Meta::List(_, items) => if prop_errors(items@).len() == 0 {
                    res matches Ok(p) && p.wf() && p.view() == props_of(items@)
                } else {
                    res matches Err(e) && e@ == prop_errors(items@)
                },
            },
    {
        match meta {
            Meta::Path(_) => Err(single(MetaError::Unsupported(Format::Path))),
            Meta::NameValue(_, _) => Err(single(MetaError::Unsupported(Format::NameValue))),
            Meta::List(_, items) => AdditionalProps::from_items(items),
        }
    }

    fn from_items(items: &Vec<NestedItem>) -> (res: Result<AdditionalProps, Vec<MetaError>>)
        ensures
            if prop_errors(items@).len() == 0 {
                res matches Ok(p) && p.wf() && p.view() == props_of(items@)
            } else {
                res matches Err(e) && e@ == prop_errors(items@)
            },
    {
        let mut values = Attributes::new();
        let mut errors: Vec<MetaError> = Vec::new();
        let mut i: usize = 0;
        while i < items.len()
            invariant
                i <= items.len(),
                values.wf(),
                values.view() == props_of(items@.take(i as int)),
                errors@ == prop_errors(items@.take(i as int)),
            decreases items.len() - i,
        {
            assert(items@.take(i + 1).drop_last() =~= items@.take(i as int));
            match &items[i] {
                NestedItem::Literal => errors.push(MetaError::Unsupported(Format::Literal)),
                NestedItem::Path(_) => errors.push(MetaError::Unsupported(Format::Path)),
                NestedItem::List(_, _) => errors.push(MetaError::Unsupported(Format::List)),
                NestedItem::NameValue(path, value) => {
                    if path.segments.len() != 1 {
                        errors.push(MetaError::Unsupported(Format::Path));
                    } else {
                        match value {
                            MetaLit::Str(v) => {
                                let key = path.segments[0].clone();
                                let _ = values.insert(key, v.clone());
                            },
                            _ => errors.push(MetaError::UnexpectedLiteral),
                        }
                    }
                },
            }
            i = i + 1;
        }
        assert(items@.take(items.len() as int) =~= items@);
        if errors.len() == 0 {
            Ok(AdditionalProps { values })
        } else {
            Err(errors)
        }
    }
}

impl Default for AdditionalProps {
    fn default() -> (res: AdditionalProps)
        ensures
            res.wf(),
            res.view() == Map::<Seq<char>, Seq<char>>::empty(),
    {
        AdditionalProps { values: Attributes::new() }
    }
}

// --- additional invalidities ---

/// The fields of an invalidity variant.
pub enum VariantFields {
    /// `Variant`.
    Unit,
    /// `Variant(Type, ..)`, with the types as written.
    Unnamed(Vec<String>),
}

/// An extra variant of a document's invalidity enum.
pub struct Variant {
    pub ident: String,
    pub fields: VariantFields,
}

/// The errors of the items of a variant's list, in their order: every item
/// that is not a path is an error.
pub open spec fn leaf_errors(leaves: Seq<Leaf>) -> Seq<MetaError>
    decreases leaves.len(),
{
    if leaves.len() == 0 {
        Seq::empty()
    } else {
        let rest = leaf_errors(leaves.drop_last());
        match leaves.last() {
            Leaf::Literal => rest.push(MetaError::Unsupported(Format::Literal)),
            Leaf::List => rest.push(MetaError::Unsupported(Format::List)),
            Leaf::NameValue => rest.push(MetaError::Unsupported(Format::NameValue)),
            Leaf::Path(_) => rest,
        }
    }
}

/// The types of a variant: its path items, as written, in their order.
pub open spec fn leaf_types(leaves: Seq<Leaf>) -> Seq<Seq<char>>
    decreases leaves.len(),
{
    if leaves.len() == 0 {
        Seq::empty()
    } else {
        let rest = leaf_types(leaves.drop_last());
        match leaves.last() {
            Leaf::Path(p) => rest.push(p.text@),
            _ => rest,
        }
    }
}

/// The errors of one item of `validate(...)`.
pub open spec fn invalidity_item_errors(item: NestedItem) -> Seq<MetaError> {
    match item {
        NestedItem::Literal => seq![MetaError::Unsupported(Format::Literal)],
        NestedItem::NameValue(_, _) => seq![MetaError::Unsupported(Format::NameValue)],
        NestedItem::Path(p) => if p.segments@.len() == 1 {
            Seq::empty()
        } else {
            seq![MetaError::Unsupported(Format::Path)]
        },
        NestedItem::List(p, leaves) => if p.segments@.len() == 1 {
            leaf_errors(leaves@)
        } else {
            seq![MetaError::Unsupported(Format::Path)]
        },
    }
}

/// The errors of the items of `validate(...)`, in their order.
pub open spec fn invalidity_errors(items: Seq<NestedItem>) -> Seq<MetaError>
    decreases items.len(),
{
    if items.len() == 0 {
        Seq::empty()
    } else {
        invalidity_errors(items.drop_last()) + invalidity_item_errors(items.last())
    }
}

/// `v` is the variant that the item `item` declares.
pub open spec fn variant_made(v: Variant, item: NestedItem) -> bool {
    match item {
        NestedItem::Path(p) => p.segments@.len() == 1 && v.ident == p.segments@[0] && v.fields is Unit,
        NestedItem::List(p, leaves) => p.segments@.len() == 1 && v.ident == p.segments@[0] && (v.fields matches VariantFields::Unnamed(
            types,
        ) && types@.map_values(|t: String| t@) == leaf_types(leaves@)),
        _ => false,
    }
}

/// Extra variants of a document's invalidity enum.
pub struct AdditionalInvalidities {
    values: Vec<Variant>,
}

impl AdditionalInvalidities {
    /// The variants, in the order they were declared.
    pub closed spec fn view(&self) -> Seq<Variant> {
        self.values@
    }

    /// The variants, in the order they were declared.
    pub fn variants(&self) -> (res: &Vec<Variant>)
        ensures
            res@ == self@,
    {
        &self.values
    }

    /// The variant that a path declares: it must be a single identifier.
    fn from_path_single(path: &MetaPath) -> (res: Result<Variant, MetaError>)
        ensures
            if path.segments@.len() == 1 {
                res matches Ok(v) && v.ident == path.segments@[0] && v.fields is Unit
            } else {
                res matches Err(e) && e == MetaError::Unsupported(Format::Path)
            },
    {
        if path.segments.len() != 1 {
            return Err(MetaError::Unsupported(Format::Path));
        }
        Ok(Variant { ident: path.segments[0].clone(), fields: VariantFields::Unit })
    }

    /// The variant that `path(Type, ..)` declares.
    fn from_list_single(path: &MetaPath, leaves: &Vec<Leaf>) -> (res: Result<Variant, Vec<MetaError>>)
        ensures
            if invalidity_item_errors(NestedItem::List(*path, *leaves)).len() == 0 {
                res matches Ok(v) && variant_made(v, NestedItem::List(*path, *leaves))
            } else {
                res matches Err(e) && e@ == invalidity_item_errors(NestedItem::List(*path, *leaves))
            },
    {
        let ident = match AdditionalInvalidities::from_path_single(path) {
            Ok(v) => v.ident,
            Err(e) => {
                return Err(single(e));
            },
        };
        let mut errors: Vec<MetaError> = Vec::new();
        let mut types: Vec<String> = Vec::new();
        let mut i: usize = 0;
        while i < leaves.len()
            invariant
                i <= leaves.len(),
                errors@ == leaf_errors(leaves@.take(i as int)),
                types@.map_values(|t: String| t@) == leaf_types(leaves@.take(i as int)),
            decreases leaves.len() - i,
        {
            assert(leaves@.take(i + 1).drop_last() =~= leaves@.take(i as int));
            match &leaves[i] {
                Leaf::Literal => errors.push(MetaError::Unsupported(Format::Literal)),
                Leaf::List => errors.push(MetaError::Unsupported(Format::List)),
                Leaf::NameValue => errors.push(MetaError::Unsupported(Format::NameValue)),
                Leaf::Path(p) => {
                    let ghost before = types@;
                    types.push(p.text.clone());
                    assert(types@.map_values(|t: String| t@) =~= before.map_values(|t: String| t@).push(p.text@));
                },
            }
            i = i + 1;
        }
        assert(leaves@.take(leaves.len() as int) =~= leaves@);
        if errors.len() != 0 {
            return Err(errors);
        }
        Ok(Variant { ident, fields: VariantFields::Unnamed(types) })
    }

    /// Reads the variants of `validate(...)`: each item is `Variant` or
    /// `Variant(Type, ..)`.
    fn from_items(items: &Vec<NestedItem>) -> (res: Result<AdditionalInvalidities, Vec<MetaError>>)
        ensures
            if invalidity_errors(items@).len() == 0 {
                res matches Ok(a) && a@.len() == items@.len() && forall|i: int|
                    0 <= i < items@.len() ==> variant_made(#[trigger] a@[i], items@[i])
            } else {
                res matches Err(e) && e@ == invalidity_errors(items@)
            },
    {
        let mut errors: Vec<MetaError> = Vec::new();
        let mut values: Vec<Variant> = Vec::new();
        let mut i: usize = 0;
        while i < items.len()
            invariant
                i <= items.len(),
                errors@ == invalidity_errors(items@.take(i as int)),
                invalidity_errors(items@.take(i as int)).len() == 0 ==> {
                    &&& values@.len() == i
                    &&& forall|k: int| 0 <= k < i ==> variant_made(#[trigger] values@[k], items@[k])
                },
            decreases items.len() - i,
        {
            assert(items@.take(i + 1).drop_last() =~= items@.take(i as int));
            assert(items@.take(i + 1).last() == items@[i as int]);
            match &items[i] {
                NestedItem::Literal => errors.push(MetaError::Unsupported(Format::Literal)),
                NestedItem::NameValue(_, _) => errors.push(MetaError::Unsupported(Format::NameValue)),
                NestedItem::Path(p) => match AdditionalInvalidities::from_path_single(p) {
                    Ok(v) => values.push(v),
                    Err(e) => errors.push(e),
                },
                NestedItem::List(p, leaves) => match AdditionalInvalidities::from_list_single(p, leaves) {
                    Ok(v) => values.push(v),
                    Err(mut es) => errors.append(&mut es),
                },
            }
            i = i + 1;
        }
        assert(items@.take(items.len() as int) =~= items@);
        if errors.len() != 0 {
            return Err(errors);
        }
        Ok(AdditionalInvalidities { values })
    }

    /// Reads `validate(...)` or `validate = Variant`... in the form the
    /// attribute takes: a list of variants, or a single variant's path.
    pub fn from_meta(meta: &Meta) -> (res: Result<AdditionalInvalidities, Vec<MetaError>>)
        ensures
            match meta {
                Meta::NameValue(_, _) => res matches Err(e) && e@ == seq![MetaError::Unsupported(Format::NameValue)],
                Meta::Path(p) => if p.segments@.len() == 1 {
                    res matches Ok(a) && a@.len() == 1 && variant_made(a@[0], NestedItem::Path(*p))
                } else {
                    res matches Err(e) && e@ == seq![MetaError::Unsupported(Format::Path)]
                },
                Meta::List(_, items) => if invalidity_errors(items@).len() == 0 {
                    res matches Ok(a) && a@.len() == items@.len() && forall|i: int|
                        0 <= i < items@.len() ==> variant_made(#[trigger] a@[i], items@[i])
                } else {
                    res matches Err(e) && e@ == invalidity_errors(items@)
                },
            },
    {
        match meta {
            Meta::List(_, items) => AdditionalInvalidities::from_items(items),
            Meta::Path(p) => match AdditionalInvalidities::from_path_single(p) {
                Ok(v) => {
                    let mut values = Vec::new();
                    values.push(v);
                    Ok(AdditionalInvalidities { values })
                },
                Err(e) => Err(single(e)),
            },
            Meta::NameValue(_, _) => Err(single(MetaError::Unsupported(Format::NameValue))),
        }
    }
}

impl Default for AdditionalInvalidities {
    fn default() -> (res: AdditionalInvalidities)
        ensures
            res@.len() == 0,
    {
        AdditionalInvalidities { values: Vec::new() }
    }
}

} // verus!
