//! What the entity and document derives generate for a checked struct,
//! decided here and written out as tokens elsewhere: the constructor, which
//! takes the required fields in order; a builder method per field, which for
//! an `Option<T>` field takes a `T`, stores `Some` and comes with an `unset_`
//! method; and the serialisation proxy, whose fields have their lifetimes
//! renamed and which adds a constant entry per extra JSON property.

use vstd::prelude::*;
use crate::derive_input::{DocumentField, DocumentStruct, EntityField, EntityStruct, Validation};
use crate::meta::AdditionalProps;
use crate::state::order::strictly_sorted;
use crate::types::{
    as_option, as_std_option, core_option, make_lifetimes, option_arg, path_match, relabeled_type, std_option, TypeTree,
};

verus! {

/// A method the derive generates.
pub enum MethodPlan {
    /// `new`, taking the fields at these positions, in order; every other
    /// field starts at its default.
    Constructor(Vec<usize>),
    /// The builder method `method` of the field at `field`. When `inner`, it
    /// takes the `T` of the field's `Option<T>` and stores `Some`; otherwise
    /// it takes the field's type.
    Setter { field: usize, method: String, inner: bool },
    /// The method `method` that sets the `Option` field at `field` to `None`.
    Unset { field: usize, method: String },
}

/// A method plan, with its names as text.
pub enum MethodView {
    Constructor(Seq<usize>),
    Setter(int, Seq<char>, bool),
    Unset(int, Seq<char>),
}

/// The plan with its names as text.
pub open spec fn method_view(m: MethodPlan) -> MethodView {
    match m {
        MethodPlan::Constructor(params) => MethodView::Constructor(params@),
        MethodPlan::Setter { field, method, inner } => MethodView::Setter(field as int, method@, inner),
        MethodPlan::Unset { field, method } => MethodView::Unset(field as int, method@),
    }
}

/// The plans with their names as text.
pub open spec fn method_views(plans: Seq<MethodPlan>) -> Seq<MethodView> {
    plans.map_values(|m: MethodPlan| method_view(m))
}

/// The positions of the fields whose flag is set, in order.
pub open spec fn flagged_positions(flags: Seq<bool>) -> Seq<usize>
    decreases flags.len(),
{
    if flags.len() == 0 {
        Seq::empty()
    } else {
        let rest = flagged_positions(flags.drop_last());
        if flags.last() {
            rest.push((flags.len() - 1) as usize)
        } else {
            rest
        }
    }
}

/// Whether each document field is required.
pub open spec fn document_required(fields: Seq<DocumentField>) -> Seq<bool> {
    fields.map_values(|f: DocumentField| f.required)
}

/// Whether each entity field is required.
pub open spec fn entity_required(fields: Seq<EntityField>) -> Seq<bool> {
    fields.map_values(|f: EntityField| f.required)
}

/// The `T` of a document field's type `Option<T>`, `::std::option::Option<T>`
/// or `::core::option::Option<T>`.
pub open spec fn document_option_inner(ty: TypeTree) -> Option<TypeTree> {
    match ty {
        TypeTree::Path(_, p) => if path_match(p, std_option()) is Some {
            option_arg(p, std_option())
        } else {
            option_arg(p, core_option())
        },
        _ => None,
    }
}

/// The `T` of an entity field's type `Option<T>` or `::std::option::Option<T>`.
pub open spec fn entity_option_inner(ty: TypeTree) -> Option<TypeTree> {
    match ty {
        TypeTree::Path(_, p) => option_arg(p, std_option()),
        _ => None,
    }
}

/// The builder methods of a field at `i` named `name`: a setter, and for an
/// `Option` field also `unset_name`.
pub open spec fn field_builders(i: int, name: Seq<char>, optional: bool) -> Seq<MethodView> {
    if optional {
        seq![MethodView::Setter(i, name, true), MethodView::Unset(i, "unset_"@ + name)]
    } else {
        seq![MethodView::Setter(i, name, false)]
    }
}

/// The builder methods of the document fields, in field order: one set per
/// field whose builder is enabled, named as the builder is renamed, or else
/// like the field.
pub open spec fn document_builder_views(fields: Seq<DocumentField>) -> Seq<MethodView>
    decreases fields.len(),
{
    if fields.len() == 0 {
        Seq::empty()
    } else {
        let rest = document_builder_views(fields.drop_last());
        let f = fields.last();
        if f.builder.enabled {
            let name = match f.builder.rename {
                Some(r) => r@,
                None => f.ident@,
            };
            rest + field_builders(fields.len() - 1, name, document_option_inner(f.ty) is Some)
        } else {
            rest
        }
    }
}

/// The builder methods of the entity fields, in field order: one set per
/// field, named like the field.
pub open spec fn entity_builder_views(fields: Seq<EntityField>) -> Seq<MethodView>
    decreases fields.len(),
{
    if fields.len() == 0 {
        Seq::empty()
    } else {
        entity_builder_views(fields.drop_last()) + field_builders(
            fields.len() - 1,
            fields.last().ident@,
            entity_option_inner(fields.last().ty) is Some,
        )
    }
}

/// The positions of the fields whose flag is set.
fn positions(flags: &Vec<bool>) -> (res: Vec<usize>)
    ensures
        res@ == flagged_positions(flags@),
{
    let mut res: Vec<usize> = Vec::new();
    let mut i: usize = 0;
    while i < flags.len()
        invariant
            i <= flags.len(),
            res@ == flagged_positions(flags@.take(i as int)),
        decreases flags.len() - i,
    {
        assert(flags@.take(i + 1).drop_last() =~= flags@.take(i as int));
        if flags[i] {
            res.push(i);
        }
        i = i + 1;
    }
    assert(flags@.take(flags.len() as int) =~= flags@);
    res
}

/// `unset_` followed by `name`.
fn unset_name(name: &String) -> (res: String)
    ensures
        res@ == "unset_"@ + name@,
{
    let s = "unset_".to_owned();
    s.concat(name.as_str())
}

/// Appends the builder methods of the field at `i` named `name`.
fn push_builders(plans: &mut Vec<MethodPlan>, i: usize, name: &String, optional: bool)
    ensures
        method_views(final(plans)@) == method_views(old(plans)@) + field_builders(i as int, name@, optional),
{
    let ghost before = plans@;
    plans.push(MethodPlan::Setter { field: i, method: name.clone(), inner: optional });
    if optional {
        plans.push(MethodPlan::Unset { field: i, method: unset_name(name) });
    }
    assert(method_views(plans@) =~= method_views(before) + field_builders(i as int, name@, optional));
}

/// The methods a document derive generates: the constructor, then the
/// builder methods of each field whose builder is enabled.
pub fn document_methods(s: &DocumentStruct) -> (res: Vec<MethodPlan>)
    requires
        forall|i: int|
            0 <= i < s.fields@.len() && (#[trigger] s.fields@[i]).builder.enabled ==> s.fields@[i].ty is Path,
    ensures
        method_views(res@) == seq![MethodView::Constructor(flagged_positions(document_required(s.fields@)))]
            + document_builder_views(s.fields@),
{
    let mut flags: Vec<bool> = Vec::new();
    let mut i: usize = 0;
    while i < s.fields.len()
        invariant
            i <= s.fields.len(),
            flags@ == document_required(s.fields@.take(i as int)),
        decreases s.fields.len() - i,
    {
        flags.push(s.fields[i].required);
        i = i + 1;
        assert(flags@ =~= document_required(s.fields@.take(i as int)));
    }
    assert(s.fields@.take(s.fields.len() as int) =~= s.fields@);
    let mut plans: Vec<MethodPlan> = Vec::new();
    plans.push(MethodPlan::Constructor(positions(&flags)));
    let ghost head = method_views(plans@);
    let mut i: usize = 0;
    while i < s.fields.len()
        invariant
            i <= s.fields.len(),
            forall|k: int|
                0 <= k < s.fields@.len() && (#[trigger] s.fields@[k]).builder.enabled ==> s.fields@[k].ty is Path,
            method_views(plans@) == head + document_builder_views(s.fields@.take(i as int)),
        decreases s.fields.len() - i,
    {
        let f = &s.fields[i];
        assert(s.fields@.take(i + 1).drop_last() =~= s.fields@.take(i as int));
        assert(s.fields@.take(i + 1).last() == s.fields@[i as int]);
        if f.builder.enabled {
            let optional = match &f.ty {
                TypeTree::Path(_, p) => as_option(p).is_some(),
                _ => false,
            };
            let name = match &f.builder.rename {
                Some(r) => r.clone(),
                None => f.ident.clone(),
            };
            push_builders(&mut plans, i, &name, optional);
            assert(head + document_builder_views(s.fields@.take(i + 1)) =~= head + document_builder_views(
                s.fields@.take(i as int),
            ) + field_builders(i as int, name@, optional));
        }
        i = i + 1;
    }
    assert(s.fields@.take(s.fields.len() as int) =~= s.fields@);
    plans
}

/// The methods an entity derive generates: the constructor, then the builder
/// methods of every field.
pub fn entity_methods(s: &EntityStruct) -> (res: Vec<MethodPlan>)
    requires
        forall|i: int| 0 <= i < s.fields@.len() ==> (#[trigger] s.fields@[i]).ty is Path,
    ensures
        method_views(res@) == seq![MethodView::Constructor(flagged_positions(entity_required(s.fields@)))]
            + entity_builder_views(s.fields@),
{
    let mut flags: Vec<bool> = Vec::new();
    let mut i: usize = 0;
    while i < s.fields.len()
        invariant
            i <= s.fields.len(),
            flags@ == entity_required(s.fields@.take(i as int)),
        decreases s.fields.len() - i,
    {
        flags.push(s.fields[i].required);
        i = i + 1;
        assert(flags@ =~= entity_required(s.fields@.take(i as int)));
    }
    assert(s.fields@.take(s.fields.len() as int) =~= s.fields@);
    let mut plans: Vec<MethodPlan> = Vec::new();
    plans.push(MethodPlan::Constructor(positions(&flags)));
    let ghost head = method_views(plans@);
    let mut i: usize = 0;
    while i < s.fields.len()
        invariant
            i <= s.fields.len(),
            method_views(plans@) == head + entity_builder_views(s.fields@.take(i as int)),
        decreases s.fields.len() - i,
    {
        let f = &s.fields[i];
        assert(s.fields@.take(i + 1).drop_last() =~= s.fields@.take(i as int));
        assert(s.fields@.take(i + 1).last() == s.fields@[i as int]);
        let optional = match &f.ty {
            TypeTree::Path(_, p) => as_std_option(p).is_some(),
            _ => false,
        };
        push_builders(&mut plans, i, &f.ident, optional);
        assert(head + entity_builder_views(s.fields@.take(i + 1)) =~= head + entity_builder_views(
            s.fields@.take(i as int),
        ) + field_builders(i as int, f.ident@, optional));
        i = i + 1;
    }
    assert(s.fields@.take(s.fields.len() as int) =~= s.fields@);
    plans
}

/// What the serialisation of a document goes through: a proxy with a
/// reference to each field, typed with the field's type whose lifetimes are
/// all named `b`, and a constant entry per extra JSON property.
pub struct SerdePlan {
    /// The proxy's field types, in field order.
    pub fields: Vec<TypeTree>,
    /// The constant entries, `(name, value)`, in name order.
    pub extra: Vec<(String, String)>,
}

/// `extra` are the entries of `props`, in increasing name order.
pub open spec fn sorted_entries_of(extra: Seq<(String, String)>, props: AdditionalProps) -> bool {
    &&& extra.len() == props.view().dom().len()
    &&& strictly_sorted(extra.map_values(|e: (String, String)| e.0@))
    &&& forall|i: int|
        0 <= i < extra.len() ==> {
            &&& props.view().dom().contains(#[trigger] extra[i].0@)
            &&& props.view()[extra[i].0@] == extra[i].1@
        }
    &&& forall|k: Seq<char>|
        #[trigger] props.view().dom().contains(k) ==> exists|i: int| 0 <= i < extra.len() && extra[i].0@ == k
}

/// The serialisation proxy of a document.
pub fn serde_plan(s: &DocumentStruct) -> (res: SerdePlan)
    requires
        s.additional_props matches Some(p) ==> p.wf(),
    ensures
        res.fields@.len() == s.fields@.len(),
        forall|i: int| 0 <= i < s.fields@.len() ==> relabeled_type(#[trigger] res.fields@[i], s.fields@[i].ty, "b"@),
        match s.additional_props {
            Some(p) => sorted_entries_of(res.extra@, p),
            None => res.extra@.len() == 0,
        },
{
    let lifetime = "b".to_owned();
    let mut fields: Vec<TypeTree> = Vec::new();
    let mut i: usize = 0;
    while i < s.fields.len()
        invariant
            i <= s.fields.len(),
            lifetime@ == "b"@,
            fields@.len() == i,
            forall|k: int| 0 <= k < i ==> relabeled_type(#[trigger] fields@[k], s.fields@[k].ty, "b"@),
        decreases s.fields.len() - i,
    {
        fields.push(make_lifetimes(&s.fields[i].ty, &lifetime));
        i = i + 1;
    }
    let mut extra: Vec<(String, String)> = Vec::new();
    match &s.additional_props {
        Some(p) => {
            let entries = p.props();
            let mut k: usize = 0;
            while k < entries.len()
                invariant
                    k <= entries.len(),
                    extra@.len() == k,
                    forall|j: int| 0 <= j < k ==> (#[trigger] extra@[j]).0@ == entries@[j].0@ && extra@[j].1@ == entries@[j].1@,
                decreases entries.len() - k,
            {
                let (name, value) = &entries[k];
                extra.push((name.clone(), value.clone()));
                k = k + 1;
            }
            assert(extra@.map_values(|e: (String, String)| e.0@) =~= entries@.map_values(|e: (String, String)| e.0@));
            assert forall|j: int| 0 <= j < extra@.len() implies {
                &&& p.view().dom().contains(#[trigger] extra@[j].0@)
                &&& p.view()[extra@[j].0@] == extra@[j].1@
            } by {
                assert(p.view().dom().contains(entries@[j].0@));
            }
            assert forall|key: Seq<char>| #[trigger] p.view().dom().contains(key) implies exists|j: int|
                0 <= j < extra@.len() && extra@[j].0@ == key by {
                let j = choose|j: int| 0 <= j < entries@.len() && entries@[j].0@ == key;
                assert(extra@[j].0@ == key);
            }
        },
        None => {},
    }
    SerdePlan { fields, extra }
}

/// The proxy field types of an entity's serialisation: each field's type with
/// its lifetimes all named `b`, in field order.
pub fn entity_proxy_fields(s: &EntityStruct) -> (res: Vec<TypeTree>)
    ensures
        res@.len() == s.fields@.len(),
        forall|i: int| 0 <= i < s.fields@.len() ==> relabeled_type(#[trigger] res@[i], s.fields@[i].ty, "b"@),
{
    let lifetime = "b".to_owned();
    let mut fields: Vec<TypeTree> = Vec::new();
    let mut i: usize = 0;
    while i < s.fields.len()
        invariant
            i <= s.fields.len(),
            lifetime@ == "b"@,
            fields@.len() == i,
            forall|k: int| 0 <= k < i ==> relabeled_type(#[trigger] fields@[k], s.fields@[k].ty, "b"@),
        decreases s.fields.len() - i,
    {
        fields.push(make_lifetimes(&s.fields[i].ty, &lifetime));
        i = i + 1;
    }
    fields
}

/// One check of a document's validation: the field at `field` is validated
/// and its invalidity is reported as the variant `variant`.
pub struct CheckPlan {
    pub field: usize,
    pub variant: String,
    /// The path of the validator function, where the field is not validated
    /// with its type's own validation.
    pub with: Option<String>,
}

/// A check, with its names as text.
pub open spec fn check_view(c: CheckPlan) -> (int, Seq<char>, Option<Seq<char>>) {
    (c.field as int, c.variant@, match c.with {
        Some(p) => Some(p@),
        None => None,
    })
}

/// The checks of a document's validation: one per validated field, in field
/// order; these fields are also the ones with a variant in the invalidity enum.
pub open spec fn document_check_list(fields: Seq<DocumentField>) -> Seq<(int, Seq<char>, Option<Seq<char>>)>
    decreases fields.len(),
{
    if fields.len() == 0 {
        Seq::empty()
    } else {
        let rest = document_check_list(fields.drop_last());
        let f = fields.last();
        match f.validate {
            Validation::Disabled => rest,
            Validation::Default => rest.push((fields.len() - 1, f.variant_ident@, None)),
            Validation::With(p) => rest.push((fields.len() - 1, f.variant_ident@, Some(p@))),
        }
    }
}

/// The checks of an entity's validation: the position and variant of each
/// validated field, in field order.
pub open spec fn entity_check_list(fields: Seq<EntityField>) -> Seq<(int, Seq<char>)>
    decreases fields.len(),
{
    if fields.len() == 0 {
        Seq::empty()
    } else {
        let rest = entity_check_list(fields.drop_last());
        if fields.last().validate {
            rest.push((fields.len() - 1, fields.last().variant_ident@))
        } else {
            rest
        }
    }
}

/// The checks a document derive generates, in field order.
pub fn document_checks(s: &DocumentStruct) -> (res: Vec<CheckPlan>)
    ensures
        res@.map_values(|c: CheckPlan| check_view(c)) == document_check_list(s.fields@),
{
    let mut res: Vec<CheckPlan> = Vec::new();
    let mut i: usize = 0;
    while i < s.fields.len()
        invariant
            i <= s.fields.len(),
            res@.map_values(|c: CheckPlan| check_view(c)) == document_check_list(s.fields@.take(i as int)),
        decreases s.fields.len() - i,
    {
        assert(s.fields@.take(i + 1).drop_last() =~= s.fields@.take(i as int));
        assert(s.fields@.take(i + 1).last() == s.fields@[i as int]);
        let ghost before = res@;
        let f = &s.fields[i];
        let with = match &f.validate {
            Validation::Disabled => {
                i = i + 1;
                continue;
            },
            Validation::Default => None,
            Validation::With(p) => Some(p.clone()),
        };
        res.push(CheckPlan { field: i, variant: f.variant_ident.clone(), with });
        assert(res@.map_values(|c: CheckPlan| check_view(c)) =~= before.map_values(|c: CheckPlan| check_view(c)).push(
            check_view(res@.last()),
        ));
        i = i + 1;
    }
    assert(s.fields@.take(s.fields.len() as int) =~= s.fields@);
    res
}

/// The checks an entity derive generates: the position and variant of each
/// validated field, in field order.
pub fn entity_checks(s: &EntityStruct) -> (res: Vec<(usize, String)>)
    ensures
        res@.map_values(|c: (usize, String)| (c.0 as int, c.1@)) == entity_check_list(s.fields@),
{
    let mut res: Vec<(usize, String)> = Vec::new();
    let mut i: usize = 0;
    while i < s.fields.len()
        invariant
            i <= s.fields.len(),
            res@.map_values(|c: (usize, String)| (c.0 as int, c.1@)) == entity_check_list(s.fields@.take(i as int)),
        decreases s.fields.len() - i,
    {
        assert(s.fields@.take(i + 1).drop_last() =~= s.fields@.take(i as int));
        assert(s.fields@.take(i + 1).last() == s.fields@[i as int]);
        let ghost before = res@;
        if s.fields[i].validate {
            res.push((i, s.fields[i].variant_ident.clone()));
            assert(res@.map_values(|c: (usize, String)| (c.0 as int, c.1@)) =~= before.map_values(
                |c: (usize, String)| (c.0 as int, c.1@),
            ).push((i as int, s.fields@[i as int].variant_ident@)));
        }
        i = i + 1;
    }
    assert(s.fields@.take(s.fields.len() as int) =~= s.fields@);
    res
}

} // verus!
