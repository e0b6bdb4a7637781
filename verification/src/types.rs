//! Rust types as the derives see them, and what the derives do with them.
//!
//! A field type written `Option<T>` is recognised by its path: `Option`
//! alone, or the full path from the crate root (`::std::option::Option`, and
//! for documents also `::core::option::Option`).
//!
//! Every lifetime in a type can be given one name, such as `'static`: in
//! references, in the generic arguments of path segments (also inside
//! associated types), and inside qualified-self types, tuples, arrays,
//! slices and grouped types. Lifetime bounds of constraints are dropped.
//! Other types (function pointers, trait objects, `impl` types, ...) are
//! left as they are.

use vstd::prelude::*;
use crate::discovery::strings::str_equal;

verus! {

/// A type, as far as its lifetimes are concerned.
pub enum TypeTree {
    /// `[elem; len]`, with the length as written.
    Array(Box<TypeTree>, String),
    /// A type in an invisible group.
    Group(Box<TypeTree>),
    /// `(elem)`.
    Paren(Box<TypeTree>),
    /// `[elem]`.
    Slice(Box<TypeTree>),
    /// `&'lifetime mut elem`: the lifetime's name (without the quote), if
    /// any, and whether it is mutable.
    Reference(Option<String>, bool, Box<TypeTree>),
    /// `(elems, ..)`.
    Tuple(Vec<TypeTree>),
    /// `<qself as ..>::path` or `path`.
    Path(Option<QSelfTree>, PathTree),
    /// Any other type, as written.
    Other(String),
}

/// The qualified self of a path: `<ty as Trait>::..`.
pub struct QSelfTree {
    pub ty: Box<TypeTree>,
    /// How many segments of the path belong to the trait.
    pub position: usize,
}

/// A path.
pub struct PathTree {
    pub leading_colon: bool,
    pub segments: Vec<SegmentTree>,
}

/// A segment of a path.
pub struct SegmentTree {
    pub ident: String,
    pub args: ArgsTree,
}

/// The arguments of a path segment.
pub enum ArgsTree {
    Empty,
    /// `<args, ..>`.
    AngleBracketed(Vec<ArgTree>),
    /// `(inputs) -> output`, as written.
    Parenthesized(String),
}

/// A generic argument.
pub enum ArgTree {
    /// A lifetime's name, without the quote.
    Lifetime(String),
    Type(TypeTree),
    /// `Name = Type`.
    AssocType(String, TypeTree),
    /// `Name: Bounds`.
    Constraint(String, Vec<BoundTree>),
    /// A constant or another argument, as written.
    Other(String),
}

/// A bound of a constraint.
pub enum BoundTree {
    /// A lifetime's name.
    Lifetime(String),
    /// A trait bound, as written.
    Trait(String),
}


// --- recognising `Option<T>` ---

/// The segment whose arguments count when `path` names the item with the
/// full path `names`: the single segment when the path is the item's name
/// alone, the last one when the path is the full path from the root.
pub open spec fn path_match(path: PathTree, names: Seq<Seq<char>>) -> Option<int> {
    if path.segments@.len() == 1 && path.segments@[0].ident@ == names.last() {
        Some(0)
    } else if path.leading_colon && path.segments@.len() == names.len() && forall|i: int|
        0 <= i < names.len() ==> (#[trigger] path.segments@[i]).ident@ == names[i] {
        Some(names.len() - 1)
    } else {
        None
    }
}

/// The type argument of `Option<T>`, when the arguments are exactly one type.
pub open spec fn single_type_arg(args: ArgsTree) -> Option<TypeTree> {
    match args {
        ArgsTree::AngleBracketed(a) => if a@.len() == 1 {
            match a@[0] {
                ArgTree::Type(t) => Some(t),
                _ => None,
            }
        } else {
            None
        },
        _ => None,
    }
}

/// `std::option::Option`.
pub open spec fn std_option() -> Seq<Seq<char>> {
    seq!["std"@, "option"@, "Option"@]
}

/// `core::option::Option`.
pub open spec fn core_option() -> Seq<Seq<char>> {
    seq!["core"@, "option"@, "Option"@]
}

/// The `T` of `Option<T>` named by the full path `names`, if `path` is one.
pub open spec fn option_arg(path: PathTree, names: Seq<Seq<char>>) -> Option<TypeTree> {
    match path_match(path, names) {
        Some(i) => single_type_arg(path.segments@[i].args),
        None => None,
    }
}

/// The arguments of the segment that counts when `path` names the item with
/// the full path `names`.
pub fn match_path<'p>(path: &'p PathTree, names: &Vec<&str>) -> (res: Option<&'p ArgsTree>)
    requires
        names@.len() > 0,
    ensures
        match path_match(*path, names@.map_values(|n: &str| n@)) {
            Some(i) => res matches Some(a) && *a == path.segments@[i].args,
            None => res is None,
        },
{
    let ghost spec_names = names@.map_values(|n: &str| n@);
    let n = names.len();
    if path.segments.len() == 1 && str_equal(path.segments[0].ident.as_str(), names[n - 1]) {
        return Some(&path.segments[0].args);
    }
    if !path.leading_colon || path.segments.len() != n {
        return None;
    }
    let mut i: usize = 0;
    while i < n
        invariant
            n == names@.len(),
            n == path.segments@.len(),
            spec_names == names@.map_values(|n: &str| n@),
            i <= n,
            forall|k: int| 0 <= k < i ==> (#[trigger] path.segments@[k]).ident@ == spec_names[k],
        decreases n - i,
    {
        if !str_equal(path.segments[i].ident.as_str(), names[i]) {
            assert(path.segments@[i as int].ident@ != spec_names[i as int]);
            return None;
        }
        i = i + 1;
    }
    Some(&path.segments[n - 1].args)
}

/// The names of `std::option::Option` or `core::option::Option`.
fn option_names(root: &'static str) -> (res: Vec<&'static str>)
    ensures
        res@.len() == 3,
        res@.map_values(|n: &str| n@) == seq![root@, "option"@, "Option"@],
{
    let mut v = Vec::new();
    v.push(root);
    v.push("option");
    v.push("Option");
    assert(v@.map_values(|n: &str| n@) =~= seq![root@, "option"@, "Option"@]);
    v
}

/// The inner type of the arguments, when they are exactly one type.
fn single_type(args: &ArgsTree) -> (res: Option<&TypeTree>)
    ensures
        match single_type_arg(*args) {
            Some(t) => res matches Some(r) && *r == t,
            None => res is None,
        },
{
    match args {
        ArgsTree::AngleBracketed(a) => {
            if a.len() == 1 {
                match &a[0] {
                    ArgTree::Type(t) => Some(t),
                    _ => None,
                }
            } else {
                None
            }
        },
        _ => None,
    }
}

/// The `T` of an entity field's type `Option<T>` or `::std::option::Option<T>`.
pub fn as_std_option(path: &PathTree) -> (res: Option<&TypeTree>)
    ensures
        match option_arg(*path, std_option()) {
            Some(t) => res matches Some(r) && *r == t,
            None => res is None,
        },
{
    let std_names = option_names("std");
    match match_path(path, &std_names) {
        Some(args) => single_type(args),
        None => None,
    }
}

/// The `T` of a document field's type `Option<T>`, `::std::option::Option<T>`
/// or `::core::option::Option<T>`.
pub fn as_option(path: &PathTree) -> (res: Option<&TypeTree>)
    ensures
        match path_match(*path, std_option()) {
            Some(_) => match option_arg(*path, std_option()) {
                Some(t) => res matches Some(r) && *r == t,
                None => res is None,
            },
            None => match option_arg(*path, core_option()) {
                Some(t) => res matches Some(r) && *r == t,
                None => res is None,
            },
        },
{
    let std_names = option_names("std");
    let args = match match_path(path, &std_names) {
        Some(args) => Some(args),
        None => {
            let core_names = option_names("core");
            match_path(path, &core_names)
        },
    };
    match args {
        Some(args) => single_type(args),
        None => None,
    }
}

// --- giving lifetimes one name ---

/// `out` is `inp` with every lifetime named `l`.
pub open spec fn relabeled_type(out: TypeTree, inp: TypeTree, l: Seq<char>) -> bool
    decreases inp,
{
    match inp {
        TypeTree::Array(e, len) => out matches TypeTree::Array(oe, olen) && olen == len && relabeled_type(*oe, *e, l),
        TypeTree::Group(e) => out matches TypeTree::Group(oe) && relabeled_type(*oe, *e, l),
        TypeTree::Paren(e) => out matches TypeTree::Paren(oe) && relabeled_type(*oe, *e, l),
        TypeTree::Slice(e) => out matches TypeTree::Slice(oe) && relabeled_type(*oe, *e, l),
        TypeTree::Reference(lt, m, e) => out matches TypeTree::Reference(olt, om, oe) && om == m && (match lt {
            Some(_) => olt matches Some(x) && x@ == l,
            None => olt is None,
        }) && relabeled_type(*oe, *e, l),
        TypeTree::Tuple(es) => out matches TypeTree::Tuple(oes) && relabeled_types(oes@, es@, l),
        TypeTree::Path(q, p) => out matches TypeTree::Path(oq, op) && (match q {
            Some(qs) => oq matches Some(oqs) && oqs.position == qs.position && relabeled_type(*oqs.ty, *qs.ty, l),
            None => oq is None,
        }) && relabeled_path(op, p, l),
        TypeTree::Other(_) => out == inp,
    }
}

/// Each of `outs` is the one of `ins` at its place, relabeled.
pub open spec fn relabeled_types(outs: Seq<TypeTree>, ins: Seq<TypeTree>, l: Seq<char>) -> bool
    decreases ins,
{
    outs.len() == ins.len() && (ins.len() == 0 || (relabeled_types(outs.drop_last(), ins.drop_last(), l)
        && relabeled_type(outs.last(), ins.last(), l)))
}

/// `out` is the path `inp` with every lifetime named `l`.
pub open spec fn relabeled_path(out: PathTree, inp: PathTree, l: Seq<char>) -> bool
    decreases inp,
{
    out.leading_colon == inp.leading_colon && relabeled_segments(out.segments@, inp.segments@, l)
}

/// Each of `outs` is the segment of `ins` at its place, relabeled.
pub open spec fn relabeled_segments(outs: Seq<SegmentTree>, ins: Seq<SegmentTree>, l: Seq<char>) -> bool
    decreases ins,
{
    outs.len() == ins.len() && (ins.len() == 0 || (relabeled_segments(outs.drop_last(), ins.drop_last(), l)
        && relabeled_segment(outs.last(), ins.last(), l)))
}

/// `out` is the segment `inp` with every lifetime named `l`.
pub open spec fn relabeled_segment(out: SegmentTree, inp: SegmentTree, l: Seq<char>) -> bool
    decreases inp,
{
    out.ident == inp.ident && relabeled_args(out.args, inp.args, l)
}

/// `out` is the segment arguments `inp` with every lifetime named `l`.
pub open spec fn relabeled_args(out: ArgsTree, inp: ArgsTree, l: Seq<char>) -> bool
    decreases inp,
{
    match inp {
        ArgsTree::AngleBracketed(args) => out matches ArgsTree::AngleBracketed(oargs) && relabeled_arg_seq(oargs@, args@, l),
        _ => out == inp,
    }
}

/// Each of `outs` is the argument of `ins` at its place, relabeled.
pub open spec fn relabeled_arg_seq(outs: Seq<ArgTree>, ins: Seq<ArgTree>, l: Seq<char>) -> bool
    decreases ins,
{
    outs.len() == ins.len() && (ins.len() == 0 || (relabeled_arg_seq(outs.drop_last(), ins.drop_last(), l)
        && relabeled_arg(outs.last(), ins.last(), l)))
}

/// `out` is the generic argument `inp` with every lifetime named `l`, and
/// without the lifetime bounds of a constraint.
pub open spec fn relabeled_arg(out: ArgTree, inp: ArgTree, l: Seq<char>) -> bool
    decreases inp,
{
    match inp {
        ArgTree::Lifetime(_) => out matches ArgTree::Lifetime(x) && x@ == l,
        ArgTree::Type(t) => out matches ArgTree::Type(ot) && relabeled_type(ot, t, l),
        ArgTree::AssocType(n, t) => out matches ArgTree::AssocType(on, ot) && on == n && relabeled_type(ot, t, l),
        ArgTree::Constraint(n, bounds) => out matches ArgTree::Constraint(on, obounds) && on == n && obounds@ == trait_bounds(bounds@),
        ArgTree::Other(_) => out == inp,
    }
}

/// The bounds that are not lifetimes, in their order.
pub open spec fn trait_bounds(bounds: Seq<BoundTree>) -> Seq<BoundTree>
    decreases bounds.len(),
{
    if bounds.len() == 0 {
        Seq::empty()
    } else {
        let rest = trait_bounds(bounds.drop_last());
        match bounds.last() {
            BoundTree::Lifetime(_) => rest,
            BoundTree::Trait(_) => rest.push(bounds.last()),
        }
    }
}

/// `t` with every lifetime named `l`.
pub fn make_lifetimes(t: &TypeTree, l: &String) -> (res: TypeTree)
    ensures
        relabeled_type(res, *t, l@),
    decreases t,
{
    match t {
        TypeTree::Array(e, len) => TypeTree::Array(Box::new(make_lifetimes(e, l)), len.clone()),
        TypeTree::Group(e) => TypeTree::Group(Box::new(make_lifetimes(e, l))),
        TypeTree::Paren(e) => TypeTree::Paren(Box::new(make_lifetimes(e, l))),
        TypeTree::Slice(e) => TypeTree::Slice(Box::new(make_lifetimes(e, l))),
        TypeTree::Reference(lt, m, e) => {
            let olt = match lt {
                Some(_) => Some(l.clone()),
                None => None,
            };
            TypeTree::Reference(olt, *m, Box::new(make_lifetimes(e, l)))
        },
        TypeTree::Tuple(es) => TypeTree::Tuple(relabel_types(es, l)),
        TypeTree::Path(q, p) => {
            let oq = match q {
                Some(qs) => Some(QSelfTree { ty: Box::new(make_lifetimes(&qs.ty, l)), position: qs.position }),
                None => None,
            };
            TypeTree::Path(oq, relabel_path(p, l))
        },
        TypeTree::Other(text) => TypeTree::Other(text.clone()),
    }
}

/// Each of `ts` with every lifetime named `l`.
fn relabel_types(ts: &Vec<TypeTree>, l: &String) -> (res: Vec<TypeTree>)
    ensures
        relabeled_types(res@, ts@, l@),
    decreases ts,
{
    let mut res: Vec<TypeTree> = Vec::new();
    let mut i: usize = 0;
    while i < ts.len()
        invariant
            i <= ts.len(),
            relabeled_types(res@, ts@.take(i as int), l@),
        decreases ts.len() - i,
    {
        let t = make_lifetimes(&ts[i], l);
        let ghost before = res@;
        res.push(t);
        assert(ts@.take(i + 1).drop_last() =~= ts@.take(i as int));
        assert(res@.drop_last() =~= before);
        i = i + 1;
    }
    assert(ts@.take(ts.len() as int) =~= ts@);
    res
}

/// The path `p` with every lifetime named `l`.
fn relabel_path(p: &PathTree, l: &String) -> (res: PathTree)
    ensures
        relabeled_path(res, *p, l@),
    decreases p,
{
    let mut segments: Vec<SegmentTree> = Vec::new();
    let mut i: usize = 0;
    while i < p.segments.len()
        invariant
            i <= p.segments.len(),
            relabeled_segments(segments@, p.segments@.take(i as int), l@),
        decreases p.segments.len() - i,
    {
        let s = relabel_segment(&p.segments[i], l);
        let ghost before = segments@;
        segments.push(s);
        assert(p.segments@.take(i + 1).drop_last() =~= p.segments@.take(i as int));
        assert(segments@.drop_last() =~= before);
        i = i + 1;
    }
    assert(p.segments@.take(p.segments.len() as int) =~= p.segments@);
    PathTree { leading_colon: p.leading_colon, segments }
}

/// The segment `s` with every lifetime named `l`.
fn relabel_segment(s: &SegmentTree, l: &String) -> (res: SegmentTree)
    ensures
        relabeled_segment(res, *s, l@),
    decreases s,
{
    let args = match &s.args {
        ArgsTree::Empty => ArgsTree::Empty,
        ArgsTree::Parenthesized(text) => ArgsTree::Parenthesized(text.clone()),
        ArgsTree::AngleBracketed(args) => ArgsTree::AngleBracketed(relabel_args(args, l)),
    };
    SegmentTree { ident: s.ident.clone(), args }
}

/// Each of the generic arguments `args` with every lifetime named `l`.
fn relabel_args(args: &Vec<ArgTree>, l: &String) -> (res: Vec<ArgTree>)
    ensures
        relabeled_arg_seq(res@, args@, l@),
    decreases args,
{
    let mut res: Vec<ArgTree> = Vec::new();
    let mut i: usize = 0;
    while i < args.len()
        invariant
            i <= args.len(),
            relabeled_arg_seq(res@, args@.take(i as int), l@),
        decreases args.len() - i,
    {
        let a = match &args[i] {
            ArgTree::Lifetime(_) => ArgTree::Lifetime(l.clone()),
            ArgTree::Type(t) => ArgTree::Type(make_lifetimes(t, l)),
            ArgTree::AssocType(n, t) => ArgTree::AssocType(n.clone(), make_lifetimes(t, l)),
            ArgTree::Constraint(n, bounds) => ArgTree::Constraint(n.clone(), without_lifetimes(bounds)),
            ArgTree::Other(text) => ArgTree::Other(text.clone()),
        };
        assert(relabeled_arg(a, args@[i as int], l@));
        let ghost before = res@;
        res.push(a);
        assert(args@.take(i + 1).drop_last() =~= args@.take(i as int));
        assert(args@.take(i + 1).last() == args@[i as int]);
        assert(res@.drop_last() =~= before);
        i = i + 1;
    }
    assert(args@.take(args.len() as int) =~= args@);
    res
}

/// The bounds that are not lifetimes.
fn without_lifetimes(bounds: &Vec<BoundTree>) -> (res: Vec<BoundTree>)
    ensures
        res@ == trait_bounds(bounds@),
{
    let mut res: Vec<BoundTree> = Vec::new();
    let mut i: usize = 0;
    while i < bounds.len()
        invariant
            i <= bounds.len(),
            res@ == trait_bounds(bounds@.take(i as int)),
        decreases bounds.len() - i,
    {
        assert(bounds@.take(i + 1).drop_last() =~= bounds@.take(i as int));
        match &bounds[i] {
            BoundTree::Lifetime(_) => {},
            BoundTree::Trait(text) => res.push(BoundTree::Trait(text.clone())),
        }
        i = i + 1;
    }
    assert(bounds@.take(bounds.len() as int) =~= bounds@);
    res
}

/// `t` with every lifetime made `'static`.
pub fn make_lifetimes_static(t: &TypeTree) -> (res: TypeTree)
    ensures
        relabeled_type(res, *t, "static"@),
{
    let l = "static".to_owned();
    make_lifetimes(t, &l)
}

/// Dropping lifetime bounds twice drops nothing more.
proof fn lemma_trait_bounds_idempotent(bounds: Seq<BoundTree>)
    ensures
        trait_bounds(trait_bounds(bounds)) == trait_bounds(bounds),
    decreases bounds.len(),
{
    if bounds.len() > 0 {
        lemma_trait_bounds_idempotent(bounds.drop_last());
        let rest = trait_bounds(bounds.drop_last());
        if let BoundTree::Trait(_) = bounds.last() {
            let pushed = rest.push(bounds.last());
            assert(pushed.drop_last() =~= rest);
        }
    }
}

proof fn lemma_relabel_type_twice(b: TypeTree, a: TypeTree, t: TypeTree, l: Seq<char>)
    requires
        relabeled_type(a, t, l),
        relabeled_type(b, a, l),
    ensures
        relabeled_type(b, t, l),
    decreases t,
{
    match t {
        TypeTree::Array(e, _) => lemma_relabel_type_twice(*b->Array_0, *a->Array_0, *e, l),
        TypeTree::Group(e) => lemma_relabel_type_twice(*b->Group_0, *a->Group_0, *e, l),
        TypeTree::Paren(e) => lemma_relabel_type_twice(*b->Paren_0, *a->Paren_0, *e, l),
        TypeTree::Slice(e) => lemma_relabel_type_twice(*b->Slice_0, *a->Slice_0, *e, l),
        TypeTree::Reference(_, _, e) => lemma_relabel_type_twice(*b->Reference_2, *a->Reference_2, *e, l),
        TypeTree::Tuple(es) => lemma_relabel_types_twice(b->Tuple_0@, a->Tuple_0@, es@, l),
        TypeTree::Path(q, p) => {
            if let Some(qs) = q {
                lemma_relabel_type_twice(*b->Path_0.unwrap().ty, *a->Path_0.unwrap().ty, *qs.ty, l);
            }
            lemma_relabel_path_twice(b->Path_1, a->Path_1, p, l);
        },
        TypeTree::Other(_) => {},
    }
}

proof fn lemma_relabel_types_twice(b: Seq<TypeTree>, a: Seq<TypeTree>, t: Seq<TypeTree>, l: Seq<char>)
    requires
        relabeled_types(a, t, l),
        relabeled_types(b, a, l),
    ensures
        relabeled_types(b, t, l),
    decreases t,
{
    if t.len() > 0 {
        lemma_relabel_types_twice(b.drop_last(), a.drop_last(), t.drop_last(), l);
        lemma_relabel_type_twice(b.last(), a.last(), t.last(), l);
    }
}

proof fn lemma_relabel_path_twice(b: PathTree, a: PathTree, t: PathTree, l: Seq<char>)
    requires
        relabeled_path(a, t, l),
        relabeled_path(b, a, l),
    ensures
        relabeled_path(b, t, l),
    decreases t,
{
    lemma_relabel_segments_twice(b.segments@, a.segments@, t.segments@, l);
}

proof fn lemma_relabel_segments_twice(b: Seq<SegmentTree>, a: Seq<SegmentTree>, t: Seq<SegmentTree>, l: Seq<char>)
    requires
        relabeled_segments(a, t, l),
        relabeled_segments(b, a, l),
    ensures
        relabeled_segments(b, t, l),
    decreases t,
{
    if t.len() > 0 {
        lemma_relabel_segments_twice(b.drop_last(), a.drop_last(), t.drop_last(), l);
        lemma_relabel_segment_twice(b.last(), a.last(), t.last(), l);
    }
}

proof fn lemma_relabel_segment_twice(b: SegmentTree, a: SegmentTree, t: SegmentTree, l: Seq<char>)
    requires
        relabeled_segment(a, t, l),
        relabeled_segment(b, a, l),
    ensures
        relabeled_segment(b, t, l),
    decreases t,
{
    if let ArgsTree::AngleBracketed(args) = t.args {
        lemma_relabel_arg_seq_twice(b.args->AngleBracketed_0@, a.args->AngleBracketed_0@, args@, l);
    }
}

proof fn lemma_relabel_arg_seq_twice(b: Seq<ArgTree>, a: Seq<ArgTree>, t: Seq<ArgTree>, l: Seq<char>)
    requires
        relabeled_arg_seq(a, t, l),
        relabeled_arg_seq(b, a, l),
    ensures
        relabeled_arg_seq(b, t, l),
    decreases t,
{
    if t.len() > 0 {
        lemma_relabel_arg_seq_twice(b.drop_last(), a.drop_last(), t.drop_last(), l);
        lemma_relabel_arg_twice(b.last(), a.last(), t.last(), l);
    }
}

proof fn lemma_relabel_arg_twice(b: ArgTree, a: ArgTree, t: ArgTree, l: Seq<char>)
    requires
        relabeled_arg(a, t, l),
        relabeled_arg(b, a, l),
    ensures
        relabeled_arg(b, t, l),
    decreases t,
{
    match t {
        ArgTree::Type(tt) => lemma_relabel_type_twice(b->Type_0, a->Type_0, tt, l),
        ArgTree::AssocType(_, tt) => lemma_relabel_type_twice(b->AssocType_1, a->AssocType_1, tt, l),
        ArgTree::Constraint(_, bounds) => lemma_trait_bounds_idempotent(bounds@),
        _ => {},
    }
}

/// Giving every lifetime one name is idempotent: relabeling a type that was
/// already relabeled with the same name gives a relabeling of the original
/// type. (So giving a path segment the name twice does no harm.)
pub proof fn law_relabel_idempotent(b: TypeTree, a: TypeTree, t: TypeTree, l: Seq<char>)
    requires
        relabeled_type(a, t, l),
        relabeled_type(b, a, l),
    ensures
        relabeled_type(b, t, l),
{
    lemma_relabel_type_twice(b, a, t, l);
}

} // verus!
