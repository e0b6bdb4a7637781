use vstd::prelude::*;

verus! {

/// The outcome of a validation: `Ok` when nothing was found invalid,
/// otherwise every invalidity found, in the order in which it was found.
pub type ValidationResult<I> = Result<(), Vec<I>>;

/// `res` reports exactly the invalidities `expected`, in order.
pub open spec fn reports<I>(res: ValidationResult<I>, expected: Seq<I>) -> bool {
    match res {
        Ok(_) => expected.len() == 0,
        Err(found) => expected.len() > 0 && found@ == expected,
    }
}

/// The invalidities that a condition contributes: `inv` when `cond` holds.
pub open spec fn flag<I>(cond: bool, inv: I) -> Seq<I> {
    if cond { seq![inv] } else { Seq::empty() }
}

/// An error carrying the invalidity that made a value invalid.
#[derive(Debug, Clone, Copy)]
pub struct ValidationError<I>(pub I);

impl<I> ValidationError<I> {
    pub fn new(invalidity: I) -> (res: ValidationError<I>)
        ensures
            res.0 == invalidity,
    {
        ValidationError(invalidity)
    }
}

/// Turns the invalidities gathered by a validation into its outcome.
pub fn finish<I>(found: Vec<I>) -> (res: ValidationResult<I>)
    ensures
        reports(res, found@),
{
    if found.len() == 0 {
        Ok(())
    } else {
        Err(found)
    }
}

/// Appends `inv` to `found` when `cond` holds.
pub fn invalidate_if<I>(found: &mut Vec<I>, cond: bool, inv: I)
    ensures
        final(found)@ == old(found)@ + flag(cond, inv),
{
    if cond {
        found.push(inv);
    }
}

/// `x` is in `a + b` exactly when it is in `a` or in `b`.
pub proof fn lemma_contains_concat<I>(a: Seq<I>, b: Seq<I>, x: I)
    ensures
        (a + b).contains(x) <==> a.contains(x) || b.contains(x),
{
    if a.contains(x) {
        let i = choose|i: int| 0 <= i < a.len() && a[i] == x;
        assert((a + b)[i] == x);
    }
    if b.contains(x) {
        let i = choose|i: int| 0 <= i < b.len() && b[i] == x;
        assert((a + b)[a.len() + i] == x);
    }
    if (a + b).contains(x) {
        let i = choose|i: int| 0 <= i < (a + b).len() && (a + b)[i] == x;
        if i < a.len() {
            assert(a[i] == x);
        } else {
            assert(b[i - a.len()] == x);
        }
    }
}

/// `x` is among the invalidities a condition contributes exactly when the
/// condition holds and `x` is its invalidity.
pub proof fn lemma_flag_contains<I>(cond: bool, inv: I, x: I)
    ensures
        flag(cond, inv).contains(x) <==> cond && inv == x,
        flag(cond, inv).len() == if cond { 1int } else { 0int },
{
    if cond {
        assert(flag(cond, inv)[0] == inv);
    }
}

} // verus!
