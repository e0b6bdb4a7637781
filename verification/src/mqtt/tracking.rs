use vstd::prelude::*;

verus! {

/// A value that knows whether it changed since it was last published.
pub trait Dirty {
    /// Whether the value changed since it was last published.
    fn dirty(&self) -> bool;
}

} // verus!
