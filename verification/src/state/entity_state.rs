//! The state of an entity, with its attributes.

use vstd::prelude::*;
use crate::state::attributes::Attributes;

verus! {

/// An entity's state and attributes.
pub trait EntityState: Sized {
    type State;

    fn get(&self) -> &Self::State;

    fn get_mut(&mut self) -> &mut Self::State;

    fn attributes(&self) -> &Attributes;

    fn attributes_mut(&mut self) -> &mut Attributes;
}

/// The state of a sensor: a value of type `S` and attributes.
pub struct Sensor<S> {
    pub state: S,
    pub attributes: Attributes,
}

impl<S> Sensor<S> {
    /// A sensor in `state`, with no attributes.
    pub fn new(state: S) -> (res: Sensor<S>)
        ensures
            res.state == state,
            res.attributes.wf(),
            res.attributes.view() == Map::<Seq<char>, Seq<char>>::empty(),
    {
        Sensor { state, attributes: Attributes::new() }
    }
}

impl<S> EntityState for Sensor<S> {
    type State = S;

    fn get(&self) -> (res: &S)
        ensures
            *res == self.state,
    {
        &self.state
    }

    fn get_mut(&mut self) -> (res: &mut S)
        ensures
            *res == old(self).state,
            final(self).state == *final(res),
            final(self).attributes == old(self).attributes,
    {
        &mut self.state
    }

    fn attributes(&self) -> (res: &Attributes)
        ensures
            *res == self.attributes,
    {
        &self.attributes
    }

    fn attributes_mut(&mut self) -> (res: &mut Attributes)
        ensures
            *res == old(self).attributes,
            final(self).attributes == *final(res),
            final(self).state == old(self).state,
    {
        &mut self.attributes
    }
}

} // verus!
