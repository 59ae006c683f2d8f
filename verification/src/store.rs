//! The ordered collection of bodies.

use vstd::prelude::*;
use crate::body::OrbitalEntity;

verus! {

/// An ordered, index-addressed collection of bodies.
///
/// The order is fixed when the store is built: no operation inserts, removes
/// or reorders, so an index names the same body for the lifetime of the store.
#[derive(Debug, PartialEq)]
pub struct BodyStore<V, S> {
    bodies: Vec<OrbitalEntity<V, S>>,
}

impl<V, S> View for BodyStore<V, S> {
    type V = Seq<OrbitalEntity<V, S>>;

    closed spec fn view(&self) -> Seq<OrbitalEntity<V, S>> {
        self.bodies@
    }
}

impl<V, S> BodyStore<V, S> {
    /// A store holding `bodies`, in their order.
    pub fn new(bodies: Vec<OrbitalEntity<V, S>>) -> (store: Self)
        ensures
            store@ == bodies@,
    {
        BodyStore { bodies }
    }

    /// The number of bodies.
    pub fn len(&self) -> (n: usize)
        ensures
            n == self@.len(),
    {
        self.bodies.len()
    }

    /// The body at `index`.
    pub fn get(&self, index: usize) -> (body: &OrbitalEntity<V, S>)
        requires
            index < self@.len(),
        ensures
            *body == self@[index as int],
    {
        &self.bodies[index]
    }

    /// Replaces the body at `index`; every other body stays as it is.
    pub fn set(&mut self, index: usize, body: OrbitalEntity<V, S>)
        requires
            index < old(self)@.len(),
        ensures
            final(self)@ == old(self)@.update(index as int, body),
    {
        self.bodies.set(index, body);
    }

    /// Gives the bodies back, in their order.
    pub fn into_bodies(self) -> (bodies: Vec<OrbitalEntity<V, S>>)
        ensures
            bodies@ == self@,
    {
        self.bodies
    }
}

} // verus!
