//! The point mass.

use vstd::prelude::*;
use vstd::std_specs::ops::SubSpec;
use core::ops::Sub;

verus! {

/// One point mass: where it is, how fast it moves, and how heavy it is.
///
/// A plain record. Its index in the [`BodyStore`](crate::store::BodyStore)
/// identifies it for the whole run.
#[derive(Copy, Debug, PartialEq)]
pub struct OrbitalEntity<V, S> {
    pub position: V,
    pub velocity: V,
    pub mass: S,
}

impl<V: Copy, S: Copy> Clone for OrbitalEntity<V, S> {
    fn clone(&self) -> (copy: Self)
        ensures
            copy == *self,
    {
        *self
    }
}

impl<V, S> OrbitalEntity<V, S> {
    /// Builds a body from its three attributes.
    pub fn new(position: V, velocity: V, mass: S) -> (body: Self)
        ensures
            body.position == position,
            body.velocity == velocity,
            body.mass == mass,
    {
        OrbitalEntity { position, velocity, mass }
    }
}

impl<V: Copy, S> OrbitalEntity<V, S> {
    /// The body's position.
    pub fn pos(&self) -> (p: V)
        ensures
            p == self.position,
    {
        self.position
    }
}

impl<V: Copy + Sub<Output = V>, S> OrbitalEntity<V, S> {
    /// The vector from `other` to this body: this position minus the other.
    pub fn r_vector(&self, other: &Self) -> (r: V)
        requires
            self.position.sub_req(other.position),
        ensures
            call_ensures(<V as Sub>::sub, (self.position, other.position), r),
            V::obeys_sub_spec() ==> r == self.position.sub_spec(other.position),
    {
        self.position - other.position
    }
}

} // verus!
