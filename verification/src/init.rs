//! Building the store at the start of a run.
//!
//! Every body is put together from five draws: its mass, the two
//! coordinates of its position, and the two components of its velocity.
//! Which interval each draw is taken from is decided here; the draw itself
//! and the making of a vector from two numbers are the caller's.

use vstd::prelude::*;
use crate::body::OrbitalEntity;
use crate::config::SimulationConfig;
use crate::store::BodyStore;

verus! {

/// The interval from `low` to `high` that a number is drawn from.
#[derive(Copy, Debug, PartialEq)]
pub struct Interval<S> {
    pub low: S,
    pub high: S,
}

impl<S: Copy> Clone for Interval<S> {
    fn clone(&self) -> (copy: Self)
        ensures
            copy == *self,
    {
        *self
    }
}

/// The intervals that the attributes of a new body are drawn from.
#[derive(Copy, Debug, PartialEq)]
pub struct SpawnRanges<S> {
    /// Of the first coordinate of a position.
    pub x: Interval<S>,
    /// Of the second coordinate of a position.
    pub y: Interval<S>,
    /// Of either component of a velocity.
    pub velocity: Interval<S>,
    /// Of the mass of the one heavy body.
    pub heavy_mass: Interval<S>,
    /// Of the mass of every other body.
    pub light_mass: Interval<S>,
}

impl<S: Copy> Clone for SpawnRanges<S> {
    fn clone(&self) -> (copy: Self)
        ensures
            copy == *self,
    {
        *self
    }
}

impl<S> SpawnRanges<S> {
    /// The interval for the mass of the body at `index`: body 0 is the heavy
    /// one, all others are light.
    pub open spec fn mass_range_of(self, index: int) -> Interval<S> {
        if index == 0 {
            self.heavy_mass
        } else {
            self.light_mass
        }
    }

    /// The interval for the mass of the body at `index`.
    pub fn mass_range(&self, index: usize) -> (range: &Interval<S>)
        ensures
            *range == self.mass_range_of(index as int),
    {
        if index == 0 {
            &self.heavy_mass
        } else {
            &self.light_mass
        }
    }
}

/// `v` is a vector that `vector` makes of two numbers, the first drawn from
/// `first` and the second from `second`.
pub open spec fn drawn_vector<V, S, Draw, Vector>(
    first: Interval<S>,
    second: Interval<S>,
    draw: Draw,
    vector: Vector,
    v: V,
) -> bool where Draw: Fn(&Interval<S>) -> S, Vector: Fn(S, S) -> V {
    exists|a: S, b: S|
        {
            &&& draw.ensures((&first,), a)
            &&& draw.ensures((&second,), b)
            &&& #[trigger] vector.ensures((a, b), v)
        }
}

/// `body` is a body that [`initialize`] can put at `index`: its mass is drawn
/// from the mass interval of that index, its position from the intervals of
/// the two coordinates, and both components of its velocity from the
/// interval of velocities.
pub open spec fn spawned<V, S, Draw, Vector>(
    ranges: SpawnRanges<S>,
    index: int,
    draw: Draw,
    vector: Vector,
    body: OrbitalEntity<V, S>,
) -> bool where Draw: Fn(&Interval<S>) -> S, Vector: Fn(S, S) -> V {
    &&& draw.ensures((&ranges.mass_range_of(index),), body.mass)
    &&& drawn_vector(ranges.x, ranges.y, draw, vector, body.position)
    &&& drawn_vector(ranges.velocity, ranges.velocity, draw, vector, body.velocity)
}

/// Builds the store for a run: as many bodies as `config` says, in index
/// order, each from five draws in the order mass, position (first and
/// second coordinate), velocity (first and second component).
pub fn initialize<V, S, T, Draw, Vector>(
    config: &SimulationConfig<T>,
    ranges: &SpawnRanges<S>,
    draw: &Draw,
    vector: &Vector,
) -> (store: BodyStore<V, S>) where Draw: Fn(&Interval<S>) -> S, Vector: Fn(S, S) -> V
    requires
        forall|range: &Interval<S>| #[trigger] draw.requires((range,)),
        forall|a: S, b: S| #[trigger] vector.requires((a, b)),
    ensures
        store@.len() == config.count(),
        store@.len() > 0,
        forall|i: int|
            0 <= i < store@.len() ==> spawned(*ranges, i, *draw, *vector, #[trigger] store@[i]),
{
    let body_count = config.body_count();
    let mut bodies: Vec<OrbitalEntity<V, S>> = Vec::new();
    let mut i: usize = 0;
    while i < body_count
        invariant
            i <= body_count,
            bodies@.len() == i,
            forall|range: &Interval<S>| #[trigger] draw.requires((range,)),
            forall|a: S, b: S| #[trigger] vector.requires((a, b)),
            forall|k: int|
                0 <= k < i ==> spawned(*ranges, k, *draw, *vector, #[trigger] bodies@[k]),
        decreases body_count - i,
    {
        let mass = draw(ranges.mass_range(i));
        let x = draw(&ranges.x);
        let y = draw(&ranges.y);
        let position = vector(x, y);
        let vx = draw(&ranges.velocity);
        let vy = draw(&ranges.velocity);
        let velocity = vector(vx, vy);
        bodies.push(OrbitalEntity { position, velocity, mass });
        i += 1;
    }
    BodyStore::new(bodies)
}

/// `v` is a vector that `vector` makes of two numbers of which `within`
/// holds, of the first for `first` and of the second for `second`.
pub open spec fn made_within<V, S, Vector: Fn(S, S) -> V>(
    first: Interval<S>,
    second: Interval<S>,
    vector: Vector,
    within: spec_fn(Interval<S>, S) -> bool,
    v: V,
) -> bool {
    exists|a: S, b: S|
        {
            &&& within(first, a)
            &&& within(second, b)
            &&& #[trigger] vector.ensures((a, b), v)
        }
}

/// After initialization every mass lies within its assigned interval and
/// every position within the rectangle. Whatever `draw` promises of a
/// number that it draws from an interval, as `within` says it, holds of the
/// mass of body 0 for the heavy interval, of the mass of every other body for
/// the light interval, and of the two numbers that each position was made
/// of, for the intervals of the two coordinates.
pub proof fn lemma_bodies_lie_within_their_ranges<V, S, Draw, Vector>(
    ranges: SpawnRanges<S>,
    draw: Draw,
    vector: Vector,
    bodies: Seq<OrbitalEntity<V, S>>,
    within: spec_fn(Interval<S>, S) -> bool,
) where Draw: Fn(&Interval<S>) -> S, Vector: Fn(S, S) -> V
    requires
        bodies.len() > 0,
        forall|i: int|
            0 <= i < bodies.len() ==> spawned(ranges, i, draw, vector, #[trigger] bodies[i]),
        forall|range: &Interval<S>, r: S| #[trigger]
            draw.ensures((range,), r) ==> within(*range, r),
    ensures
        within(ranges.heavy_mass, bodies[0].mass),
        forall|i: int|
            1 <= i < bodies.len() ==> within(ranges.light_mass, (#[trigger] bodies[i]).mass),
        forall|i: int|
            0 <= i < bodies.len() ==> made_within(
                ranges.x,
                ranges.y,
                vector,
                within,
                (#[trigger] bodies[i]).position,
            ),
        forall|i: int|
            0 <= i < bodies.len() ==> made_within(
                ranges.velocity,
                ranges.velocity,
                vector,
                within,
                (#[trigger] bodies[i]).velocity,
            ),
{
    assert forall|i: int| 0 <= i < bodies.len() implies made_within(
        ranges.x,
        ranges.y,
        vector,
        within,
        (#[trigger] bodies[i]).position,
    ) && made_within(ranges.velocity, ranges.velocity, vector, within, bodies[i].velocity) by {
        assert(spawned(ranges, i, draw, vector, bodies[i]));
        let (x, y) = choose|x: S, y: S|
            draw.ensures((&ranges.x,), x) && draw.ensures((&ranges.y,), y)
                && #[trigger] vector.ensures((x, y), bodies[i].position);
        assert(within(ranges.x, x) && within(ranges.y, y));
        let (vx, vy) = choose|vx: S, vy: S|
            draw.ensures((&ranges.velocity,), vx) && draw.ensures((&ranges.velocity,), vy)
                && #[trigger] vector.ensures((vx, vy), bodies[i].velocity);
        assert(within(ranges.velocity, vx) && within(ranges.velocity, vy));
    }
    assert(spawned(ranges, 0, draw, vector, bodies[0]));
}

} // verus!
