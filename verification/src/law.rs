//! The interaction law, written once for every number type.
//!
//! What a body at `from` with mass `m` exerts on a body at `on` is
//! `(on - from) / distance * m`: the unit vector from the puller to the
//! pulled, scaled by the mass of the puller. It does not weaken with the
//! distance; this is the law of the simulator, not Newton's. What all the
//! others exert on a body is summed, the velocity changes by the negated sum
//! times the time increment, so that the body falls towards the others, and
//! the position then moves with the new velocity (explicit Euler).
//!
//! `V` is the vector type and `S` the scalar type (masses, distances, time).
//! The functions use the operators of `V` and nothing else. What they return
//! is stated twice: as a chain of operator results, which holds for every
//! `V`, and as a term over the operators' specifications, which holds where
//! the operators follow theirs. The distance between two positions is not an
//! operator: the caller measures it and hands it in.

use vstd::prelude::*;
use vstd::std_specs::ops::{AddSpec, DivSpec, MulSpec, NegSpec, SubSpec};
use core::ops::{Add, Div, Mul, Neg, Sub};
use crate::body::OrbitalEntity;

verus! {

/// A vector type over the scalar type `S`: one that can be copied and has
/// the five operators of the law. Every type that has them is one.
pub trait Vector<S>: Copy + Add<Output = Self> + Sub<Output = Self> + Neg<Output = Self> + Mul<
    S,
    Output = Self,
> + Div<S, Output = Self> {
}

impl<V, S> Vector<S> for V where
    V: Copy + Add<Output = V> + Sub<Output = V> + Neg<Output = V> + Mul<S, Output = V> + Div<
        S,
        Output = V,
    >,
 {
}

/// `r` is a result of `a + b`.
pub open spec fn is_sum<V: Add<Output = V>>(a: V, b: V, r: V) -> bool {
    call_ensures(<V as Add>::add, (a, b), r)
}

/// `r` is a result of `a - b`.
pub open spec fn is_difference<V: Sub<Output = V>>(a: V, b: V, r: V) -> bool {
    call_ensures(<V as Sub>::sub, (a, b), r)
}

/// `r` is a result of `-a`.
pub open spec fn is_negation<V: Neg<Output = V>>(a: V, r: V) -> bool {
    call_ensures(<V as Neg>::neg, (a,), r)
}

/// `r` is a result of `a * s`.
pub open spec fn is_product<V: Mul<S, Output = V>, S>(a: V, s: S, r: V) -> bool {
    call_ensures(<V as Mul<S>>::mul, (a, s), r)
}

/// `r` is a result of `a / s`.
pub open spec fn is_quotient<V: Div<S, Output = V>, S>(a: V, s: S, r: V) -> bool {
    call_ensures(<V as Div<S>>::div, (a, s), r)
}

/// `sum` is a result of `acc + (on - from) / distance * mass`: `acc` with the
/// pull added that a body at `from` with mass `mass` exerts on a body at
/// `on`, the two being `distance` apart.
pub open spec fn is_pulled<V: Vector<S>, S>(
    acc: V,
    on: V,
    from: V,
    mass: S,
    distance: S,
    sum: V,
) -> bool {
    exists|r: V, q: V, t: V|
        {
            &&& is_difference(on, from, r)
            &&& #[trigger] is_quotient(r, distance, q)
            &&& #[trigger] is_product(q, mass, t)
            &&& is_sum(acc, t, sum)
        }
}

/// `after` is a result of `velocity + (-net) * dt`: the velocity after the
/// net influence `net` has acted for `dt`.
pub open spec fn is_kicked<V: Vector<S>, S>(velocity: V, net: V, dt: S, after: V) -> bool {
    exists|n: V, p: V|
        {
            &&& is_negation(net, n)
            &&& #[trigger] is_product(n, dt, p)
            &&& is_sum(velocity, p, after)
        }
}

/// `after` is a result of `position + velocity * dt`: the position after
/// moving with `velocity` for `dt`.
pub open spec fn is_drifted<V: Vector<S>, S>(position: V, velocity: V, dt: S, after: V) -> bool {
    exists|p: V|
        {
            &&& #[trigger] is_product(velocity, dt, p)
            &&& is_sum(position, p, after)
        }
}

/// What a body at `from` with mass `mass` exerts on a body at `on`, the two
/// being `distance` apart.
pub open spec fn pair_term<V: Vector<S>, S>(on: V, from: V, mass: S, distance: S) -> V {
    on.sub_spec(from).div_spec(distance).mul_spec(mass)
}

/// `acc` with the pull of one more body added.
pub open spec fn pulled<V: Vector<S>, S>(acc: V, on: V, from: V, mass: S, distance: S) -> V {
    acc.add_spec(pair_term(on, from, mass, distance))
}

/// The velocity after the net influence `net` has acted for `dt`.
pub open spec fn kicked<V: Vector<S>, S>(velocity: V, net: V, dt: S) -> V {
    velocity.add_spec(net.neg_spec().mul_spec(dt))
}

/// The position after moving with `velocity` for `dt`.
pub open spec fn drifted<V: Vector<S>, S>(position: V, velocity: V, dt: S) -> V {
    position.add_spec(velocity.mul_spec(dt))
}

/// Every operator of `V` that the law uses accepts every operand.
pub open spec fn arithmetic_is_total<V: Vector<S>, S>() -> bool {
    &&& forall|a: V, b: V| #[trigger] a.add_req(b)
    &&& forall|a: V, b: V| #[trigger] a.sub_req(b)
    &&& forall|a: V| #[trigger] a.neg_req()
    &&& forall|a: V, s: S| #[trigger] a.mul_req(s)
    &&& forall|a: V, s: S| #[trigger] a.div_req(s)
}

/// Every operator of `V` that the law uses follows its specification.
pub open spec fn arithmetic_is_specified<V: Vector<S>, S>() -> bool {
    &&& V::obeys_add_spec()
    &&& V::obeys_sub_spec()
    &&& V::obeys_neg_spec()
    &&& <V as MulSpec<S>>::obeys_mul_spec()
    &&& <V as DivSpec<S>>::obeys_div_spec()
}

/// Every operation of `acc + (on - from) / distance * mass` is permitted on
/// its operands.
pub open spec fn pull_is_defined<V: Vector<S>, S>(
    acc: V,
    on: V,
    from: V,
    mass: S,
    distance: S,
) -> bool {
    &&& on.sub_req(from)
    &&& forall|r: V| #[trigger] is_difference(on, from, r) ==> r.div_req(distance)
    &&& forall|r: V, q: V|
        #[trigger] is_difference(on, from, r) && #[trigger] is_quotient(r, distance, q)
            ==> q.mul_req(mass)
    &&& forall|r: V, q: V, t: V|
        #[trigger] is_difference(on, from, r) && #[trigger] is_quotient(r, distance, q)
            && #[trigger] is_product(q, mass, t) ==> acc.add_req(t)
}

/// Every operation of `velocity + (-net) * dt` is permitted on its operands.
pub open spec fn kick_is_defined<V: Vector<S>, S>(velocity: V, net: V, dt: S) -> bool {
    &&& net.neg_req()
    &&& forall|n: V| #[trigger] is_negation(net, n) ==> n.mul_req(dt)
    &&& forall|n: V, p: V|
        #[trigger] is_negation(net, n) && #[trigger] is_product(n, dt, p) ==> velocity.add_req(p)
}

/// Every operation of `position + velocity * dt` is permitted on its operands.
pub open spec fn drift_is_defined<V: Vector<S>, S>(position: V, velocity: V, dt: S) -> bool {
    &&& velocity.mul_req(dt)
    &&& forall|p: V| #[trigger] is_product(velocity, dt, p) ==> position.add_req(p)
}

/// Adds to `acc` the pull that the body `from` exerts on the body `on`, the
/// two being `distance` apart. Of `on` only the position matters, of `from`
/// the position and the mass.
pub fn pull<V, S>(
    acc: V,
    on: &OrbitalEntity<V, S>,
    from: &OrbitalEntity<V, S>,
    distance: S,
) -> (sum: V) where
    V: Vector<S>,
    S: Copy,

    requires
        pull_is_defined(acc, on.position, from.position, from.mass, distance),
    ensures
        is_pulled(acc, on.position, from.position, from.mass, distance, sum),
        V::obeys_add_spec() && V::obeys_sub_spec() && <V as DivSpec<S>>::obeys_div_spec()
            && <V as MulSpec<S>>::obeys_mul_spec()
            ==> sum == pulled(acc, on.position, from.position, from.mass, distance),
{
    let r = on.r_vector(from);
    assert(is_difference(on.position, from.position, r));
    let q = r / distance;
    assert(is_quotient(r, distance, q));
    let t = q * from.mass;
    assert(is_product(q, from.mass, t));
    acc + t
}

/// The velocity after the net influence `net` has acted for `dt`: the
/// velocity changes by the negated net influence, scaled by `dt`.
pub fn kick<V, S>(velocity: &V, net: &V, dt: S) -> (after: V) where
    V: Vector<S>,
    S: Copy,

    requires
        kick_is_defined(*velocity, *net, dt),
    ensures
        is_kicked(*velocity, *net, dt, after),
        V::obeys_add_spec() && V::obeys_neg_spec() && <V as MulSpec<S>>::obeys_mul_spec()
            ==> after == kicked(*velocity, *net, dt),
{
    let n = net.neg();
    assert(is_negation(*net, n));
    let p = n * dt;
    assert(is_product(n, dt, p));
    *velocity + p
}

/// The position after moving with `velocity` for `dt`.
pub fn drift<V, S>(position: &V, velocity: &V, dt: S) -> (after: V) where
    V: Vector<S>,
    S: Copy,

    requires
        drift_is_defined(*position, *velocity, dt),
    ensures
        is_drifted(*position, *velocity, dt, after),
        V::obeys_add_spec() && <V as MulSpec<S>>::obeys_mul_spec()
            ==> after == drifted(*position, *velocity, dt),
{
    let p = *velocity * dt;
    assert(is_product(*velocity, dt, p));
    *position + p
}

/// Where the operators follow their specifications, a chain of operator
/// results is the term over the specifications.
pub proof fn lemma_law_when_specified<V, S>() where
    V: Vector<S>,

    requires
        arithmetic_is_specified::<V, S>(),
    ensures
        forall|acc: V, on: V, from: V, mass: S, distance: S, sum: V| #[trigger]
            is_pulled(acc, on, from, mass, distance, sum) ==> sum == pulled(
                acc,
                on,
                from,
                mass,
                distance,
            ),
        forall|velocity: V, net: V, dt: S, after: V| #[trigger]
            is_kicked(velocity, net, dt, after) ==> after == kicked(velocity, net, dt),
        forall|position: V, velocity: V, dt: S, after: V| #[trigger]
            is_drifted(position, velocity, dt, after) ==> after == drifted(position, velocity, dt),
{
}

} // verus!
