//! What holds of a tick under the law of the simulator, proved from the
//! contract of [`step`](crate::step::step) and the definitions of
//! [`crate::law`].
//!
//! The laws on signs are stated for arithmetic that follows its
//! specification and in which negation commutes with the operations, as it
//! does for reals and for every sign-symmetric number format.

use vstd::prelude::*;
use vstd::std_specs::ops::{AddSpec, DivSpec, MulSpec, NegSpec, SubSpec};
use core::ops::Add;
use crate::body::OrbitalEntity;
use crate::law::{
    Vector,
    arithmetic_is_specified,
    is_difference,
    is_drifted,
    is_kicked,
    is_negation,
    is_product,
    is_pulled,
    is_quotient,
    is_sum,
    kicked,
    lemma_law_when_specified,
    pair_term,
    pulled,
};
use crate::step::{law_advanced, law_stepped, pull_link, pull_trace};

verus! {

/// `distance` is a function: two positions have one distance.
pub open spec fn distance_is_function<V, S, Dist: Fn(V, V) -> S>(distance: Dist) -> bool {
    forall|a: V, b: V, d1: S, d2: S|
        #[trigger] distance.ensures((a, b), d1) && #[trigger] distance.ensures((a, b), d2) ==> d1
            == d2
}

/// `distance` is symmetric: what it measures from `a` to `b` it measures
/// from `b` to `a`.
pub open spec fn distance_is_symmetric<V, S, Dist: Fn(V, V) -> S>(distance: Dist) -> bool {
    forall|a: V, b: V, d: S| #[trigger] distance.ensures((a, b), d) ==> distance.ensures((b, a), d)
}

/// Every operator of `V` that the law uses is a function: its operands
/// determine its result.
pub open spec fn operators_are_functions<V: Vector<S>, S>() -> bool {
    &&& forall|a: V, b: V, r1: V, r2: V|
        #[trigger] is_sum(a, b, r1) && #[trigger] is_sum(a, b, r2) ==> r1 == r2
    &&& forall|a: V, b: V, r1: V, r2: V|
        #[trigger] is_difference(a, b, r1) && #[trigger] is_difference(a, b, r2) ==> r1 == r2
    &&& forall|a: V, r1: V, r2: V|
        #[trigger] is_negation(a, r1) && #[trigger] is_negation(a, r2) ==> r1 == r2
    &&& forall|a: V, s: S, r1: V, r2: V|
        #[trigger] is_product(a, s, r1) && #[trigger] is_product(a, s, r2) ==> r1 == r2
    &&& forall|a: V, s: S, r1: V, r2: V|
        #[trigger] is_quotient(a, s, r1) && #[trigger] is_quotient(a, s, r2) ==> r1 == r2
}

/// Negation commutes with the operations of the law: exchanging the operands
/// of a difference negates it, and the quotient or product of a negated
/// vector is the negated quotient or product.
pub open spec fn negation_commutes<V: Vector<S>, S>() -> bool {
    &&& forall|a: V, b: V| #[trigger] b.sub_spec(a) == a.sub_spec(b).neg_spec()
    &&& forall|v: V, s: S| #[trigger] v.neg_spec().div_spec(s) == v.div_spec(s).neg_spec()
    &&& forall|v: V, s: S| #[trigger] v.neg_spec().mul_spec(s) == v.mul_spec(s).neg_spec()
}

/// Adding to `zero` changes nothing.
pub open spec fn zero_is_neutral<V: Add<Output = V>>(zero: V) -> bool {
    forall|x: V| #[trigger] zero.add_spec(x) == x
}

/// Operators that follow their specifications are functions.
pub proof fn lemma_specified_operators_are_functions<V, S>() where
    V: Vector<S>,

    requires
        arithmetic_is_specified::<V, S>(),
    ensures
        operators_are_functions::<V, S>(),
{
}

/// Two records of the sum of the pulls on one body over one snapshot hold
/// the same sum after every visit, if the operators and `distance` are
/// functions.
proof fn lemma_pull_traces_agree<V, S, Dist>(
    snapshot: Seq<OrbitalEntity<V, S>>,
    i: int,
    zero: V,
    distance: Dist,
    first: Seq<V>,
    second: Seq<V>,
    k: int,
) where
    V: Vector<S>,
    Dist: Fn(V, V) -> S,

    requires
        operators_are_functions::<V, S>(),
        distance_is_function(distance),
        pull_trace(snapshot, i, zero, distance, first),
        pull_trace(snapshot, i, zero, distance, second),
        0 <= k <= snapshot.len(),
    ensures
        first[k] == second[k],
    decreases k,
{
    if k > 0 {
        lemma_pull_traces_agree(snapshot, i, zero, distance, first, second, k - 1);
        let j = k - 1;
        assert(pull_link(snapshot, i, distance, j, first[j], first[j + 1]));
        assert(pull_link(snapshot, i, distance, j, second[j], second[j + 1]));
    }
}

/// Determinism: a tick under the law has one outcome. If the operators and
/// `distance` are functions, any two stores that `step` or `step_parallel`
/// can leave behind, started from the same snapshot with the same `dt`, are
/// equal, body for body.
pub proof fn lemma_law_step_deterministic<V, S, Dist>(
    snapshot: Seq<OrbitalEntity<V, S>>,
    dt: S,
    zero: V,
    distance: Dist,
    first: Seq<OrbitalEntity<V, S>>,
    second: Seq<OrbitalEntity<V, S>>,
) where
    V: Vector<S>,
    Dist: Fn(V, V) -> S,

    requires
        operators_are_functions::<V, S>(),
        distance_is_function(distance),
        law_stepped(snapshot, dt, zero, distance, first),
        law_stepped(snapshot, dt, zero, distance, second),
    ensures
        first == second,
{
    assert forall|i: int| 0 <= i < snapshot.len() implies first[i] == second[i] by {
        assert(law_advanced(snapshot, i, dt, zero, distance, first[i]));
        assert(law_advanced(snapshot, i, dt, zero, distance, second[i]));
        let t1 = choose|t: Seq<V>| #[trigger]
            pull_trace(snapshot, i, zero, distance, t) && is_kicked(
                snapshot[i].velocity,
                t.last(),
                dt,
                first[i].velocity,
            );
        let t2 = choose|t: Seq<V>| #[trigger]
            pull_trace(snapshot, i, zero, distance, t) && is_kicked(
                snapshot[i].velocity,
                t.last(),
                dt,
                second[i].velocity,
            );
        lemma_pull_traces_agree(snapshot, i, zero, distance, t1, t2, snapshot.len() as int);
        assert(first[i].velocity == second[i].velocity);
        assert(first[i].position == second[i].position);
        assert(first[i].mass == second[i].mass);
    }
    assert(first =~= second);
}

/// A lone body feels nothing. In a store of one body a tick kicks the
/// velocity by `zero` and lets the position drift with the result; where a
/// kick by `zero` leaves that velocity as it is, the velocity is unchanged
/// and the position moves with the old velocity alone.
pub proof fn lemma_lone_body_under_law<V, S, Dist>(
    snapshot: Seq<OrbitalEntity<V, S>>,
    dt: S,
    zero: V,
    distance: Dist,
    after: Seq<OrbitalEntity<V, S>>,
) where
    V: Vector<S>,
    Dist: Fn(V, V) -> S,

    requires
        snapshot.len() == 1,
        law_stepped(snapshot, dt, zero, distance, after),
    ensures
        after.len() == 1,
        after[0].mass == snapshot[0].mass,
        is_kicked(snapshot[0].velocity, zero, dt, after[0].velocity),
        is_drifted(snapshot[0].position, after[0].velocity, dt, after[0].position),
        (forall|r: V| #[trigger] is_kicked(snapshot[0].velocity, zero, dt, r) ==> r
            == snapshot[0].velocity) ==> {
            &&& after[0].velocity == snapshot[0].velocity
            &&& is_drifted(snapshot[0].position, snapshot[0].velocity, dt, after[0].position)
        },
{
    assert(law_advanced(snapshot, 0, dt, zero, distance, after[0]));
    let t = choose|t: Seq<V>| #[trigger]
        pull_trace(snapshot, 0, zero, distance, t) && is_kicked(
            snapshot[0].velocity,
            t.last(),
            dt,
            after[0].velocity,
        );
    assert(pull_link(snapshot, 0, distance, 0, t[0], t[1]));
}

/// The pulls between the two bodies of a pair have a fixed relation. At one
/// distance `d`, what `b` exerts on `a` and what `a` exerts on `b` are the
/// same vector, `(a - b) / d`, with opposite signs, each scaled by the mass
/// of the body that pulls. With equal masses the two pulls are exactly
/// opposite; with unequal masses they differ in size as the masses do.
pub proof fn lemma_pair_terms_oppose<V, S>(a: V, b: V, mass_a: S, mass_b: S, d: S) where
    V: Vector<S>,

    requires
        negation_commutes::<V, S>(),
    ensures
        pair_term(a, b, mass_b, d) == a.sub_spec(b).div_spec(d).mul_spec(mass_b),
        pair_term(b, a, mass_a, d) == a.sub_spec(b).div_spec(d).mul_spec(mass_a).neg_spec(),
        mass_a == mass_b ==> pair_term(b, a, mass_a, d) == pair_term(a, b, mass_b, d).neg_spec(),
{
    let r = a.sub_spec(b);
    assert(b.sub_spec(a) == r.neg_spec());
    assert(r.neg_spec().div_spec(d) == r.div_spec(d).neg_spec());
    assert(r.div_spec(d).neg_spec().mul_spec(mass_a) == r.div_spec(d).mul_spec(mass_a).neg_spec());
}

/// Symmetry: two bodies of equal mass get equal and opposite changes of
/// velocity. In a store of two bodies of one mass, wherever they are and
/// however they move, there is a vector `k` such that a tick adds `k` to the
/// velocity of body 0 and `-k` to the velocity of body 1.
pub proof fn lemma_equal_pair_kicks_oppose<V, S, Dist>(
    snapshot: Seq<OrbitalEntity<V, S>>,
    dt: S,
    zero: V,
    distance: Dist,
    after: Seq<OrbitalEntity<V, S>>,
) where
    V: Vector<S>,
    Dist: Fn(V, V) -> S,

    requires
        snapshot.len() == 2,
        snapshot[0].mass == snapshot[1].mass,
        law_stepped(snapshot, dt, zero, distance, after),
        arithmetic_is_specified::<V, S>(),
        negation_commutes::<V, S>(),
        zero_is_neutral(zero),
        distance_is_function(distance),
        distance_is_symmetric(distance),
    ensures
        exists|k: V|
            {
                &&& after[0].velocity == #[trigger] snapshot[0].velocity.add_spec(k)
                &&& after[1].velocity == snapshot[1].velocity.add_spec(k.neg_spec())
            },
{
    lemma_law_when_specified::<V, S>();
    let a = snapshot[0].position;
    let b = snapshot[1].position;
    let m = snapshot[0].mass;
    assert(law_advanced(snapshot, 0, dt, zero, distance, after[0]));
    assert(law_advanced(snapshot, 1, dt, zero, distance, after[1]));
    let t0 = choose|t: Seq<V>| #[trigger]
        pull_trace(snapshot, 0, zero, distance, t) && is_kicked(
            snapshot[0].velocity,
            t.last(),
            dt,
            after[0].velocity,
        );
    let t1 = choose|t: Seq<V>| #[trigger]
        pull_trace(snapshot, 1, zero, distance, t) && is_kicked(
            snapshot[1].velocity,
            t.last(),
            dt,
            after[1].velocity,
        );
    assert(pull_link(snapshot, 0, distance, 0, t0[0], t0[1]));
    assert(pull_link(snapshot, 0, distance, 1, t0[1], t0[2]));
    assert(pull_link(snapshot, 1, distance, 0, t1[0], t1[1]));
    assert(pull_link(snapshot, 1, distance, 1, t1[1], t1[2]));
    let d0 = choose|d: S| #[trigger]
        distance.ensures((a, b), d) && is_pulled(t0[1], a, b, m, d, t0[2]);
    let d1 = choose|d: S| #[trigger]
        distance.ensures((b, a), d) && is_pulled(t1[0], b, a, m, d, t1[1]);
    assert(distance.ensures((b, a), d0));
    assert(d0 == d1);
    assert(t0[2] == pulled(zero, a, b, m, d0));
    assert(t1[1] == pulled(zero, b, a, m, d0));
    lemma_pair_terms_oppose(a, b, m, m, d0);
    let term = pair_term(a, b, m, d0);
    assert(t0.last() == term);
    assert(t1.last() == term.neg_spec());
    let k = term.neg_spec().mul_spec(dt);
    assert(term.neg_spec().neg_spec().mul_spec(dt) == k.neg_spec());
    assert(after[0].velocity == kicked(snapshot[0].velocity, t0.last(), dt));
    assert(after[1].velocity == kicked(snapshot[1].velocity, t1.last(), dt));
    assert(after[0].velocity == snapshot[0].velocity.add_spec(k));
    assert(after[1].velocity == snapshot[1].velocity.add_spec(k.neg_spec()));
}

} // verus!
