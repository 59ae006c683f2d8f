//! The step of the simulator: the stepping scheme of [`crate::engine`] under
//! the law of [`crate::law`].
//!
//! Two things the number types cannot give by operators are handed in: the
//! zero vector, from which every sum starts, and `distance`, which measures
//! how far two positions are apart.

use vstd::prelude::*;
use crate::body::OrbitalEntity;
use crate::store::BodyStore;
use crate::engine::{advanced, influence_trace, moved_by, net_influence_of, step_with, stepped};
use crate::parallel::step_parallel_with;
use crate::law::{Vector, arithmetic_is_total, drift, is_drifted, is_kicked, is_pulled, kick, pull};

verus! {

/// `next` is the sum `prev` after body `j` was visited on behalf of body `i`:
/// unchanged if `j` is `i` itself, and else grown by the pull of body `j` at
/// a distance that `distance` measured between the two positions.
pub open spec fn pull_link<V, S, Dist>(
    snapshot: Seq<OrbitalEntity<V, S>>,
    i: int,
    distance: Dist,
    j: int,
    prev: V,
    next: V,
) -> bool where
    V: Vector<S>,
    Dist: Fn(V, V) -> S,
 {
    if j == i {
        next == prev
    } else {
        exists|d: S|
            {
                &&& #[trigger] distance.ensures((snapshot[i].position, snapshot[j].position), d)
                &&& is_pulled(
                    prev,
                    snapshot[i].position,
                    snapshot[j].position,
                    snapshot[j].mass,
                    d,
                    next,
                )
            }
    }
}

/// `trace` records the sum of the pulls on body `i`, body by body: it starts
/// at `zero` and holds one sum more for every body of `snapshot` visited, by
/// ascending index.
pub open spec fn pull_trace<V, S, Dist>(
    snapshot: Seq<OrbitalEntity<V, S>>,
    i: int,
    zero: V,
    distance: Dist,
    trace: Seq<V>,
) -> bool where
    V: Vector<S>,
    Dist: Fn(V, V) -> S,
 {
    &&& trace.len() == snapshot.len() + 1
    &&& trace[0] == zero
    &&& forall|j: int|
        #![trigger trace[j]]
        0 <= j < snapshot.len() ==> pull_link(snapshot, i, distance, j, trace[j], trace[j + 1])
}

/// `after` is body `i` of `snapshot` one tick of length `dt` later, under the
/// law: the pulls of all the other bodies were summed from `zero`, the
/// velocity was kicked by the sum, and the position drifted with the new
/// velocity. The mass is that of before.
pub open spec fn law_advanced<V, S, Dist>(
    snapshot: Seq<OrbitalEntity<V, S>>,
    i: int,
    dt: S,
    zero: V,
    distance: Dist,
    after: OrbitalEntity<V, S>,
) -> bool where
    V: Vector<S>,
    Dist: Fn(V, V) -> S,
 {
    &&& after.mass == snapshot[i].mass
    &&& exists|trace: Seq<V>|
        {
            &&& #[trigger] pull_trace(snapshot, i, zero, distance, trace)
            &&& is_kicked(snapshot[i].velocity, trace.last(), dt, after.velocity)
        }
    &&& is_drifted(snapshot[i].position, after.velocity, dt, after.position)
}

/// `after` is `snapshot` one tick of length `dt` later, under the law: the
/// same bodies under the same indices, each advanced against the whole of
/// `snapshot`.
pub open spec fn law_stepped<V, S, Dist>(
    snapshot: Seq<OrbitalEntity<V, S>>,
    dt: S,
    zero: V,
    distance: Dist,
    after: Seq<OrbitalEntity<V, S>>,
) -> bool where
    V: Vector<S>,
    Dist: Fn(V, V) -> S,
 {
    &&& after.len() == snapshot.len()
    &&& forall|i: int|
        0 <= i < snapshot.len() ==> law_advanced(
            snapshot,
            i,
            dt,
            zero,
            distance,
            #[trigger] after[i],
        )
}

/// `pull` is the law's pull at a distance that `distance` measured.
spec fn pull_follows_law<V, S, Dist, Pull>(distance: Dist, pull: Pull) -> bool where
    V: Vector<S>,
    Dist: Fn(V, V) -> S,
    Pull: Fn(V, &OrbitalEntity<V, S>, &OrbitalEntity<V, S>) -> V,
 {
    forall|acc: V, on: &OrbitalEntity<V, S>, from: &OrbitalEntity<V, S>, sum: V| #[trigger]
        pull.ensures((acc, on, from), sum) ==> exists|d: S|
            {
                &&& #[trigger] distance.ensures((on.position, from.position), d)
                &&& is_pulled(acc, on.position, from.position, from.mass, d, sum)
            }
}

/// A tick of the scheme under functions that follow the law is a tick under
/// the law.
proof fn lemma_scheme_under_law<V, S, Dist, Pull, Kick, Drift>(
    snapshot: Seq<OrbitalEntity<V, S>>,
    dt: S,
    zero: V,
    distance: Dist,
    pull: Pull,
    kick: Kick,
    drift: Drift,
    after: Seq<OrbitalEntity<V, S>>,
) where
    V: Vector<S>,
    Dist: Fn(V, V) -> S,
    Pull: Fn(V, &OrbitalEntity<V, S>, &OrbitalEntity<V, S>) -> V,
    Kick: Fn(&V, &V, S) -> V,
    Drift: Fn(&V, &V, S) -> V,

    requires
        stepped(snapshot, dt, zero, pull, kick, drift, after),
        pull_follows_law(distance, pull),
        forall|v: &V, net: &V, t: S, r: V| #[trigger]
            kick.ensures((v, net, t), r) ==> is_kicked(*v, *net, t, r),
        forall|p: &V, v: &V, t: S, r: V| #[trigger]
            drift.ensures((p, v, t), r) ==> is_drifted(*p, *v, t, r),
    ensures
        law_stepped(snapshot, dt, zero, distance, after),
{
    assert forall|i: int| 0 <= i < snapshot.len() implies law_advanced(
        snapshot,
        i,
        dt,
        zero,
        distance,
        #[trigger] after[i],
    ) by {
        assert(advanced(snapshot, i, dt, zero, pull, kick, drift, after[i]));
        let net = choose|net: V| #[trigger]
            net_influence_of(snapshot, i, zero, pull, net) && moved_by(
                snapshot[i],
                net,
                dt,
                kick,
                drift,
                after[i],
            );
        let trace = choose|trace: Seq<V>| #[trigger]
            influence_trace(snapshot, i, zero, pull, trace) && trace.last() == net;
        assert forall|j: int| #![trigger trace[j]] 0 <= j < snapshot.len() implies pull_link(
            snapshot,
            i,
            distance,
            j,
            trace[j],
            trace[j + 1],
        ) by {
            if j != i {
                assert(pull.ensures((trace[j], &snapshot[i], &snapshot[j]), trace[j + 1]));
            }
        }
        assert(pull_trace(snapshot, i, zero, distance, trace));
    }
}

/// Advances the store by one tick of length `dt` under the law of the
/// simulator.
///
/// Every body is advanced against the store as it was on entry. For every
/// body the pulls of all the other bodies are summed from `zero`, by
/// ascending index; the velocity changes by the negated sum times `dt`; the
/// position changes by the new velocity times `dt`. Length, order and masses
/// are kept.
///
/// Bodies in one place are not told apart from others: the pull between
/// them is divided by whatever `distance` measures, and what the division
/// by a zero distance yields goes into the sums like any other value.
pub fn step<V, S, Dist>(store: &mut BodyStore<V, S>, dt: S, zero: V, distance: &Dist) where
    V: Vector<S>,
    S: Copy,
    Dist: Fn(V, V) -> S,

    requires
        arithmetic_is_total::<V, S>(),
        forall|a: V, b: V| #[trigger] distance.requires((a, b)),
    ensures
        law_stepped(old(store)@, dt, zero, *distance, final(store)@),
{
    let pull_at = |acc: V, on: &OrbitalEntity<V, S>, from: &OrbitalEntity<V, S>| -> (sum: V)
        ensures
            exists|d: S|
                {
                    &&& #[trigger] distance.ensures((on.position, from.position), d)
                    &&& is_pulled(acc, on.position, from.position, from.mass, d, sum)
                },
        {
            let d = distance(on.pos(), from.pos());
            pull(acc, on, from, d)
        };
    let kick_by = |velocity: &V, net: &V, t: S| -> (after: V)
        ensures
            is_kicked(*velocity, *net, t, after),
        { kick(velocity, net, t) };
    let drift_by = |position: &V, velocity: &V, t: S| -> (after: V)
        ensures
            is_drifted(*position, *velocity, t, after),
        { drift(position, velocity, t) };
    step_with(store, dt, zero, &pull_at, &kick_by, &drift_by);
    proof {
        let before = old(store)@;
        lemma_scheme_under_law(before, dt, zero, *distance, pull_at, kick_by, drift_by, store@);
    }
}

/// Advances the store by one tick of length `dt` under the law of the
/// simulator, summing the pulls on different bodies in parallel.
///
/// The contract is that of [`step`].
pub fn step_parallel<V, S, Dist>(store: &mut BodyStore<V, S>, dt: S, zero: V, distance: &Dist) where
    V: Vector<S> + Send + Sync,
    S: Copy + Sync,
    Dist: Fn(V, V) -> S + Sync,

    requires
        arithmetic_is_total::<V, S>(),
        forall|a: V, b: V| #[trigger] distance.requires((a, b)),
    ensures
        law_stepped(old(store)@, dt, zero, *distance, final(store)@),
{
    let pull_at = |acc: V, on: &OrbitalEntity<V, S>, from: &OrbitalEntity<V, S>| -> (sum: V)
        ensures
            exists|d: S|
                {
                    &&& #[trigger] distance.ensures((on.position, from.position), d)
                    &&& is_pulled(acc, on.position, from.position, from.mass, d, sum)
                },
        {
            let d = distance(on.pos(), from.pos());
            pull(acc, on, from, d)
        };
    let kick_by = |velocity: &V, net: &V, t: S| -> (after: V)
        ensures
            is_kicked(*velocity, *net, t, after),
        { kick(velocity, net, t) };
    let drift_by = |position: &V, velocity: &V, t: S| -> (after: V)
        ensures
            is_drifted(*position, *velocity, t, after),
        { drift(position, velocity, t) };
    step_parallel_with(store, dt, zero, &pull_at, &kick_by, &drift_by);
    proof {
        let before = old(store)@;
        lemma_scheme_under_law(before, dt, zero, *distance, pull_at, kick_by, drift_by, store@);
    }
}

} // verus!
