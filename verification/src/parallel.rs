//! A tick whose force-evaluation phase runs on rayon's thread pool.
//!
//! Only the evaluation of the net influences is handed out, one body per
//! task. Every task reads the same store, which nobody writes while they
//! run, and the fold inside one task is the sequential one, so the outcome
//! is the one [`step_with`](crate::engine::step_with) describes.

use vstd::prelude::*;
use rayon::iter::{IntoParallelIterator, ParallelIterator};
use crate::body::OrbitalEntity;
use crate::store::BodyStore;
use crate::engine::{
    apply_influences,
    move_is_total,
    net_influence,
    net_influence_of,
    pull_is_total,
    stepped,
};

verus! {

/// Runs [`net_influence`] for the bodies `0..n` on rayon's thread pool and
/// collects what the calls returned, by index.
///
/// Trusted, not proved: it rests on rayon's `into_par_iter` over a range,
/// `map` and `collect`. They call the mapped function once for every index
/// of the range, and a `Vec` collected from them holds the results in the
/// order of the range. So entry `i` is what one call of `net_influence` for
/// body `i` returned, and has what that function ensures.
#[verifier::external_body]
fn par_net_influences<V, S, Pull>(
    store: &BodyStore<V, S>,
    n: usize,
    zero: V,
    pull: &Pull,
) -> (nets: Vec<V>) where
    V: Copy + Send + Sync,
    S: Sync,
    Pull: Fn(V, &OrbitalEntity<V, S>, &OrbitalEntity<V, S>) -> V + Sync,

    requires
        n == store@.len(),
        pull_is_total(*pull),
    ensures
        nets@.len() == n,
        forall|i: int| 0 <= i < n ==> net_influence_of(store@, i, zero, *pull, #[trigger] nets@[i]),
{
    (0..n).into_par_iter().map(|i| net_influence(store, i, zero, pull)).collect()
}

/// Advances the store by one tick of length `dt`, evaluating the net
/// influences in parallel.
///
/// The contract is that of [`step_with`](crate::engine::step_with).
pub fn step_parallel_with<V, S, T, Pull, Kick, Drift>(
    store: &mut BodyStore<V, S>,
    dt: T,
    zero: V,
    pull: &Pull,
    kick: &Kick,
    drift: &Drift,
) where
    V: Copy + Send + Sync,
    S: Copy + Sync,
    T: Copy,
    Pull: Fn(V, &OrbitalEntity<V, S>, &OrbitalEntity<V, S>) -> V + Sync,
    Kick: Fn(&V, &V, T) -> V,
    Drift: Fn(&V, &V, T) -> V,

    requires
        pull_is_total(*pull),
        move_is_total(*kick),
        move_is_total(*drift),
    ensures
        stepped(old(store)@, dt, zero, *pull, *kick, *drift, final(store)@),
{
    let n = store.len();
    let nets = par_net_influences(store, n, zero, pull);
    apply_influences(store, &nets, dt, kick, drift);
}

} // verus!
