//! The stepping scheme: one tick of an all-pairs interaction, for any law.
//!
//! A tick reads the whole store as a frozen snapshot, folds for every body
//! the influence of every *other* body into one net vector, and then moves
//! the body: first its velocity by that net influence, then its position by
//! the new velocity. The law is the caller's, as three functions:
//!
//! * `pull(acc, on, from)` adds to `acc` what the body `from` exerts on the
//!   body `on`;
//! * `kick(velocity, net, dt)` is the velocity after the net influence `net`
//!   has acted for the time `dt`;
//! * `drift(position, velocity, dt)` is the position after moving with
//!   `velocity` for the time `dt`.
//!
//! The scheme fixes what is handed to them and in which order, and states its
//! results through their postconditions. [`crate::law`] holds the three
//! functions of the simulator's own law.

use vstd::prelude::*;
use crate::body::OrbitalEntity;
use crate::store::BodyStore;

verus! {

/// `pull` accepts every argument.
pub open spec fn pull_is_total<V, S, Pull>(pull: Pull) -> bool where
    Pull: Fn(V, &OrbitalEntity<V, S>, &OrbitalEntity<V, S>) -> V,
 {
    forall|acc: V, on: &OrbitalEntity<V, S>, from: &OrbitalEntity<V, S>| #[trigger]
        pull.requires((acc, on, from))
}

/// `f`, a function of two vectors and a time (`kick` or `drift`), accepts
/// every argument.
pub open spec fn move_is_total<V, T, Move: Fn(&V, &V, T) -> V>(f: Move) -> bool {
    forall|a: &V, b: &V, dt: T| #[trigger] f.requires((a, b, dt))
}

/// `trace` records one run of the fold for body `i`: it starts at `zero`,
/// holds one accumulator more for every body of `snapshot` visited, by
/// ascending index, stays as it is over body `i` itself, and goes through
/// `pull` for every other body.
pub open spec fn influence_trace<V, S, Pull>(
    snapshot: Seq<OrbitalEntity<V, S>>,
    i: int,
    zero: V,
    pull: Pull,
    trace: Seq<V>,
) -> bool where Pull: Fn(V, &OrbitalEntity<V, S>, &OrbitalEntity<V, S>) -> V {
    &&& trace.len() == snapshot.len() + 1
    &&& trace[0] == zero
    &&& forall|j: int|
        #![trigger trace[j]]
        0 <= j < snapshot.len() ==> if j == i {
            trace[j + 1] == trace[j]
        } else {
            pull.ensures((trace[j], &snapshot[i], &snapshot[j]), trace[j + 1])
        }
}

/// `net` is a net influence of all the other bodies of `snapshot` on body
/// `i`: the last accumulator of some run of the fold.
pub open spec fn net_influence_of<V, S, Pull>(
    snapshot: Seq<OrbitalEntity<V, S>>,
    i: int,
    zero: V,
    pull: Pull,
    net: V,
) -> bool where Pull: Fn(V, &OrbitalEntity<V, S>, &OrbitalEntity<V, S>) -> V {
    exists|trace: Seq<V>|
        {
            &&& #[trigger] influence_trace(snapshot, i, zero, pull, trace)
            &&& trace.last() == net
        }
}

/// `after` is `before` moved by the net influence `net` over the time `dt`:
/// the velocity went through `kick` with `net`, the position through `drift`
/// with the *new* velocity, and the mass is untouched.
pub open spec fn moved_by<V, S, T, Kick, Drift>(
    before: OrbitalEntity<V, S>,
    net: V,
    dt: T,
    kick: Kick,
    drift: Drift,
    after: OrbitalEntity<V, S>,
) -> bool where Kick: Fn(&V, &V, T) -> V, Drift: Fn(&V, &V, T) -> V {
    &&& after.mass == before.mass
    &&& kick.ensures((&before.velocity, &net, dt), after.velocity)
    &&& drift.ensures((&before.position, &after.velocity, dt), after.position)
}

/// `after` is body `i` of `snapshot` one tick of length `dt` later.
pub open spec fn advanced<V, S, T, Pull, Kick, Drift>(
    snapshot: Seq<OrbitalEntity<V, S>>,
    i: int,
    dt: T,
    zero: V,
    pull: Pull,
    kick: Kick,
    drift: Drift,
    after: OrbitalEntity<V, S>,
) -> bool where
    Pull: Fn(V, &OrbitalEntity<V, S>, &OrbitalEntity<V, S>) -> V,
    Kick: Fn(&V, &V, T) -> V,
    Drift: Fn(&V, &V, T) -> V,
 {
    exists|net: V|
        {
            &&& #[trigger] net_influence_of(snapshot, i, zero, pull, net)
            &&& moved_by(snapshot[i], net, dt, kick, drift, after)
        }
}

/// `after` is `snapshot` one tick of length `dt` later: the same bodies under
/// the same indices, each advanced against the whole of `snapshot`.
pub open spec fn stepped<V, S, T, Pull, Kick, Drift>(
    snapshot: Seq<OrbitalEntity<V, S>>,
    dt: T,
    zero: V,
    pull: Pull,
    kick: Kick,
    drift: Drift,
    after: Seq<OrbitalEntity<V, S>>,
) -> bool where
    Pull: Fn(V, &OrbitalEntity<V, S>, &OrbitalEntity<V, S>) -> V,
    Kick: Fn(&V, &V, T) -> V,
    Drift: Fn(&V, &V, T) -> V,
 {
    &&& after.len() == snapshot.len()
    &&& forall|i: int|
        0 <= i < snapshot.len() ==> advanced(
            snapshot,
            i,
            dt,
            zero,
            pull,
            kick,
            drift,
            #[trigger] after[i],
        )
}

/// The net influence of all the other bodies of the store on body `i`.
///
/// Bodies are visited by ascending index and body `i` is skipped: a body
/// does not pull on itself.
pub fn net_influence<V, S, Pull>(
    store: &BodyStore<V, S>,
    i: usize,
    zero: V,
    pull: &Pull,
) -> (net: V) where V: Copy, Pull: Fn(V, &OrbitalEntity<V, S>, &OrbitalEntity<V, S>) -> V
    requires
        i < store@.len(),
        pull_is_total(*pull),
    ensures
        net_influence_of(store@, i as int, zero, *pull, net),
{
    let n = store.len();
    let on = store.get(i);
    let mut acc = zero;
    let ghost mut trace: Seq<V> = seq![zero];
    let mut j: usize = 0;
    while j < n
        invariant
            n == store@.len(),
            i < n,
            j <= n,
            *on == store@[i as int],
            pull_is_total(*pull),
            trace.len() == j + 1,
            trace[0] == zero,
            trace[j as int] == acc,
            forall|k: int|
                #![trigger trace[k]]
                0 <= k < j ==> if k == i {
                    trace[k + 1] == trace[k]
                } else {
                    pull.ensures((trace[k], &store@[i as int], &store@[k]), trace[k + 1])
                },
        decreases n - j,
    {
        if j != i {
            acc = pull(acc, on, store.get(j));
        }
        proof {
            trace = trace.push(acc);
        }
        j += 1;
    }
    proof {
        assert(influence_trace(store@, i as int, zero, *pull, trace));
    }
    acc
}

/// Moves one body by a net influence that was already evaluated.
pub fn integrate<V, S, T, Kick, Drift>(
    body: &OrbitalEntity<V, S>,
    net: V,
    dt: T,
    kick: &Kick,
    drift: &Drift,
) -> (after: OrbitalEntity<V, S>) where
    S: Copy,
    T: Copy,
    Kick: Fn(&V, &V, T) -> V,
    Drift: Fn(&V, &V, T) -> V,

    requires
        move_is_total(*kick),
        move_is_total(*drift),
    ensures
        moved_by(*body, net, dt, *kick, *drift, after),
{
    let velocity = kick(&body.velocity, &net, dt);
    let position = drift(&body.position, &velocity, dt);
    OrbitalEntity { position, velocity, mass: body.mass }
}

/// The force-evaluation phase of a tick: the net influence on every body,
/// by index, all taken from the store as it stands.
pub fn net_influences<V, S, Pull>(
    store: &BodyStore<V, S>,
    zero: V,
    pull: &Pull,
) -> (nets: Vec<V>) where V: Copy, Pull: Fn(V, &OrbitalEntity<V, S>, &OrbitalEntity<V, S>) -> V
    requires
        pull_is_total(*pull),
    ensures
        nets@.len() == store@.len(),
        forall|i: int|
            0 <= i < store@.len() ==> net_influence_of(store@, i, zero, *pull, #[trigger] nets@[i]),
{
    let n = store.len();
    let mut nets: Vec<V> = Vec::new();
    let mut i: usize = 0;
    while i < n
        invariant
            n == store@.len(),
            i <= n,
            nets@.len() == i,
            pull_is_total(*pull),
            forall|k: int|
                0 <= k < i ==> net_influence_of(store@, k, zero, *pull, #[trigger] nets@[k]),
        decreases n - i,
    {
        let net = net_influence(store, i, zero, pull);
        nets.push(net);
        i += 1;
    }
    nets
}

/// The update phase of a tick: moves body `i` by `nets[i]`, for every `i`.
pub fn apply_influences<V, S, T, Kick, Drift>(
    store: &mut BodyStore<V, S>,
    nets: &Vec<V>,
    dt: T,
    kick: &Kick,
    drift: &Drift,
) where V: Copy, S: Copy, T: Copy, Kick: Fn(&V, &V, T) -> V, Drift: Fn(&V, &V, T) -> V
    requires
        nets@.len() == old(store)@.len(),
        move_is_total(*kick),
        move_is_total(*drift),
    ensures
        final(store)@.len() == old(store)@.len(),
        forall|i: int|
            0 <= i < old(store)@.len() ==> moved_by(
                old(store)@[i],
                nets@[i],
                dt,
                *kick,
                *drift,
                #[trigger] final(store)@[i],
            ),
{
    let n = store.len();
    let mut i: usize = 0;
    while i < n
        invariant
            n == old(store)@.len(),
            store@.len() == n,
            nets@.len() == n,
            i <= n,
            move_is_total(*kick),
            move_is_total(*drift),
            forall|k: int| i <= k < n ==> store@[k] == old(store)@[k],
            forall|k: int|
                0 <= k < i ==> moved_by(
                    old(store)@[k],
                    nets@[k],
                    dt,
                    *kick,
                    *drift,
                    #[trigger] store@[k],
                ),
        decreases n - i,
    {
        let after = integrate(store.get(i), nets[i], dt, kick, drift);
        store.set(i, after);
        i += 1;
    }
}

/// Advances the store by one tick of length `dt` under the law given by
/// `pull`, `kick` and `drift`.
///
/// Every body is advanced against the store as it was on entry: no body sees
/// another's update. Length, order and masses are kept.
pub fn step_with<V, S, T, Pull, Kick, Drift>(
    store: &mut BodyStore<V, S>,
    dt: T,
    zero: V,
    pull: &Pull,
    kick: &Kick,
    drift: &Drift,
) where
    V: Copy,
    S: Copy,
    T: Copy,
    Pull: Fn(V, &OrbitalEntity<V, S>, &OrbitalEntity<V, S>) -> V,
    Kick: Fn(&V, &V, T) -> V,
    Drift: Fn(&V, &V, T) -> V,

    requires
        pull_is_total(*pull),
        move_is_total(*kick),
        move_is_total(*drift),
    ensures
        stepped(old(store)@, dt, zero, *pull, *kick, *drift, final(store)@),
{
    let nets = net_influences(store, zero, pull);
    apply_influences(store, &nets, dt, kick, drift);
}

} // verus!
