//! What holds of the stepping scheme under every law, proved from the
//! contracts of [`crate::engine`].

use vstd::prelude::*;
use crate::body::OrbitalEntity;
use crate::engine::{advanced, influence_trace, moved_by, net_influence_of, stepped};

verus! {

/// `pull` is a function: its arguments determine its result.
pub open spec fn pull_is_function<V, S, Pull>(pull: Pull) -> bool where
    Pull: Fn(V, &OrbitalEntity<V, S>, &OrbitalEntity<V, S>) -> V,
 {
    forall|acc: V, on: &OrbitalEntity<V, S>, from: &OrbitalEntity<V, S>, r1: V, r2: V|
        #[trigger] pull.ensures((acc, on, from), r1) && #[trigger] pull.ensures(
            (acc, on, from),
            r2,
        ) ==> r1 == r2
}

/// `f`, a function of two vectors and a time (`kick` or `drift`), is a
/// function: its arguments determine its result.
pub open spec fn move_is_function<V, T, Move: Fn(&V, &V, T) -> V>(f: Move) -> bool {
    forall|a: &V, b: &V, dt: T, r1: V, r2: V|
        #[trigger] f.ensures((a, b, dt), r1) && #[trigger] f.ensures((a, b, dt), r2) ==> r1 == r2
}

/// Two runs of the fold for one body over one snapshot hold the same
/// accumulator after every visit, if `pull` is a function.
proof fn lemma_traces_agree<V, S, Pull>(
    snapshot: Seq<OrbitalEntity<V, S>>,
    i: int,
    zero: V,
    pull: Pull,
    first: Seq<V>,
    second: Seq<V>,
    k: int,
) where Pull: Fn(V, &OrbitalEntity<V, S>, &OrbitalEntity<V, S>) -> V
    requires
        pull_is_function(pull),
        influence_trace(snapshot, i, zero, pull, first),
        influence_trace(snapshot, i, zero, pull, second),
        0 <= k <= snapshot.len(),
    ensures
        first[k] == second[k],
    decreases k,
{
    if k > 0 {
        lemma_traces_agree(snapshot, i, zero, pull, first, second, k - 1);
        let j = k - 1;
        assert(first[j] == second[j]);
        assert(first[j + 1] == second[j + 1]);
    }
}

/// The net influence on a body is determined by the snapshot, if `pull` is a
/// function.
pub proof fn lemma_net_influence_deterministic<V, S, Pull>(
    snapshot: Seq<OrbitalEntity<V, S>>,
    i: int,
    zero: V,
    pull: Pull,
    first: V,
    second: V,
) where Pull: Fn(V, &OrbitalEntity<V, S>, &OrbitalEntity<V, S>) -> V
    requires
        pull_is_function(pull),
        net_influence_of(snapshot, i, zero, pull, first),
        net_influence_of(snapshot, i, zero, pull, second),
    ensures
        first == second,
{
    let t1 = choose|t: Seq<V>| #[trigger]
        influence_trace(snapshot, i, zero, pull, t) && t.last() == first;
    let t2 = choose|t: Seq<V>| #[trigger]
        influence_trace(snapshot, i, zero, pull, t) && t.last() == second;
    lemma_traces_agree(snapshot, i, zero, pull, t1, t2, snapshot.len() as int);
}

/// Determinism: a tick has one outcome. If the three functions of the law
/// are functions, any two stores that a tick can leave behind, started from
/// the same snapshot with the same `dt`, are equal, body for body.
pub proof fn lemma_step_deterministic<V, S, T, Pull, Kick, Drift>(
    snapshot: Seq<OrbitalEntity<V, S>>,
    dt: T,
    zero: V,
    pull: Pull,
    kick: Kick,
    drift: Drift,
    first: Seq<OrbitalEntity<V, S>>,
    second: Seq<OrbitalEntity<V, S>>,
) where
    Pull: Fn(V, &OrbitalEntity<V, S>, &OrbitalEntity<V, S>) -> V,
    Kick: Fn(&V, &V, T) -> V,
    Drift: Fn(&V, &V, T) -> V,

    requires
        pull_is_function(pull),
        move_is_function(kick),
        move_is_function(drift),
        stepped(snapshot, dt, zero, pull, kick, drift, first),
        stepped(snapshot, dt, zero, pull, kick, drift, second),
    ensures
        first == second,
{
    assert forall|i: int| 0 <= i < snapshot.len() implies first[i] == second[i] by {
        assert(advanced(snapshot, i, dt, zero, pull, kick, drift, first[i]));
        assert(advanced(snapshot, i, dt, zero, pull, kick, drift, second[i]));
        let n1 = choose|net: V| #[trigger]
            net_influence_of(snapshot, i, zero, pull, net) && moved_by(
                snapshot[i],
                net,
                dt,
                kick,
                drift,
                first[i],
            );
        let n2 = choose|net: V| #[trigger]
            net_influence_of(snapshot, i, zero, pull, net) && moved_by(
                snapshot[i],
                net,
                dt,
                kick,
                drift,
                second[i],
            );
        lemma_net_influence_deterministic(snapshot, i, zero, pull, n1, n2);
        assert(first[i].velocity == second[i].velocity);
        assert(first[i].position == second[i].position);
    }
    assert(first =~= second);
}

/// The two phases of a tick may be run apart. Net influences that were
/// evaluated body by body against one snapshot, in whatever order and by
/// whomever, and then applied to that snapshot, make a tick.
pub proof fn lemma_phases_make_a_step<V, S, T, Pull, Kick, Drift>(
    snapshot: Seq<OrbitalEntity<V, S>>,
    dt: T,
    zero: V,
    pull: Pull,
    kick: Kick,
    drift: Drift,
    nets: Seq<V>,
    after: Seq<OrbitalEntity<V, S>>,
) where
    Pull: Fn(V, &OrbitalEntity<V, S>, &OrbitalEntity<V, S>) -> V,
    Kick: Fn(&V, &V, T) -> V,
    Drift: Fn(&V, &V, T) -> V,

    requires
        nets.len() == snapshot.len(),
        after.len() == snapshot.len(),
        forall|i: int|
            0 <= i < snapshot.len() ==> net_influence_of(
                snapshot,
                i,
                zero,
                pull,
                #[trigger] nets[i],
            ),
        forall|i: int|
            0 <= i < snapshot.len() ==> moved_by(
                snapshot[i],
                nets[i],
                dt,
                kick,
                drift,
                #[trigger] after[i],
            ),
    ensures
        stepped(snapshot, dt, zero, pull, kick, drift, after),
{
    assert forall|i: int| 0 <= i < snapshot.len() implies advanced(
        snapshot,
        i,
        dt,
        zero,
        pull,
        kick,
        drift,
        #[trigger] after[i],
    ) by {
        assert(net_influence_of(snapshot, i, zero, pull, nets[i]));
    }
}

/// A lone body feels nothing: in a store of one body the tick moves that
/// body by the `zero` influence, whatever `pull` is.
pub proof fn lemma_lone_body<V, S, T, Pull, Kick, Drift>(
    snapshot: Seq<OrbitalEntity<V, S>>,
    dt: T,
    zero: V,
    pull: Pull,
    kick: Kick,
    drift: Drift,
    after: Seq<OrbitalEntity<V, S>>,
) where
    Pull: Fn(V, &OrbitalEntity<V, S>, &OrbitalEntity<V, S>) -> V,
    Kick: Fn(&V, &V, T) -> V,
    Drift: Fn(&V, &V, T) -> V,

    requires
        snapshot.len() == 1,
        stepped(snapshot, dt, zero, pull, kick, drift, after),
    ensures
        after.len() == 1,
        moved_by(snapshot[0], zero, dt, kick, drift, after[0]),
{
    assert(advanced(snapshot, 0, dt, zero, pull, kick, drift, after[0]));
    let net = choose|net: V| #[trigger]
        net_influence_of(snapshot, 0, zero, pull, net) && moved_by(
            snapshot[0],
            net,
            dt,
            kick,
            drift,
            after[0],
        );
    let trace = choose|t: Seq<V>| #[trigger]
        influence_trace(snapshot, 0, zero, pull, t) && t.last() == net;
    assert(trace[0] == zero);
    assert(trace[1] == trace[0]);
}

/// The two bodies of a pair pull on each other through the same function
/// with the roles exchanged: in a store of two bodies, body 0 is moved by
/// what `pull` makes of (itself, the other), body 1 by what `pull` makes of
/// (itself, the other), and both sums start from `zero`.
pub proof fn lemma_pair_exchange<V, S, T, Pull, Kick, Drift>(
    snapshot: Seq<OrbitalEntity<V, S>>,
    dt: T,
    zero: V,
    pull: Pull,
    kick: Kick,
    drift: Drift,
    after: Seq<OrbitalEntity<V, S>>,
) where
    Pull: Fn(V, &OrbitalEntity<V, S>, &OrbitalEntity<V, S>) -> V,
    Kick: Fn(&V, &V, T) -> V,
    Drift: Fn(&V, &V, T) -> V,

    requires
        snapshot.len() == 2,
        stepped(snapshot, dt, zero, pull, kick, drift, after),
    ensures
        exists|on_first: V, on_second: V|
            {
                &&& #[trigger] pull.ensures((zero, &snapshot[0], &snapshot[1]), on_first)
                &&& #[trigger] pull.ensures((zero, &snapshot[1], &snapshot[0]), on_second)
                &&& moved_by(snapshot[0], on_first, dt, kick, drift, after[0])
                &&& moved_by(snapshot[1], on_second, dt, kick, drift, after[1])
            },
{
    assert(advanced(snapshot, 0, dt, zero, pull, kick, drift, after[0]));
    assert(advanced(snapshot, 1, dt, zero, pull, kick, drift, after[1]));
    let n0 = choose|net: V| #[trigger]
        net_influence_of(snapshot, 0, zero, pull, net) && moved_by(
            snapshot[0],
            net,
            dt,
            kick,
            drift,
            after[0],
        );
    let n1 = choose|net: V| #[trigger]
        net_influence_of(snapshot, 1, zero, pull, net) && moved_by(
            snapshot[1],
            net,
            dt,
            kick,
            drift,
            after[1],
        );
    let t0 = choose|t: Seq<V>| #[trigger]
        influence_trace(snapshot, 0, zero, pull, t) && t.last() == n0;
    let t1 = choose|t: Seq<V>| #[trigger]
        influence_trace(snapshot, 1, zero, pull, t) && t.last() == n1;
    assert(t0[1] == t0[0]);
    assert(pull.ensures((t0[1], &snapshot[0], &snapshot[1]), t0[2]));
    assert(pull.ensures((t1[0], &snapshot[1], &snapshot[0]), t1[1]));
    assert(t1[2] == t1[1]);
}

} // verus!
