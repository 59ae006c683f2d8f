use nbody::{
    apply_influences, integrate, net_influence, net_influences, step_parallel_with, step_with,
    BodyStore, OrbitalEntity,
};

type Body = OrbitalEntity<i64, i64>;

fn add_mass(acc: i64, _on: &Body, from: &Body) -> i64 {
    acc + from.mass
}

fn append_positions(acc: i64, on: &Body, from: &Body) -> i64 {
    (acc * 10 + on.position) * 10 + from.position
}

fn kick(velocity: &i64, net: &i64, dt: i64) -> i64 {
    *velocity + *net * dt
}

fn drift(position: &i64, velocity: &i64, dt: i64) -> i64 {
    *position + *velocity * dt
}

fn weights() -> Vec<Body> {
    vec![
        OrbitalEntity::new(0, 0, 1),
        OrbitalEntity::new(0, 0, 10),
        OrbitalEntity::new(0, 0, 100),
        OrbitalEntity::new(0, 0, 1000),
    ]
}

fn row() -> Vec<Body> {
    vec![
        OrbitalEntity::new(1, 0, 0),
        OrbitalEntity::new(2, 0, 0),
        OrbitalEntity::new(3, 0, 0),
        OrbitalEntity::new(4, 0, 0),
    ]
}

#[test]
fn net_influence_sums_every_other_mass_once() {
    let store = BodyStore::new(weights());
    assert_eq!(net_influence(&store, 0, 0, &add_mass), 1110);
    assert_eq!(net_influence(&store, 1, 0, &add_mass), 1101);
    assert_eq!(net_influence(&store, 2, 0, &add_mass), 1011);
    assert_eq!(net_influence(&store, 3, 0, &add_mass), 111);
}

#[test]
fn net_influence_starts_from_zero_argument() {
    let store = BodyStore::new(weights());
    assert_eq!(net_influence(&store, 2, 7, &add_mass), 1018);
}

#[test]
fn net_influence_on_a_lone_body_is_zero_argument() {
    let store = BodyStore::new(vec![OrbitalEntity::new(5, 5, 5)]);
    assert_eq!(net_influence(&store, 0, 42, &add_mass), 42);
}

#[test]
fn net_influence_visits_the_others_by_ascending_index() {
    let store = BodyStore::new(row());
    assert_eq!(net_influence(&store, 0, 0, &append_positions), 121314);
    assert_eq!(net_influence(&store, 2, 0, &append_positions), 313234);
    assert_eq!(net_influence(&store, 3, 0, &append_positions), 414243);
}

#[test]
fn net_influences_holds_one_entry_per_body() {
    let store = BodyStore::new(weights());
    assert_eq!(net_influences(&store, 0, &add_mass), vec![1110, 1101, 1011, 111]);
    let empty: BodyStore<i64, i64> = BodyStore::new(Vec::new());
    assert_eq!(net_influences(&empty, 0, &add_mass), Vec::<i64>::new());
}

#[test]
fn integrate_kicks_then_drifts_with_the_new_velocity() {
    let body = OrbitalEntity::new(100, 1, 9);
    let after = integrate(&body, 10, 2, &kick, &drift);
    assert_eq!(after, OrbitalEntity::new(142, 21, 9));
}

#[test]
fn apply_influences_moves_each_body_by_its_own_entry() {
    let mut store = BodyStore::new(vec![
        OrbitalEntity::new(100, 1, 5),
        OrbitalEntity::new(200, 2, 6),
        OrbitalEntity::new(300, 3, 7),
    ]);
    apply_influences(&mut store, &vec![10, 20, 30], 2, &kick, &drift);
    assert_eq!(
        store.into_bodies(),
        vec![
            OrbitalEntity::new(142, 21, 5),
            OrbitalEntity::new(284, 42, 6),
            OrbitalEntity::new(426, 63, 7),
        ]
    );
}

#[test]
fn step_with_reads_the_store_as_it_was() {
    // Every body is pulled by the old positions of the others, also of
    // those that were moved before it.
    let by_position = |acc: i64, _on: &Body, from: &Body| acc + from.position;
    let mut store = BodyStore::new(row());
    step_with(&mut store, 1, 0, &by_position, &kick, &drift);
    assert_eq!(
        store.into_bodies(),
        vec![
            OrbitalEntity::new(1 + 9, 9, 0),
            OrbitalEntity::new(2 + 8, 8, 0),
            OrbitalEntity::new(3 + 7, 7, 0),
            OrbitalEntity::new(4 + 6, 6, 0),
        ]
    );
}

#[test]
fn step_with_keeps_length_order_and_masses() {
    let mut store = BodyStore::new(weights());
    step_with(&mut store, 3, 0, &add_mass, &kick, &drift);
    assert_eq!(
        store.into_bodies(),
        vec![
            OrbitalEntity::new(9990, 3330, 1),
            OrbitalEntity::new(9909, 3303, 10),
            OrbitalEntity::new(9099, 3033, 100),
            OrbitalEntity::new(999, 333, 1000),
        ]
    );
}

#[test]
fn step_with_on_an_empty_store_does_nothing() {
    let mut store: BodyStore<i64, i64> = BodyStore::new(Vec::new());
    step_with(&mut store, 1, 0, &add_mass, &kick, &drift);
    assert_eq!(store.len(), 0);
}

#[test]
fn phases_run_apart_make_the_same_step() {
    let mut whole = BodyStore::new(row());
    step_with(&mut whole, 2, 0, &append_positions, &kick, &drift);

    let mut backwards = BodyStore::new(row());
    let mut nets = vec![0; backwards.len()];
    for i in (0..backwards.len()).rev() {
        nets[i] = net_influence(&backwards, i, 0, &append_positions);
    }
    apply_influences(&mut backwards, &nets, 2, &kick, &drift);
    assert_eq!(whole, backwards);
}

#[test]
fn parallel_scheme_agrees_with_the_sequential_one() {
    let bodies: Vec<Body> = (0..500).map(|i| OrbitalEntity::new(i % 7, i % 3, i)).collect();
    let mut sequential = BodyStore::new(bodies.clone());
    let mut parallel = BodyStore::new(bodies.clone());
    step_with(&mut sequential, 2, 0, &add_mass, &kick, &drift);
    step_parallel_with(&mut parallel, 2, 0, &add_mass, &kick, &drift);
    assert_eq!(sequential, parallel);
    assert_eq!(parallel.len(), 500);
    // 0 + 1 + ... + 499 = 124750, less the body's own mass, times dt.
    assert_eq!(parallel.get(10).velocity, 10 % 3 + (124750 - 10) * 2);
    assert!(parallel.into_bodies() != bodies);
}
