use nbody::{BodyStore, OrbitalEntity};

fn body(x: f32, mass: f32) -> OrbitalEntity<[f32; 2], f32> {
    OrbitalEntity::new([x, -x], [0.5, 0.25], mass)
}

#[test]
fn new_body_keeps_its_attributes() {
    let b = OrbitalEntity::new([1.0f32, 2.0], [3.0f32, 4.0], 5.0f32);
    assert_eq!(b.position, [1.0, 2.0]);
    assert_eq!(b.velocity, [3.0, 4.0]);
    assert_eq!(b.mass, 5.0);
}

#[test]
fn pos_is_the_position() {
    let b = OrbitalEntity::new([7.5f32, -2.0], [1.0f32, 1.0], 60.0f32);
    assert_eq!(b.pos(), [7.5, -2.0]);
}

#[test]
fn r_vector_points_from_the_other_body_to_this_one() {
    let a = OrbitalEntity::new(7.5f32, 0.0f32, 1.0f32);
    let b = OrbitalEntity::new(-2.25f32, 0.0f32, 1.0f32);
    assert_eq!(a.r_vector(&b), 9.75);
    assert_eq!(b.r_vector(&a), -9.75);
    assert_eq!(a.r_vector(&a), 0.0);
}

#[test]
fn a_copy_of_a_body_equals_it() {
    let b = body(3.0, 30.0);
    let c = b.clone();
    assert_eq!(b, c);
}

#[test]
fn store_keeps_bodies_in_order() {
    let store = BodyStore::new(vec![body(1.0, 10.0), body(2.0, 20.0), body(3.0, 30.0)]);
    assert_eq!(store.len(), 3);
    assert_eq!(*store.get(0), body(1.0, 10.0));
    assert_eq!(*store.get(1), body(2.0, 20.0));
    assert_eq!(*store.get(2), body(3.0, 30.0));
}

#[test]
fn empty_store_has_length_zero() {
    let store: BodyStore<[f32; 2], f32> = BodyStore::new(Vec::new());
    assert_eq!(store.len(), 0);
    assert!(store.into_bodies().is_empty());
}

#[test]
fn set_replaces_one_body_only() {
    let mut store = BodyStore::new(vec![body(1.0, 10.0), body(2.0, 20.0), body(3.0, 30.0)]);
    store.set(1, body(9.0, 90.0));
    assert_eq!(store.len(), 3);
    assert_eq!(*store.get(0), body(1.0, 10.0));
    assert_eq!(*store.get(1), body(9.0, 90.0));
    assert_eq!(*store.get(2), body(3.0, 30.0));
}

#[test]
fn set_at_the_ends() {
    let mut store = BodyStore::new(vec![body(1.0, 10.0), body(2.0, 20.0)]);
    store.set(0, body(5.0, 50.0));
    store.set(1, body(6.0, 60.0));
    assert_eq!(store.into_bodies(), vec![body(5.0, 50.0), body(6.0, 60.0)]);
}

#[test]
fn into_bodies_gives_the_bodies_back() {
    let bodies = vec![body(4.0, 40.0), body(5.0, 50.0)];
    let store = BodyStore::new(bodies.clone());
    assert_eq!(store.into_bodies(), bodies);
}
