use nbody::{initialize, BodyStore, Interval, OrbitalEntity, SimulationConfig, SpawnRanges};
use rand::Rng;
use std::cell::RefCell;

const WIDTH: u32 = 1280;
const HEIGHT: u32 = 720;
const SCALE: f32 = 10.0;

fn run_of(body_count: usize) -> SimulationConfig<f32> {
    SimulationConfig::new(body_count, 0.002, &0.0).unwrap()
}

fn between(low: f32, high: f32) -> Interval<f32> {
    Interval { low, high }
}

fn ranges() -> SpawnRanges<f32> {
    let half_width = WIDTH as f32 / 2.0 * SCALE;
    let half_height = HEIGHT as f32 / 2.0 * SCALE;
    SpawnRanges {
        x: between(-half_width, half_width),
        y: between(-half_height, half_height),
        velocity: between(-50.0, 50.0),
        heavy_mass: between(500.0, 1500.0),
        light_mass: between(50.0, 500.0),
    }
}

fn random(range: &Interval<f32>) -> f32 {
    rand::thread_rng().gen_range(range.low..range.high)
}

fn lowest(range: &Interval<f32>) -> f32 {
    range.low
}

fn pair(a: f32, b: f32) -> [f32; 2] {
    [a, b]
}

#[test]
fn a_copy_of_the_ranges_equals_them() {
    let r = ranges();
    assert_eq!(r.clone(), r);
    assert_eq!(r.x.clone(), between(-6400.0, 6400.0));
    assert_eq!(r.y.clone(), between(-3600.0, 3600.0));
}

#[test]
fn mass_range_is_heavy_for_the_first_index_only() {
    let ranges = ranges();
    assert_eq!(*ranges.mass_range(0), between(500.0, 1500.0));
    assert_eq!(*ranges.mass_range(1), between(50.0, 500.0));
    assert_eq!(*ranges.mass_range(2), between(50.0, 500.0));
    assert_eq!(*ranges.mass_range(usize::MAX), between(50.0, 500.0));
}

#[test]
fn every_attribute_is_drawn_from_its_own_interval() {
    let store = initialize(&run_of(3), &ranges(), &lowest, &pair);
    assert_eq!(store.len(), 3);
    assert_eq!(
        *store.get(0),
        OrbitalEntity::new([-6400.0, -3600.0], [-50.0, -50.0], 500.0)
    );
    for i in 1..3 {
        assert_eq!(
            *store.get(i),
            OrbitalEntity::new([-6400.0, -3600.0], [-50.0, -50.0], 50.0)
        );
    }
}

#[test]
fn one_body_is_the_heavy_one() {
    let store = initialize(&run_of(1), &ranges(), &lowest, &pair);
    assert_eq!(store.len(), 1);
    assert_eq!(store.get(0).mass, 500.0);
}

#[test]
fn draws_come_in_the_order_mass_position_velocity() {
    let asked = RefCell::new(Vec::new());
    let numbered = |range: &Interval<f32>| {
        asked.borrow_mut().push(*range);
        asked.borrow().len() as f32
    };
    let store = initialize(&run_of(2), &ranges(), &numbered, &pair);
    let r = ranges();
    assert_eq!(
        *asked.borrow(),
        vec![
            r.heavy_mass,
            r.x,
            r.y,
            r.velocity,
            r.velocity,
            r.light_mass,
            r.x,
            r.y,
            r.velocity,
            r.velocity,
        ]
    );
    assert_eq!(*store.get(0), OrbitalEntity::new([2.0, 3.0], [4.0, 5.0], 1.0));
    assert_eq!(*store.get(1), OrbitalEntity::new([7.0, 8.0], [9.0, 10.0], 6.0));
}

#[test]
fn random_masses_lie_in_the_range_of_their_class() {
    for &count in &[2usize, 3, 50, 1000] {
        let store: BodyStore<[f32; 2], f32> = initialize(&run_of(count), &ranges(), &random, &pair);
        assert_eq!(store.len(), count);
        let heavy = store.get(0).mass;
        assert!(500.0 <= heavy && heavy < 1500.0);
        for i in 1..count {
            let light = store.get(i).mass;
            assert!(50.0 <= light && light < 500.0);
        }
    }
}

#[test]
fn random_positions_lie_in_the_rectangle() {
    let store = initialize(&run_of(1000), &ranges(), &random, &pair);
    for i in 0..store.len() {
        let [x, y] = store.get(i).position;
        assert!(-6400.0 <= x && x < 6400.0);
        assert!(-3600.0 <= y && y < 3600.0);
        let [vx, vy] = store.get(i).velocity;
        assert!(-50.0 <= vx && vx < 50.0);
        assert!(-50.0 <= vy && vy < 50.0);
    }
}

#[test]
fn random_bodies_differ() {
    let store = initialize(&run_of(50), &ranges(), &random, &pair);
    let first = *store.get(1);
    assert!((2..50).any(|i| *store.get(i) != first));
}
