use nbody::law::{drift, kick, pull};
use nbody::OrbitalEntity;
use std::ops::{Add, Div, Mul, Neg, Sub};

#[derive(Clone, Copy, Debug, PartialEq)]
struct V2 {
    x: f32,
    y: f32,
}

impl Add for V2 {
    type Output = V2;

    fn add(self, rhs: V2) -> V2 {
        V2 { x: self.x + rhs.x, y: self.y + rhs.y }
    }
}

impl Sub for V2 {
    type Output = V2;

    fn sub(self, rhs: V2) -> V2 {
        V2 { x: self.x - rhs.x, y: self.y - rhs.y }
    }
}

impl Neg for V2 {
    type Output = V2;

    fn neg(self) -> V2 {
        V2 { x: -self.x, y: -self.y }
    }
}

impl Mul<f32> for V2 {
    type Output = V2;

    fn mul(self, rhs: f32) -> V2 {
        V2 { x: self.x * rhs, y: self.y * rhs }
    }
}

impl Div<f32> for V2 {
    type Output = V2;

    fn div(self, rhs: f32) -> V2 {
        V2 { x: self.x / rhs, y: self.y / rhs }
    }
}

const ZERO: V2 = V2 { x: 0.0, y: 0.0 };

fn v(x: f32, y: f32) -> V2 {
    V2 { x, y }
}

fn at_rest(x: f32, y: f32, mass: f32) -> OrbitalEntity<V2, f32> {
    OrbitalEntity::new(v(x, y), ZERO, mass)
}

#[test]
fn r_vector_is_the_difference_of_the_positions() {
    let a = at_rest(3.0, 4.0, 1.0);
    let b = at_rest(-1.0, 6.5, 1.0);
    assert_eq!(a.r_vector(&b), v(4.0, -2.5));
    assert_eq!(b.r_vector(&a), v(-4.0, 2.5));
}

#[test]
fn pull_is_the_unit_vector_scaled_by_the_pulling_mass() {
    let on = at_rest(3.0, 4.0, 7.0);
    let from = at_rest(0.0, 0.0, 80.0);
    // (3, 4) / 5 * 80
    assert_eq!(pull(ZERO, &on, &from, 5.0), v(3.0 / 5.0 * 80.0, 4.0 / 5.0 * 80.0));
    assert_eq!(pull(ZERO, &on, &from, 5.0), v(48.0, 64.0));
}

#[test]
fn pull_does_not_weaken_with_distance() {
    let from = at_rest(0.0, 0.0, 10.0);
    let near = at_rest(2.0, 0.0, 1.0);
    let far = at_rest(2048.0, 0.0, 1.0);
    assert_eq!(pull(ZERO, &near, &from, 2.0), v(10.0, 0.0));
    assert_eq!(pull(ZERO, &far, &from, 2048.0), v(10.0, 0.0));
}

#[test]
fn pull_adds_to_what_was_summed_before() {
    let on = at_rest(3.0, 4.0, 7.0);
    let from = at_rest(0.0, 0.0, 80.0);
    assert_eq!(pull(v(1.0, -64.0), &on, &from, 5.0), v(49.0, 0.0));
}

#[test]
fn pull_ignores_velocity_and_own_mass() {
    let from = at_rest(0.0, 0.0, 80.0);
    let slow = OrbitalEntity::new(v(3.0, 4.0), ZERO, 7.0);
    let fast = OrbitalEntity::new(v(3.0, 4.0), v(100.0, -100.0), 7000.0);
    assert_eq!(pull(ZERO, &slow, &from, 5.0), pull(ZERO, &fast, &from, 5.0));
}

#[test]
fn pulls_between_equal_masses_are_exactly_opposite() {
    let a = at_rest(1.25, -7.5, 42.0);
    let b = at_rest(-3.0, 11.0, 42.0);
    let d = (4.25f32 * 4.25 + 18.5 * 18.5).sqrt();
    let on_a = pull(ZERO, &a, &b, d);
    let on_b = pull(ZERO, &b, &a, d);
    assert_eq!(on_a, -on_b);
    assert!(on_a.x > 0.0 && on_a.y < 0.0);
}

#[test]
fn pulls_between_unequal_masses_differ_as_the_masses_do() {
    let a = at_rest(-10.0, 0.0, 100.0);
    let b = at_rest(10.0, 0.0, 300.0);
    let on_a = pull(ZERO, &a, &b, 20.0);
    let on_b = pull(ZERO, &b, &a, 20.0);
    assert_eq!(on_a, v(-300.0, 0.0));
    assert_eq!(on_b, v(100.0, 0.0));
    assert_eq!(on_a * a.mass, -(on_b * b.mass));
    assert!(on_a != -on_b);
}

#[test]
fn pull_at_distance_zero_is_not_finite() {
    let a = at_rest(5.0, 5.0, 1.0);
    let b = at_rest(5.0, 5.0, 1.0);
    let sum = pull(ZERO, &a, &b, 0.0);
    assert!(sum.x.is_nan() && sum.y.is_nan());
    let c = at_rest(6.0, 5.0, 1.0);
    let sum = pull(ZERO, &c, &a, 0.0);
    assert!(sum.x.is_infinite() && sum.y.is_nan());
}

#[test]
fn kick_adds_the_negated_influence_times_dt() {
    assert_eq!(kick(&v(2.0, 0.0), &v(-4.0, 8.0), 0.5), v(4.0, -4.0));
    assert_eq!(
        kick(&v(1.0, 1.0), &v(100.0, -50.0), 0.02),
        v(1.0 + -100.0 * 0.02, 1.0 + 50.0 * 0.02)
    );
}

#[test]
fn kick_by_nothing_keeps_the_velocity() {
    assert_eq!(kick(&v(3.0, -4.0), &ZERO, 0.5), v(3.0, -4.0));
    assert_eq!(kick(&ZERO, &ZERO, 0.002), ZERO);
}

#[test]
fn drift_adds_the_velocity_times_dt() {
    assert_eq!(drift(&v(1.0, 2.0), &v(3.0, -4.0), 0.5), v(2.5, 0.0));
    assert_eq!(drift(&v(-10.0, 0.0), &v(2.0, 0.0), 0.02), v(-10.0 + 2.0 * 0.02, 0.0));
}

#[test]
fn law_works_on_plain_numbers_too() {
    let a = OrbitalEntity::new(30i64, 0i64, 100i64);
    let b = OrbitalEntity::new(10i64, 0i64, 3i64);
    assert_eq!(pull(7, &a, &b, 5), 19);
    assert_eq!(kick(&3i64, &4i64, 2i64), -5);
    assert_eq!(drift(&10i64, &-5i64, 2i64), 0);
}
