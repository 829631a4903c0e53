use motion_planning::scalar::Scalar;
use motion_planning::vec::Vec3d;
use motion_planning::{Pose2, Segment2, Trajectory2};

fn s(n: i128) -> Scalar {
    Scalar::from_int(n)
}

fn v(a: i128, b: i128, c: i128) -> Vec3d {
    Vec3d(s(a), s(b), s(c))
}

#[test]
fn scalar_addition_is_commutative_and_associative() {
    let a = Scalar::new(1, 3);
    let b = Scalar::new(5, 2);
    let c = Scalar::new(-7, 4);
    assert!(a.add(b).eq_value(&b.add(a)));
    assert!(a.add(b).add(c).eq_value(&a.add(b.add(c))));
}

#[test]
fn scalar_multiplication_distributes_over_addition() {
    let f = Scalar::new(3, 7);
    let a = Scalar::new(1, 3);
    let b = Scalar::new(5, 2);
    assert!(f.mul(a.add(b)).eq_value(&f.mul(a).add(f.mul(b))));
}

#[test]
fn scalar_negation_is_additive_inverse() {
    let a = Scalar::new(9, 5);
    assert!(a.add(a.neg()).eq_value(&s(0)));
}

#[test]
fn vector_dot_product_is_symmetric() {
    let a = v(1, -2, 3);
    let b = v(4, 5, -6);
    assert!(a.dot(&b).eq_value(&b.dot(&a)));
}

#[test]
fn eq_value_sees_through_representation() {
    assert!(Scalar::new(1, 2).eq_value(&Scalar::new(2, 4)));
    assert!(!Scalar::new(1, 2).eq_value(&Scalar::new(2, 3)));
}

#[test]
fn display_reduces_to_lowest_terms() {
    assert_eq!(Scalar::new(2, 4).to_decimal_string(), "0.5");
    assert_eq!(Scalar::new(-5, 4).to_decimal_string(), "-1.25");
    assert_eq!(Scalar::new(20, 5).to_decimal_string(), "4");
}

#[test]
fn display_falls_back_to_fraction_form() {
    assert_eq!(Scalar::new(1, 3).to_decimal_string(), "1/3");
    assert_eq!(Scalar::new(-2, 7).to_decimal_string(), "-2/7");
}

fn two_state_waypoints() -> Vec<Pose2<Vec3d>> {
    vec![
        Pose2 { position: v(0, 0, 0), velocity: v(0, 1, 0) },
        Pose2 { position: v(0, 1, 0), velocity: v(0, 0, 0) },
    ]
}

#[test]
fn cubic_get_segment_selects_bounds() {
    let segment = two_state_waypoints();
    let t = Scalar::new(1, 4);
    assert_eq!(
        segment.get_segment(t),
        Some(Segment2(Scalar::new(1, 4), segment[0], segment[1]))
    );
}

#[test]
fn cubic_get_segment_none_when_empty() {
    let segment: Vec<Pose2<Vec3d>> = Vec::new();
    assert_eq!(segment.get_segment(Scalar::new(1, 2)), None);
    assert_eq!(segment.position_at(s(0)), None);
    assert_eq!(segment.velocity_at(s(0)), None);
}

#[test]
fn cubic_position_midway() {
    let segment = two_state_waypoints();
    // Position: 0*h0 + v0*h1 + v1*h2 + p1*h3 at one half:
    // h1(1/2) = 1/8, h3(1/2) = 1/2, so y = 1/8 + 1/2 = 5/8.
    let midway = segment.position_at(Scalar::new(1, 2)).unwrap();
    assert!(midway.eq_value(&Vec3d(s(0), Scalar::new(5, 8), s(0))));
}

#[test]
fn cubic_knots_reproduce_waypoints() {
    let segment = two_state_waypoints();
    for k in 0..2usize {
        let position = segment.position_at(s(k as i128)).unwrap();
        assert!(position.eq_value(&segment[k].position));
        let velocity = segment.velocity_at(s(k as i128)).unwrap();
        assert!(velocity.eq_value(&segment[k].velocity));
    }
}

#[test]
fn single_waypoint_is_degenerate_segment() {
    let segment = vec![Pose2 { position: v(3, 4, 5), velocity: v(1, 0, 0) }];
    let position = segment.position_at(s(0)).unwrap();
    assert!(position.eq_value(&segment[0].position));
    let velocity = segment.velocity_at(s(0)).unwrap();
    assert!(velocity.eq_value(&segment[0].velocity));
}
