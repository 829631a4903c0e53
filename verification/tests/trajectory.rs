use motion_planning::scalar::Scalar;
use motion_planning::vec::Vec3d;
use motion_planning::{Pose3, Segment3, Trajectory3};

fn s(n: i128) -> Scalar {
    Scalar::from_int(n)
}

fn v(a: i128, b: i128, c: i128) -> Vec3d {
    Vec3d(s(a), s(b), s(c))
}

fn three_waypoints() -> Vec<Pose3<Vec3d>> {
    vec![
        // Start at origin, moving north at one unit per second.
        Pose3 { position: v(0, 0, 0), velocity: v(0, 1, 0), acceleration: v(0, 0, 0) },
        // Stop at (0,1,0).
        Pose3 { position: v(0, 1, 0), velocity: v(0, 0, 0), acceleration: v(0, 0, 0) },
        // Pass through (0,2,0), moving north at one unit per second.
        Pose3 { position: v(0, 2, 0), velocity: v(0, 1, 0), acceleration: v(0, 0, 0) },
    ]
}

#[test]
fn get_segment_returns_correct_segment() {
    let segment = three_waypoints();

    for k in 0..=8u32 {
        let t = Scalar::new(k as i128, 4);
        let fract = Scalar::new((k % 4) as i128, 4);
        let prec = (k / 4) as usize;
        let succ = if k % 4 == 0 { prec } else { prec + 1 };
        assert_eq!(
            segment.get_segment(t),
            Some(Segment3(fract, segment[prec], segment[succ]))
        );
    }
}

#[test]
fn get_segment_returns_none_on_zero_length_vec() {
    let segment: Vec<Pose3<Vec3d>> = Vec::new();

    assert_eq!(segment.get_segment(Scalar::new(1, 2)), None);
}

#[test]
fn position_correct_straight_line() {
    let mut segment = Vec::new();

    segment.push(Pose3 { position: v(0, 0, 0), velocity: v(0, 0, 0), acceleration: v(0, 0, 0) });

    segment.push(Pose3 { position: v(0, 1, 0), velocity: v(0, 0, 0), acceleration: v(0, 0, 0) });

    let at_start = segment.position_at(s(0)).unwrap();
    assert!(at_start.eq_value(&segment[0].position));

    let midway = segment.position_at(Scalar::new(1, 2)).unwrap();
    assert!(midway.eq_value(&Vec3d(s(0), Scalar::new(1, 2), s(0))));

    let at_end = segment.position_at(s(1)).unwrap();
    assert!(at_end.eq_value(&segment[1].position));
}

#[test]
fn position_length_zero() {
    let segment: Vec<Pose3<Vec3d>> = Vec::new();

    assert_eq!(segment.position_at(s(0)), None);
}

#[test]
fn velocity_length_zero() {
    let segment: Vec<Pose3<Vec3d>> = Vec::new();

    assert_eq!(segment.velocity_at(s(0)), None);
}

#[test]
fn acceleration_length_zero() {
    let segment: Vec<Pose3<Vec3d>> = Vec::new();

    assert_eq!(segment.acceleration_at(s(0)), None);
}

#[test]
fn velocity_correct_straight_line_opp_starts() {
    let mut segment = Vec::new();

    segment.push(Pose3 { position: v(0, 0, 0), velocity: v(0, 1, 0), acceleration: v(0, 0, 0) });

    segment.push(Pose3 { position: v(0, 1, 0), velocity: v(0, 0, 0), acceleration: v(0, 0, 0) });

    let at_start = segment.velocity_at(s(0)).unwrap();
    assert!(at_start.eq_value(&segment[0].velocity));

    let midway = segment.velocity_at(Scalar::new(1, 2)).unwrap();
    assert!(midway.eq_value(&Vec3d(s(0), Scalar::new(23, 16), s(0))));

    let at_end = segment.velocity_at(s(1)).unwrap();
    assert!(at_end.eq_value(&segment[1].velocity));
}

#[test]
fn acceleration_correct_curve() {
    let mut segment = Vec::new();

    segment.push(Pose3 { position: v(0, 0, 0), velocity: v(0, 1, 0), acceleration: v(1, 0, 0) });

    segment.push(Pose3 { position: v(1, 1, 0), velocity: v(1, 0, 0), acceleration: v(0, -1, 0) });

    let at_start = segment.acceleration_at(s(0)).unwrap();
    assert!(at_start.eq_value(&segment[0].acceleration));

    let midway = segment.acceleration_at(Scalar::new(1, 2)).unwrap();
    assert!(midway.eq_value(&Vec3d(Scalar::new(5, 4), Scalar::new(-5, 4), s(0))));

    let at_end = segment.acceleration_at(s(1)).unwrap();
    assert!(at_end.eq_value(&segment[1].acceleration));
}

#[test]
fn all_set_points_hit() {
    let segment = three_waypoints();

    for k in 0..3usize {
        let position = segment.position_at(s(k as i128)).unwrap();
        assert!(position.eq_value(&segment[k].position));
        let velocity = segment.velocity_at(s(k as i128)).unwrap();
        assert!(velocity.eq_value(&segment[k].velocity));
    }
}
