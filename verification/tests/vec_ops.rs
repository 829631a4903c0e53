use motion_planning::scalar::Scalar;
use motion_planning::vec::Vec3d;

fn s(n: i128) -> Scalar {
    Scalar::from_int(n)
}

fn v(a: i128, b: i128, c: i128) -> Vec3d {
    Vec3d(s(a), s(b), s(c))
}

#[test]
fn vec_it_works() {
    let a = v(1, 2, 3);
    let b = v(5, 4, 3);
    assert!(a.add(b).eq_value(&v(6, 6, 6)));

    let vec = v(1, 2, 3);
    assert!(vec.neg().eq_value(&v(-1, -2, -3)));

    let shown = Vec3d(s(0), Scalar::new(5, 4), s(4));
    assert_eq!(shown.to_display_string(), "(0,1.25,4)");

    let a = v(1, 2, 3);
    let b = v(5, 4, 3);
    assert!(a.dot(&b).eq_value(&s(22)));
}

#[test]
fn smul_f64() {
    let a = v(1, 2, 3);
    assert!(a.mul(s(2)).eq_value(&v(2, 4, 6)));
}

#[test]
fn smul_f32() {
    let a = v(1, 2, 3);
    assert!(a.mul(s(2)).eq_value(&v(2, 4, 6)));
}

#[test]
fn smul_v_f32_s_f64() {
    let a = v(1, 2, 3);
    assert!(a.mul(s(2)).eq_value(&v(2, 4, 6)));
}
