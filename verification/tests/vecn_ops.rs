use motion_planning::scalar::Scalar;
use motion_planning::vecn::Vecn;

fn s(n: i128) -> Scalar {
    Scalar::from_int(n)
}

#[test]
fn display_1() {
    assert_eq!(Vecn::new(vec![s(1)]).to_display_string(), "(1)");
}

#[test]
fn display_2a() {
    assert_eq!(Vecn::new(vec![s(1), s(2)]).to_display_string(), "(1,2)");
}

#[test]
fn display_2b() {
    let first = s(1).add(Scalar::new(3, 10));
    let second = Scalar::new(5, 2);
    assert_eq!(Vecn::new(vec![first, second]).to_display_string(), "(1.3,2.5)");
}

#[test]
fn display_3() {
    assert_eq!(Vecn::new(vec![s(1), s(2), s(3)]).to_display_string(), "(1,2,3)");
}

#[test]
fn add_1() {
    let x_bar = Vecn::new(vec![s(1)]);
    let y_bar = Vecn::new(vec![s(2)]);
    assert_eq!(x_bar.add(y_bar), Vecn::new(vec![s(3)]));
}

#[test]
fn add_2() {
    let x_bar = Vecn::new(vec![s(1), s(2)]);
    let y_bar = Vecn::new(vec![s(2), s(4)]);
    assert_eq!(x_bar.add(y_bar), Vecn::new(vec![s(3), s(6)]));
}

#[test]
fn mul_1() {
    let x_bar = Vecn::new(vec![s(1)]);
    assert_eq!(x_bar.mul(s(2)), Vecn::new(vec![s(2)]));
}

#[test]
fn mul_2a() {
    let x_bar = Vecn::new(vec![s(1), s(3)]);
    assert_eq!(x_bar.mul(s(2)), Vecn::new(vec![s(2), s(6)]));
}

#[test]
fn mul_2b() {
    let x_bar = Vecn::new(vec![s(1), s(3)]);
    assert_eq!(x_bar.mul(s(0)), Vecn::new(vec![s(0), s(0)]));
}

#[test]
fn neg_1() {
    let vec = Vecn::new(vec![s(1)]);
    assert_eq!(vec.neg(), Vecn::new(vec![s(-1)]));
}

#[test]
fn neg_2() {
    let vec = Vecn::new(vec![s(1), s(2)]);
    assert_eq!(vec.neg(), Vecn::new(vec![s(-1), s(-2)]));
}
