use motion_planning::hermite::cubic::{h_3, h_3p};
use motion_planning::hermite::septic::{h_7, h_7p, h_7pp, h_7ppp};
use motion_planning::hermite::{h_5, h_5p, h_5pp};
use motion_planning::scalar::Scalar;

fn s(n: i128) -> Scalar {
    Scalar::from_int(n)
}

#[test]
fn h_5_is_correct() {
    assert!(h_5(s(0), 0).eq_value(&s(1)));
    assert!(h_5(s(0), 1).eq_value(&s(0)));
    assert!(h_5(s(0), 2).eq_value(&s(0)));
    assert!(h_5(s(0), 3).eq_value(&s(0)));
    assert!(h_5(s(0), 4).eq_value(&s(0)));
    assert!(h_5(s(0), 5).eq_value(&s(0)));

    assert!(h_5(s(1), 0).eq_value(&s(0)));
    assert!(h_5(s(1), 1).eq_value(&s(0)));
    assert!(h_5(s(1), 2).eq_value(&s(0)));
    assert!(h_5(s(1), 3).eq_value(&s(0)));
    assert!(h_5(s(1), 4).eq_value(&s(0)));
    assert!(h_5(s(1), 5).eq_value(&s(1)));
}

#[test]
fn h_5p_is_correct() {
    assert!(h_5p(s(0), 0).eq_value(&s(0)));
    assert!(h_5p(s(0), 1).eq_value(&s(1)));
    assert!(h_5p(s(0), 2).eq_value(&s(0)));
    assert!(h_5p(s(0), 3).eq_value(&s(0)));
    assert!(h_5p(s(0), 4).eq_value(&s(0)));
    assert!(h_5p(s(0), 5).eq_value(&s(0)));

    assert!(h_5p(s(1), 0).eq_value(&s(0)));
    assert!(h_5p(s(1), 1).eq_value(&s(0)));
    assert!(h_5p(s(1), 2).eq_value(&s(0)));
    assert!(h_5p(s(1), 3).eq_value(&s(0)));
    assert!(h_5p(s(1), 4).eq_value(&s(1)));
    assert!(h_5p(s(1), 5).eq_value(&s(0)));
}

#[test]
fn h_5pp_is_correct() {
    assert!(h_5pp(s(0), 0).eq_value(&s(0)));
    assert!(h_5pp(s(0), 1).eq_value(&s(0)));
    assert!(h_5pp(s(0), 2).eq_value(&s(1)));
    assert!(h_5pp(s(0), 3).eq_value(&s(0)));
    assert!(h_5pp(s(0), 4).eq_value(&s(0)));
    assert!(h_5pp(s(0), 5).eq_value(&s(0)));

    assert!(h_5pp(s(1), 0).eq_value(&s(0)));
    assert!(h_5pp(s(1), 1).eq_value(&s(0)));
    assert!(h_5pp(s(1), 2).eq_value(&s(0)));
    assert!(h_5pp(s(1), 3).eq_value(&s(1)));
    assert!(h_5pp(s(1), 4).eq_value(&s(0)));
    assert!(h_5pp(s(1), 5).eq_value(&s(0)));
}

#[test]
fn cubic_correct_at_0() {
    assert!(h_3(s(0), 0).eq_value(&s(1)));
    assert!(h_3(s(0), 1).eq_value(&s(0)));
    assert!(h_3(s(0), 2).eq_value(&s(0)));
    assert!(h_3(s(0), 3).eq_value(&s(0)));

    assert!(h_3p(s(0), 0).eq_value(&s(0)));
    assert!(h_3p(s(0), 1).eq_value(&s(1)));
    assert!(h_3p(s(0), 2).eq_value(&s(0)));
    assert!(h_3p(s(0), 3).eq_value(&s(0)));
}

#[test]
fn cubic_correct_at_1() {
    assert!(h_3(s(1), 0).eq_value(&s(0)));
    assert!(h_3(s(1), 1).eq_value(&s(0)));
    assert!(h_3(s(1), 2).eq_value(&s(0)));
    assert!(h_3(s(1), 3).eq_value(&s(1)));

    assert!(h_3p(s(1), 0).eq_value(&s(0)));
    assert!(h_3p(s(1), 1).eq_value(&s(0)));
    assert!(h_3p(s(1), 2).eq_value(&s(1)));
    assert!(h_3p(s(1), 3).eq_value(&s(0)));
}

#[test]
fn septic_correct_at_0() {
    assert!(h_7(s(0), 0).eq_value(&s(1)));
    assert!(h_7(s(0), 1).eq_value(&s(0)));
    assert!(h_7(s(0), 2).eq_value(&s(0)));
    assert!(h_7(s(0), 3).eq_value(&s(0)));
    assert!(h_7(s(0), 4).eq_value(&s(0)));
    assert!(h_7(s(0), 5).eq_value(&s(0)));
    assert!(h_7(s(0), 6).eq_value(&s(0)));
    assert!(h_7(s(0), 7).eq_value(&s(0)));

    assert!(h_7p(s(0), 0).eq_value(&s(0)));
    assert!(h_7p(s(0), 1).eq_value(&s(1)));
    assert!(h_7p(s(0), 2).eq_value(&s(0)));
    assert!(h_7p(s(0), 3).eq_value(&s(0)));
    assert!(h_7p(s(0), 4).eq_value(&s(0)));
    assert!(h_7p(s(0), 5).eq_value(&s(0)));
    assert!(h_7p(s(0), 6).eq_value(&s(0)));
    assert!(h_7p(s(0), 7).eq_value(&s(0)));

    assert!(h_7pp(s(0), 0).eq_value(&s(0)));
    assert!(h_7pp(s(0), 1).eq_value(&s(0)));
    assert!(h_7pp(s(0), 2).eq_value(&s(1)));
    assert!(h_7pp(s(0), 3).eq_value(&s(0)));
    assert!(h_7pp(s(0), 4).eq_value(&s(0)));
    assert!(h_7pp(s(0), 5).eq_value(&s(0)));
    assert!(h_7pp(s(0), 6).eq_value(&s(0)));
    assert!(h_7pp(s(0), 7).eq_value(&s(0)));

    assert!(h_7ppp(s(0), 0).eq_value(&s(0)));
    assert!(h_7ppp(s(0), 1).eq_value(&s(0)));
    assert!(h_7ppp(s(0), 2).eq_value(&s(0)));
    assert!(h_7ppp(s(0), 3).eq_value(&s(1)));
    assert!(h_7ppp(s(0), 4).eq_value(&s(0)));
    assert!(h_7ppp(s(0), 5).eq_value(&s(0)));
    assert!(h_7ppp(s(0), 6).eq_value(&s(0)));
    assert!(h_7ppp(s(0), 7).eq_value(&s(0)));
}

#[test]
fn septic_correct_at_1() {
    assert!(h_7(s(1), 0).eq_value(&s(0)));
    assert!(h_7(s(1), 1).eq_value(&s(0)));
    assert!(h_7(s(1), 2).eq_value(&s(0)));
    assert!(h_7(s(1), 3).eq_value(&s(0)));
    assert!(h_7(s(1), 4).eq_value(&s(0)));
    assert!(h_7(s(1), 5).eq_value(&s(0)));
    assert!(h_7(s(1), 6).eq_value(&s(0)));
    assert!(h_7(s(1), 7).eq_value(&s(1)));

    assert!(h_7p(s(1), 0).eq_value(&s(0)));
    assert!(h_7p(s(1), 1).eq_value(&s(0)));
    assert!(h_7p(s(1), 2).eq_value(&s(0)));
    assert!(h_7p(s(1), 3).eq_value(&s(0)));
    assert!(h_7p(s(1), 4).eq_value(&s(0)));
    assert!(h_7p(s(1), 5).eq_value(&s(0)));
    assert!(h_7p(s(1), 6).eq_value(&s(1)));
    assert!(h_7p(s(1), 7).eq_value(&s(0)));

    assert!(h_7pp(s(1), 0).eq_value(&s(0)));
    assert!(h_7pp(s(1), 1).eq_value(&s(0)));
    assert!(h_7pp(s(1), 2).eq_value(&s(0)));
    assert!(h_7pp(s(1), 3).eq_value(&s(0)));
    assert!(h_7pp(s(1), 4).eq_value(&s(0)));
    assert!(h_7pp(s(1), 5).eq_value(&s(1)));
    assert!(h_7pp(s(1), 6).eq_value(&s(0)));
    assert!(h_7pp(s(1), 7).eq_value(&s(0)));

    assert!(h_7ppp(s(1), 0).eq_value(&s(0)));
    assert!(h_7ppp(s(1), 1).eq_value(&s(0)));
    assert!(h_7ppp(s(1), 2).eq_value(&s(0)));
    assert!(h_7ppp(s(1), 3).eq_value(&s(0)));
    assert!(h_7ppp(s(1), 4).eq_value(&s(1)));
    assert!(h_7ppp(s(1), 5).eq_value(&s(0)));
    assert!(h_7ppp(s(1), 6).eq_value(&s(0)));
    assert!(h_7ppp(s(1), 7).eq_value(&s(0)));
}
