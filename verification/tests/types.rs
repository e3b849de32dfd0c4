use car_sim::types::{clamp, minus, negated, plus, point2, quarter, vec2, Point2, Vector2, TAU, UNIT};

#[test]
fn sums_are_exact_within_range() {
    assert_eq!(plus(3 * UNIT, -5 * UNIT), -2 * UNIT);
    assert_eq!(minus(3 * UNIT, -5 * UNIT), 8 * UNIT);
    assert_eq!(negated(7), -7);
}

#[test]
fn sums_saturate_at_both_ends() {
    assert_eq!(plus(i64::MAX, 1), i64::MAX);
    assert_eq!(plus(i64::MIN, -1), i64::MIN);
    assert_eq!(plus(i64::MAX, i64::MIN), -1);
    assert_eq!(minus(i64::MIN, 1), i64::MIN);
    assert_eq!(minus(i64::MAX, -1), i64::MAX);
    assert_eq!(minus(0, i64::MIN), i64::MAX);
    assert_eq!(negated(i64::MIN), i64::MAX);
    assert_eq!(negated(i64::MAX), i64::MIN + 1);
}

#[test]
fn quarter_rounds_towards_zero() {
    assert_eq!(quarter(UNIT), 16384);
    assert_eq!(quarter(-UNIT), -16384);
    assert_eq!(quarter(7), 1);
    assert_eq!(quarter(-7), -1);
    assert_eq!(quarter(3), 0);
    assert_eq!(quarter(-3), 0);
}

#[test]
fn clamp_limits_to_the_interval() {
    assert_eq!(clamp(5, -1, 3), 3);
    assert_eq!(clamp(-5, -1, 3), -1);
    assert_eq!(clamp(2, -1, 3), 2);
    assert_eq!(clamp(0, 4, 1), 4);
}

#[test]
fn a_full_turn_is_two_pi() {
    assert_eq!(UNIT, 65536);
    assert_eq!(TAU, 411775);
}

#[test]
fn points_move_by_vectors() {
    assert_eq!(point2(1, 2), Point2 { x: 1, y: 2 });
    assert_eq!(vec2(3, 4), Vector2 { x: 3, y: 4 });
    assert_eq!(point2(1, 2).translate(vec2(10, -20)), point2(11, -18));
    assert_eq!(point2(i64::MAX, i64::MIN).translate(vec2(1, -1)), point2(i64::MAX, i64::MIN));
    
    
}
