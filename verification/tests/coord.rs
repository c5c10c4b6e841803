use p2ds::physics::coord::{
    saturating_add, saturating_div, saturating_mul, saturating_sub, saturating_sub_unsigned,
    spill_add, truncating_rem, unspill_add, CoordT, Point2, Position, Vector2,
};

#[test]
fn test_unspill_add() {
    let mut a = CoordT::MAX - 100;

    assert_eq!(unspill_add(&mut a, 60), 0);
    assert_eq!(unspill_add(&mut a, 60), 20);

    a = CoordT::MIN + 100;
    assert_eq!(unspill_add(&mut a, -60), 0);
    assert_eq!(unspill_add(&mut a, -60), -20);
}

#[test]
fn unspill_add_stops_at_the_border_it_crossed() {
    let mut a = CoordT::MAX - 100;
    unspill_add(&mut a, 60);
    assert_eq!(a, CoordT::MAX - 40);
    unspill_add(&mut a, 60);
    assert_eq!(a, CoordT::MAX);

    let mut b = CoordT::MIN + 100;
    unspill_add(&mut b, -60);
    assert_eq!(b, CoordT::MIN + 40);
    unspill_add(&mut b, -60);
    assert_eq!(b, CoordT::MIN);
}

#[test]
fn unspill_add_accounts_for_the_whole_delta() {
    let cases: [(CoordT, CoordT); 9] = [
        (0, 0),
        (5, -7),
        (CoordT::MAX, 1),
        (CoordT::MAX, CoordT::MAX),
        (CoordT::MIN, -1),
        (CoordT::MIN, CoordT::MIN),
        (CoordT::MAX, CoordT::MIN),
        (CoordT::MIN, CoordT::MAX),
        (1 << 30, 1 << 30),
    ];
    for (start, delta) in cases {
        let mut a = start;
        let spill = unspill_add(&mut a, delta);
        let sum = start as i64 + delta as i64;
        assert_eq!(a as i64 - start as i64, delta as i64 - spill as i64);
        assert_eq!(spill != 0, sum > CoordT::MAX as i64 || sum < CoordT::MIN as i64);
    }
}

#[test]
fn unspill_add_of_two_minima_spills_a_whole_minimum() {
    let mut a = CoordT::MIN;
    assert_eq!(unspill_add(&mut a, CoordT::MIN), CoordT::MIN);
    assert_eq!(a, CoordT::MIN);
}

#[test]
fn unspill_add_of_two_maxima_spills_a_whole_maximum() {
    let mut a = CoordT::MAX;
    assert_eq!(unspill_add(&mut a, CoordT::MAX), CoordT::MAX);
    assert_eq!(a, CoordT::MAX);
}

#[test]
fn unspill_add_that_lands_on_the_border_spills_nothing() {
    let mut a = CoordT::MAX - 100;
    assert_eq!(unspill_add(&mut a, 100), 0);
    assert_eq!(a, CoordT::MAX);

    let mut b = CoordT::MIN + 100;
    assert_eq!(unspill_add(&mut b, -100), 0);
    assert_eq!(b, CoordT::MIN);
}

#[test]
fn spill_add_works_on_each_axis_by_itself() {
    let mut point: Point2 = Vector2::new(CoordT::MAX - 10, CoordT::MIN + 10);
    let spill = spill_add(&mut point, Vector2::new(25, -5));
    assert_eq!(point, Vector2::new(CoordT::MAX, CoordT::MIN + 5));
    assert_eq!(spill, Vector2::new(15, 0));

    let spill = spill_add(&mut point, Vector2::new(-3, -8));
    assert_eq!(point, Vector2::new(CoordT::MAX - 3, CoordT::MIN));
    assert_eq!(spill, Vector2::new(0, -3));
}

#[test]
fn saturating_sum_holds_at_both_borders() {
    assert_eq!(saturating_add(1, 2), 3);
    assert_eq!(saturating_add(CoordT::MAX, 1), CoordT::MAX);
    assert_eq!(saturating_add(CoordT::MIN, -1), CoordT::MIN);
    assert_eq!(saturating_add(CoordT::MIN, CoordT::MIN), CoordT::MIN);
    assert_eq!(saturating_add(CoordT::MAX, CoordT::MIN), -1);
}

#[test]
fn saturating_difference_holds_at_both_borders() {
    assert_eq!(saturating_sub(1, 2), -1);
    assert_eq!(saturating_sub(CoordT::MIN, 1), CoordT::MIN);
    assert_eq!(saturating_sub(CoordT::MAX, -1), CoordT::MAX);
    assert_eq!(saturating_sub(0, CoordT::MIN), CoordT::MAX);
    assert_eq!(saturating_sub_unsigned(0, 1 << 20), -(1 << 20));
    assert_eq!(saturating_sub_unsigned(CoordT::MIN + 5, 6), CoordT::MIN);
    assert_eq!(saturating_sub_unsigned(CoordT::MAX, u32::MAX), CoordT::MIN);
}

#[test]
fn saturating_product_of_two_large_positives_is_the_maximum() {
    assert_eq!(saturating_mul(1 << 20, 1 << 20), CoordT::MAX);
    assert_eq!(saturating_mul(CoordT::MAX, CoordT::MAX), CoordT::MAX);
    assert_eq!(saturating_mul(CoordT::MIN, CoordT::MIN), CoordT::MAX);
    assert_eq!(saturating_mul(CoordT::MIN, 2), CoordT::MIN);
    assert_eq!(saturating_mul(1 << 20, -(1 << 20)), CoordT::MIN);
    assert_eq!(saturating_mul(-3, 7), -21);
    assert_eq!(saturating_mul(0, CoordT::MIN), 0);
}

#[test]
fn quotient_rounds_toward_zero() {
    assert_eq!(saturating_div(7, 2), 3);
    assert_eq!(saturating_div(-7, 2), -3);
    assert_eq!(saturating_div(7, -2), -3);
    assert_eq!(saturating_div(-7, -2), 3);
    assert_eq!(saturating_div(0, -5), 0);
    assert_eq!(saturating_div(CoordT::MIN, 1), CoordT::MIN);
    assert_eq!(saturating_div(CoordT::MIN, CoordT::MIN), 1);
    assert_eq!(saturating_div(CoordT::MAX, CoordT::MIN), 0);
}

#[test]
fn quotient_of_the_minimum_by_minus_one_is_the_maximum() {
    assert_eq!(saturating_div(CoordT::MIN, -1), CoordT::MAX);
}

#[test]
fn remainder_has_the_sign_of_the_dividend() {
    assert_eq!(truncating_rem(7, 2), 1);
    assert_eq!(truncating_rem(-7, 2), -1);
    assert_eq!(truncating_rem(7, -2), 1);
    assert_eq!(truncating_rem(-7, -2), -1);
    assert_eq!(truncating_rem(CoordT::MIN, -1), 0);
    assert_eq!(truncating_rem(CoordT::MIN, CoordT::MAX), -1);
    assert_eq!(truncating_rem(CoordT::MAX, CoordT::MIN), CoordT::MAX);
    assert_eq!(truncating_rem(CoordT::MIN, CoordT::MIN), 0);
}

#[test]
fn quotient_and_remainder_agree_with_the_machine() {
    let values: [CoordT; 9] = [CoordT::MIN, CoordT::MIN + 1, -17, -1, 0, 1, 16, CoordT::MAX - 1, CoordT::MAX];
    for a in values {
        for b in values {
            if b == 0 || (a == CoordT::MIN && b == -1) {
                continue;
            }
            assert_eq!(saturating_div(a, b), a / b);
            assert_eq!(truncating_rem(a, b), a % b);
        }
    }
}

#[test]
fn vector_operators_saturate_on_each_axis() {
    let a = Vector2::new(CoordT::MAX - 1, CoordT::MIN + 1);
    let b = Vector2::new(5, -5);
    assert_eq!(a + b, Vector2::new(CoordT::MAX, CoordT::MIN));
    assert_eq!(a - b, Vector2::new(CoordT::MAX - 6, CoordT::MIN + 6));
    assert_eq!(b - a, Vector2::new(CoordT::MIN + 7, CoordT::MAX - 5));
    assert_eq!(Vector2::new(-2, 0) - a, Vector2::new(CoordT::MIN, CoordT::MAX));
    assert_eq!(a * b, Vector2::new(CoordT::MAX, CoordT::MAX));
    assert_eq!(Vector2::new(3, -4) * Vector2::new(-5, -6), Vector2::new(-15, 24));
    assert_eq!(Vector2::new(1, 2) + Vector2::new(3, 4), Vector2::new(4, 6));
}

#[test]
fn vector_division_and_remainder_round_toward_zero() {
    let a = Vector2::new(-7, CoordT::MIN);
    let b = Vector2::new(2, -1);
    assert_eq!(a / b, Vector2::new(-3, CoordT::MAX));
    assert_eq!(a % b, Vector2::new(-1, 0));
}

#[test]
fn checked_division_refuses_a_zero_component() {
    let a = Vector2::new(10, -10);
    assert_eq!(a.checked_div(Vector2::new(0, 3)), None);
    assert_eq!(a.checked_div(Vector2::new(3, 0)), None);
    assert_eq!(a.checked_div(Vector2::new(0, 0)), None);
    assert_eq!(a.checked_div(Vector2::new(3, 3)), Some(Vector2::new(3, -3)));
    assert_eq!(a.checked_rem(Vector2::new(0, 3)), None);
    assert_eq!(a.checked_rem(Vector2::new(3, 0)), None);
    assert_eq!(a.checked_rem(Vector2::new(3, 3)), Some(Vector2::new(1, -1)));
}

#[test]
fn vector_bit_operators_work_on_each_axis() {
    let a = Vector2::new(0b1100, -1);
    let b = Vector2::new(0b1010, 0x0f0f);
    assert_eq!(a & b, Vector2::new(0b1000, 0x0f0f));
    assert_eq!(a | b, Vector2::new(0b1110, -1));
    assert_eq!(a ^ b, Vector2::new(0b0110, !0x0f0f));
}

#[test]
fn vector_is_built_from_components_array_and_tuple() {
    let v = Vector2::new(3, -4);
    assert_eq!(v.x, 3);
    assert_eq!(v.y, -4);
    assert_eq!(Vector2::from([3, -4]), v);
    assert_eq!(Vector2::from((3, -4)), v);
    let w: Vector2 = [CoordT::MIN, CoordT::MAX].into();
    assert_eq!(w, Vector2::new(CoordT::MIN, CoordT::MAX));
    assert_eq!(Vector2::default(), Vector2::new(0, 0));
}

#[test]
fn position_starts_where_it_is_put() {
    let p = Position::new(7, -9);
    assert_eq!(p.0, Vector2::new(7, -9));
    assert_eq!(Position::default(), Position::new(0, 0));
}
