use rust_belt::fixed::{isqrt, pick, quotient, saturate, wrap, LIMIT, ONE, PI, TAU};
use rust_belt::trig::{atan, cos, sin};

#[test]
fn wrap_reduces_into_the_modulus() {
    assert_eq!(wrap(25, 10), 5);
    assert_eq!(wrap(0, 7), 0);
    assert_eq!(wrap(9, 10), 9);
    assert_eq!(wrap(10, 10), 0);
}

#[test]
fn wrap_of_a_negative_value_is_not_negative() {
    assert_eq!(wrap(-1, 10), 9);
    assert_eq!(wrap(-10, 10), 0);
    assert_eq!(wrap(-11, 10), 9);
    assert_eq!(wrap(i64::MIN, 7), 6);
}

#[test]
fn wrap_normalises_angles() {
    assert_eq!(wrap(TAU, TAU), 0);
    assert_eq!(wrap(-1, TAU), TAU - 1);
    assert_eq!(wrap(TAU + PI, TAU), PI);
}

#[test]
fn isqrt_rounds_down() {
    assert_eq!(isqrt(0), 0);
    assert_eq!(isqrt(1), 1);
    assert_eq!(isqrt(3), 1);
    assert_eq!(isqrt(4), 2);
    assert_eq!(isqrt(24), 4);
    assert_eq!(isqrt(25), 5);
    assert_eq!(isqrt(1_000_000_000_000_000_000), 1_000_000_000);
    assert_eq!(isqrt(u64::MAX), 4_294_967_295);
}

#[test]
fn saturate_confines_to_the_coordinate_range() {
    assert_eq!(saturate(0), 0);
    assert_eq!(saturate(LIMIT as i128), LIMIT);
    assert_eq!(saturate(LIMIT as i128 + 1), LIMIT);
    assert_eq!(saturate(-(LIMIT as i128) - 1), -LIMIT);
    assert_eq!(saturate(i128::MAX), LIMIT);
    assert_eq!(saturate(i128::MIN), -LIMIT);
    assert_eq!(saturate(-123), -123);
}

#[test]
fn quotient_rounds_toward_zero() {
    assert_eq!(quotient(7, 2), 3);
    assert_eq!(quotient(-7, 2), -3);
    assert_eq!(quotient(-1, 1_000_000), 0);
    assert_eq!(quotient(6, 3), 2);
}

#[test]
fn pick_maps_draws_onto_the_interval() {
    assert_eq!(pick(0, 10, 20), 10);
    assert_eq!(pick(u32::MAX, 10, 20), 19);
    assert_eq!(pick(1 << 31, 10, 20), 15);
    assert_eq!(pick(1 << 31, -8_727, 8_727), 0);
    assert_eq!(pick(12345, 5, 5), 5);
}

#[test]
fn pick_on_a_reversed_interval_stays_between_the_ends() {
    assert_eq!(pick(0, 20, 10), 20);
    assert_eq!(pick(1 << 31, 20, 10), 15);
    assert_eq!(pick(u32::MAX, 20, 10), 11);
}

#[test]
fn sine_at_the_quarter_turns() {
    assert_eq!(sin(0), 0);
    assert_eq!(sin(PI / 2), ONE);
    assert_eq!(sin(PI), 0);
    assert_eq!(sin(3 * (PI / 2)), -ONE);
    assert_eq!(sin(TAU), 0);
}

#[test]
fn sine_of_other_angles() {
    assert_eq!(sin(1_000_000), 840_218);
    assert_eq!(sin(-1_000_000), -840_218);
    assert_eq!(sin(523_599), 500_000);
    assert_eq!(sin(1_000_000 + 5 * TAU), 840_218);
}

#[test]
fn cosine_at_the_quarter_turns() {
    assert_eq!(cos(0), ONE);
    assert_eq!(cos(PI / 2), 0);
    assert_eq!(cos(PI), -ONE);
    assert_eq!(cos(3 * (PI / 2)), 0);
}

#[test]
fn cosine_of_other_angles() {
    assert_eq!(cos(1_000_000), 540_001);
    assert_eq!(cos(1_047_198), 499_999);
    assert_eq!(cos(i64::MAX), cos(i64::MAX % TAU));
}

#[test]
fn sine_and_cosine_stay_within_one() {
    let mut angle: i64 = -TAU;
    while angle <= 2 * TAU {
        let s = sin(angle);
        let c = cos(angle);
        assert!(-ONE <= s && s <= ONE);
        assert!(-ONE <= c && c <= ONE);
        angle += 9_973;
    }
}

#[test]
fn sine_or_cosine_is_large_in_every_direction() {
    let mut least = ONE;
    let mut angle: i64 = 0;
    while angle < TAU {
        let larger = sin(angle).abs().max(cos(angle).abs());
        assert!(larger >= 705_882);
        least = least.min(larger);
        angle += 1_013;
    }
    assert_eq!(sin(785_398), 705_882);
    assert_eq!(cos(785_398), 705_882);
    assert!(least <= 706_000);
}

#[test]
fn arctangent_values() {
    assert_eq!(atan(1, 1), 785_398);
    assert_eq!(atan(1, 2), 460_949);
    assert_eq!(atan(2, 1), 1_109_847);
    assert_eq!(atan(-3, 4), -640_236);
    assert_eq!(atan(3, -4), -640_236);
    assert_eq!(atan(-3, -4), 640_236);
    assert_eq!(atan(0, -7), 0);
}

#[test]
fn arctangent_of_a_vertical_direction_is_a_signed_quarter_turn() {
    assert_eq!(atan(5, 0), PI / 2);
    assert_eq!(atan(-5, 0), -(PI / 2));
    assert_eq!(atan(0, 0), 0);
}
