use rust_belt::fixed::{LIMIT, PI, TAU};
use rust_belt::vector::{Size, Vector};

fn v(x: i64, y: i64) -> Vector {
    Vector { x, y }
}

#[test]
fn default_vector_is_the_origin() {
    assert_eq!(Vector::default(), v(0, 0));
}

#[test]
fn size_accepts_only_positive_extents_in_range() {
    assert_eq!(Size::new(1_024_000, 768_000), Some(Size { width: 1_024_000, height: 768_000 }));
    assert_eq!(Size::new(1, 1), Some(Size { width: 1, height: 1 }));
    assert_eq!(Size::new(LIMIT, LIMIT), Some(Size { width: LIMIT, height: LIMIT }));
    assert_eq!(Size::new(0, 768_000), None);
    assert_eq!(Size::new(1_024_000, 0), None);
    assert_eq!(Size::new(-5, 10), None);
    assert_eq!(Size::new(LIMIT + 1, 10), None);
    assert_eq!(Size::new(10, LIMIT + 1), None);
}

#[test]
fn vector_from_size_takes_width_as_x() {
    let size = Size { width: 1_024_000, height: 768_000 };
    assert_eq!(Vector::from(size), v(1_024_000, 768_000));
}

#[test]
fn addition_and_subtraction_are_component_wise() {
    assert_eq!(v(1, 2) + v(10, 20), v(11, 22));
    assert_eq!(v(1, 2) - v(10, 20), v(-9, -18));
}

#[test]
fn addition_saturates_at_the_coordinate_limit() {
    assert_eq!(v(LIMIT, -LIMIT) + v(1, -1), v(LIMIT, -LIMIT));
    assert_eq!(v(LIMIT, 5) - v(-LIMIT, 5), v(LIMIT, 0));
    assert_eq!(v(i64::MAX, i64::MIN) + v(i64::MAX, i64::MIN), v(LIMIT, -LIMIT));
}

#[test]
fn multiplication_and_division_by_a_scalar() {
    assert_eq!(v(3, -4) * 5, v(15, -20));
    assert_eq!(v(15, -20) / 5, v(3, -4));
    assert_eq!(v(7, -7) / 2, v(3, -3));
    assert_eq!(v(7, -7) / -2, v(-3, 3));
    assert_eq!(v(LIMIT, 1) * 2, v(LIMIT, 2));
}

#[test]
fn division_by_zero_gives_the_zero_vector() {
    assert_eq!(v(7, -7) / 0, v(0, 0));
    assert_eq!(v(7, -7) / v(0, 1), v(0, 0));
    assert_eq!(v(7, -7) / v(1, 0), v(0, 0));
}

#[test]
fn product_and_quotient_are_component_wise() {
    assert_eq!(v(3, -4) * v(5, 6), v(15, -24));
    assert_eq!(v(15, -24) / v(5, 6), v(3, -4));
    assert_eq!(v(7, -7) / v(2, -2), v(3, 3));
    assert_eq!(v(1_000_000, 2) * v(1_000_000, 3), v(LIMIT, 6));
}

#[test]
fn compound_assignment_matches_the_operators() {
    let mut a = v(10, -20);
    a += v(1, 2);
    assert_eq!(a, v(11, -18));
    a -= v(1, 2);
    assert_eq!(a, v(10, -20));
    a *= 3;
    assert_eq!(a, v(30, -60));
    a /= 7;
    assert_eq!(a, v(4, -8));
    a *= v(2, -2);
    assert_eq!(a, v(8, 16));
    a /= v(3, 5);
    assert_eq!(a, v(2, 3));
    a -= v(10, 10);
    a %= v(5, 4);
    assert_eq!(a, v(2, 1));
    a /= 0;
    assert_eq!(a, v(0, 0));
}

#[test]
fn vector_from_a_pair() {
    assert_eq!(Vector::from([3, -4]), v(3, -4));
}

#[test]
fn remainder_wraps_each_component() {
    assert_eq!(v(1_025_000, -1_000) % v(1_024_000, 768_000), v(1_000, 767_000));
    assert_eq!(v(5, 5) % v(5, 6), v(0, 5));
}

#[test]
fn scale_multiplies_by_a_fraction_rounding_toward_zero() {
    assert_eq!(v(1_000, -1_000).scale(4_000, 1_000_000), v(4, -4));
    assert_eq!(v(30_000, -20_000).scale(5, 1_000), v(150, -100));
    assert_eq!(v(1, -1).scale(1, 2), v(0, 0));
}

#[test]
fn advance_wraps_around_the_field() {
    let size = Size { width: 1_024_000, height: 768_000 };
    assert_eq!(v(1_000, 2_000).advance(v(-3_000, 500), size), v(1_022_000, 2_500));
    assert_eq!(v(1_023_999, 767_999).advance(v(1, 1), size), v(0, 0));
    assert_eq!(v(0, 0).advance(v(0, 0), size), v(0, 0));
}

#[test]
fn advance_stays_on_the_field_for_any_velocity() {
    let size = Size { width: 1_024_000, height: 768_000 };
    let steps = [-LIMIT, -1_024_001, -1_024_000, -1, 0, 1, 767_999, 1_024_000, LIMIT];
    for &sx in steps.iter() {
        for &sy in steps.iter() {
            let p = v(0, 767_999).advance(v(sx, sy), size);
            assert!(0 <= p.x && p.x < size.width);
            assert!(0 <= p.y && p.y < size.height);
        }
    }
    assert_eq!(v(0, 0).advance(v(-1_024_001, -1), size), v(1_023_999, 767_999));
}

#[test]
fn magnitude_is_the_rounded_down_length() {
    assert_eq!(v(3_000, 4_000).magnitude(), 5_000);
    assert_eq!(v(-3_000, -4_000).magnitude(), 5_000);
    assert_eq!(v(0, 0).magnitude(), 0);
    assert_eq!(v(1, 1).magnitude(), 1);
    assert_eq!(v(LIMIT, LIMIT).magnitude(), 1_414_213_562);
}

#[test]
fn distance_is_the_length_of_the_difference() {
    assert_eq!(v(1_000, 1_000).distance(v(4_000, 5_000)), 5_000);
    assert_eq!(v(4_000, 5_000).distance(v(1_000, 1_000)), 5_000);
    assert_eq!(v(7, 7).distance(v(7, 7)), 0);
    assert_eq!(v(-LIMIT, -LIMIT).distance(v(LIMIT, LIMIT)), 2_828_427_124);
}

#[test]
fn angle_to_vector_picks_the_quadrant() {
    let o = v(0, 0);
    assert_eq!(o.angle_to_vector(v(1_000, 0)), 0);
    assert_eq!(o.angle_to_vector(v(1_000, 1_000)), 785_398);
    assert_eq!(o.angle_to_vector(v(-1_000, 1_000)), 2_356_194);
    assert_eq!(o.angle_to_vector(v(-1_000, 0)), PI);
    assert_eq!(o.angle_to_vector(v(-1_000, -1_000)), 3_926_990);
    assert_eq!(o.angle_to_vector(v(1_000, -1_000)), 5_497_786);
}

#[test]
fn angle_to_vector_on_a_vertical_line() {
    let o = v(0, 0);
    assert_eq!(o.angle_to_vector(v(0, 1_000)), PI / 2);
    assert_eq!(o.angle_to_vector(v(0, -1_000)), 3 * (PI / 2));
}

#[test]
fn angle_to_vector_of_equal_points_is_zero() {
    assert_eq!(v(5, 5).angle_to_vector(v(5, 5)), 0);
}

#[test]
fn angle_to_vector_is_always_normalised() {
    let points = [-LIMIT, -1_000, -1, 0, 1, 1_000, LIMIT];
    for &x in points.iter() {
        for &y in points.iter() {
            let a = v(3, -4).angle_to_vector(v(x, y));
            assert!(0 <= a && a < TAU);
        }
    }
}

#[test]
fn rotate_by_a_quarter_turn() {
    assert_eq!(v(1_000, 0).rotate(PI / 2), v(0, 1_000));
    assert_eq!(v(1_000, 0).rotate(-(PI / 2)), v(0, -1_000));
    assert_eq!(v(0, 1_000).rotate(PI / 2), v(-1_000, 0));
}

#[test]
fn rotate_by_nothing_keeps_axis_vectors() {
    assert_eq!(v(1_000, 0).rotate(0), v(1_000, 0));
    assert_eq!(v(0, 1_000).rotate(0), v(0, 1_000));
    assert_eq!(v(0, -1_000).rotate(0), v(0, -1_000));
    assert_eq!(v(-1_000, 0).rotate(0), v(-1_000, 0));
}

#[test]
fn rotate_keeps_the_origin() {
    assert_eq!(v(0, 0).rotate(12_345), v(0, 0));
}

#[test]
fn rotate_by_half_a_turn_is_close_to_the_opposite() {
    assert_eq!(v(3_000, 4_000).rotate(PI), v(-2_983, -4_003));
}

#[test]
fn from_draws_spans_the_box() {
    assert_eq!(Vector::from_draws(0, 0, 10, 20, 30, 40), v(10, 20));
    assert_eq!(Vector::from_draws(u32::MAX, u32::MAX, 10, 20, 30, 40), v(29, 39));
    assert_eq!(Vector::from_draws(1 << 31, 1 << 30, 10, 20, 30, 40), v(20, 25));
}

#[test]
fn new_rand_stays_inside_the_box() {
    for _ in 0..200 {
        let p = Vector::new_rand(70_000, 70_000, 954_000, 698_000);
        assert!(70_000 <= p.x && p.x < 954_000);
        assert!(70_000 <= p.y && p.y < 698_000);
    }
}

#[test]
fn new_rand_on_an_empty_box_gives_its_corner() {
    assert_eq!(Vector::new_rand(5, -5, 5, -5), v(5, -5));
}
