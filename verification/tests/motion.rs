use rust_belt::fixed::PI;
use rust_belt::motion::{aim, drift, is_fully_inside, spawn_position};
use rust_belt::vector::{Size, Vector};

fn range() -> Size {
    Size { width: 1_024_000, height: 768_000 }
}

fn m(x: i64, y: i64) -> Vector {
    Vector { x, y }
}

#[test]
fn fully_inside_includes_the_border_of_the_inner_box() {
    assert!(is_fully_inside(m(30_000, 30_000), 30_000, range()));
    assert!(is_fully_inside(m(994_000, 738_000), 30_000, range()));
    assert!(is_fully_inside(m(512_000, 384_000), 30_000, range()));
    assert!(!is_fully_inside(m(29_999, 30_000), 30_000, range()));
    assert!(!is_fully_inside(m(30_000, 29_999), 30_000, range()));
    assert!(!is_fully_inside(m(994_001, 738_000), 30_000, range()));
    assert!(!is_fully_inside(m(994_000, 738_001), 30_000, range()));
    assert!(!is_fully_inside(m(-5, 384_000), 30_000, range()));
}

#[test]
fn fully_inside_is_never_true_for_a_circle_wider_than_the_field() {
    assert!(!is_fully_inside(m(512_000, 384_000), 384_001, range()));
    assert!(is_fully_inside(m(512_000, 384_000), 384_000, range()));
}

#[test]
fn drift_wraps_only_on_screen() {
    assert_eq!(drift(m(1_023_000, 1_000), m(2_000, -2_000), range(), true), m(1_000, 767_000));
    assert_eq!(drift(m(1_023_000, 1_000), m(2_000, -2_000), range(), false), m(1_025_000, -1_000));
    assert_eq!(drift(m(-500_000, 900_000), m(100, -100), range(), false), m(-499_900, 899_900));
}

#[test]
fn drift_off_screen_saturates_at_the_coordinate_limit() {
    assert_eq!(
        drift(m(999_999_999, -999_999_999), m(5, -5), range(), false),
        m(1_000_000_000, -1_000_000_000)
    );
}

#[test]
fn spawn_position_lies_on_the_spawn_circle() {
    assert_eq!(spawn_position(range(), 1_094_000, 0), m(1_606_000, 384_000));
    assert_eq!(spawn_position(range(), 1_094_000, PI / 2), m(512_000, 1_478_000));
    assert_eq!(spawn_position(range(), 1_094_000, PI), m(-582_000, 384_000));
    assert_eq!(spawn_position(range(), 1_094_000, 1_000_000), m(1_102_761, 1_303_198));
}

#[test]
fn spawn_position_saturates() {
    assert_eq!(spawn_position(range(), 2_000_000_000, 0), m(1_000_000_000, 384_000));
    let wide = Size { width: 1_000_000_000, height: 1_000_000_000 };
    assert_eq!(spawn_position(wide, 2_000_000_000, PI + PI / 2), m(500_000_000, -1_000_000_000));
}

#[test]
fn aim_points_at_the_target_with_the_given_speed() {
    assert_eq!(aim(m(0, 0), m(1_000, 1_000), 1_000), m(705, 705));
    assert_eq!(aim(m(1_606_000, 384_000), m(70_000, 70_000), 500), m(-489, -102));
    assert_eq!(aim(m(0, 0), m(-3, 4), -1_000), m(596, -800));
}

#[test]
fn aim_straight_up_and_at_itself() {
    assert_eq!(aim(m(0, 0), m(0, -5), 1_200), m(0, -1_200));
    assert_eq!(aim(m(5, 5), m(5, 9), 2_000_000_000), m(0, 1_000_000_000));
    // With no direction to speak of, the velocity points along the x axis.
    assert_eq!(aim(m(0, 0), m(0, 0), 1_200), m(1_200, 0));
}
