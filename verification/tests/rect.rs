use platformer::rect::Rect;
use platformer::units::{
    ceil_cell, displacement_fits, div_toward_zero, floor_cell, COORD_LIMIT, UNIT,
};

#[test]
fn edges_are_derived_from_position_and_size() {
    let r = Rect::new(10, 20, 30, 40);
    assert_eq!((r.x, r.y, r.width, r.height), (10, 20, 30, 40));
    assert_eq!(r.right(), 40);
    assert_eq!(r.bottom(), 60);
    let r = Rect::new(-100, -7, 30, 0);
    assert_eq!(r.right(), -70);
    assert_eq!(r.bottom(), -7);
}

#[test]
fn moving_an_edge_keeps_the_size() {
    let mut r = Rect::new(10, 20, 30, 40);
    r.move_right(100);
    assert_eq!(r, Rect::new(70, 20, 30, 40));
    assert_eq!(r.right(), 100);
    r.move_bottom(-5);
    assert_eq!(r, Rect::new(70, -45, 30, 40));
    assert_eq!(r.bottom(), -5);
}

#[test]
fn default_rectangle_is_empty_at_the_origin() {
    assert_eq!(Rect::default(), Rect::new(0, 0, 0, 0));
}

#[test]
fn bounds_check_looks_at_every_field() {
    assert!(Rect::new(0, 0, 0, 0).in_bounds());
    assert!(Rect::new(-COORD_LIMIT, COORD_LIMIT, COORD_LIMIT, COORD_LIMIT).in_bounds());
    assert!(!Rect::new(-COORD_LIMIT - 1, 0, 1, 1).in_bounds());
    assert!(!Rect::new(0, COORD_LIMIT + 1, 1, 1).in_bounds());
    assert!(!Rect::new(0, 0, -1, 1).in_bounds());
    assert!(!Rect::new(0, 0, 1, -1).in_bounds());
    assert!(!Rect::new(0, 0, COORD_LIMIT + 1, 1).in_bounds());
    assert!(!Rect::new(0, 0, 1, COORD_LIMIT + 1).in_bounds());
}

#[test]
fn cells_round_down_and_up() {
    assert_eq!(floor_cell(0), 0);
    assert_eq!(floor_cell(UNIT - 1), 0);
    assert_eq!(floor_cell(UNIT), 1);
    assert_eq!(floor_cell(-1), -1);
    assert_eq!(floor_cell(-UNIT), -1);
    assert_eq!(floor_cell(-UNIT - 1), -2);
    assert_eq!(floor_cell(i64::MIN), i64::MIN / UNIT);
    assert_eq!(floor_cell(i64::MAX), i64::MAX / UNIT);
    assert_eq!(ceil_cell(0), 0);
    assert_eq!(ceil_cell(1), 1);
    assert_eq!(ceil_cell(UNIT), 1);
    assert_eq!(ceil_cell(UNIT + 1), 2);
    assert_eq!(ceil_cell(-1), 0);
    assert_eq!(ceil_cell(-UNIT), -1);
    assert_eq!(ceil_cell(-UNIT - 1), -1);
    assert_eq!(ceil_cell(i64::MIN), i64::MIN / UNIT);
}

#[test]
fn displacement_check_is_exact_at_the_limit() {
    assert!(displacement_fits(0, i64::MAX));
    assert!(displacement_fits(COORD_LIMIT, 1));
    assert!(displacement_fits(-COORD_LIMIT, 1));
    assert!(displacement_fits(COORD_LIMIT / 2, -2));
    assert!(!displacement_fits(COORD_LIMIT + 1, 1));
    assert!(!displacement_fits(COORD_LIMIT, 2));
    assert!(!displacement_fits(i64::MIN, i64::MIN));
    assert!(!displacement_fits(i64::MAX, i64::MIN));
}

#[test]
fn division_rounds_toward_zero() {
    assert_eq!(div_toward_zero(7, 2), 3);
    assert_eq!(div_toward_zero(-7, 2), -3);
    assert_eq!(div_toward_zero(-1, 5), 0);
    assert_eq!(div_toward_zero(0, 5), 0);
    assert_eq!(div_toward_zero(i64::MIN, 1), i64::MIN);
    assert_eq!(div_toward_zero(i64::MIN, i64::MAX), -1);
}
