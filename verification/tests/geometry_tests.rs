use space_race::geometry::doubled_triangle_area;
use space_race::geometry::is_point_within_triangle;
use space_race::geometry::Color;
use space_race::geometry::Point;
use space_race::geometry::Rect;

#[test]
fn doubled_area_of_a_right_triangle() {
    assert_eq!(doubled_triangle_area(0, 0, 4, 0, 0, 3), 12);
    assert_eq!(doubled_triangle_area(0, 0, 0, 3, 4, 0), 12);
}

#[test]
fn doubled_area_of_a_flat_triangle_is_zero() {
    assert_eq!(doubled_triangle_area(0, 0, 5, 5, 10, 10), 0);
    assert_eq!(doubled_triangle_area(7, 7, 7, 7, 7, 7), 0);
}

#[test]
fn doubled_area_at_the_ends_of_the_range() {
    let lo = i32::MIN;
    let hi = i32::MAX;
    let side: i128 = hi as i128 - lo as i128;
    assert_eq!(doubled_triangle_area(lo, lo, hi, lo, lo, hi), side * side);
    assert_eq!(doubled_triangle_area(lo, lo, lo, hi, hi, lo), side * side);
}

#[test]
fn point_inside_triangle_is_within() {
    assert!(is_point_within_triangle(&[0, 5, 10], &[0, 10, 0], 5, 3));
    assert!(is_point_within_triangle(&[0, 5, 10], &[0, 10, 0], 1, 1));
}

#[test]
fn point_outside_triangle_is_not_within() {
    assert!(!is_point_within_triangle(&[0, 5, 10], &[0, 10, 0], 1, 5));
    assert!(!is_point_within_triangle(&[0, 5, 10], &[0, 10, 0], 20, 3));
    assert!(!is_point_within_triangle(&[0, 5, 10], &[0, 10, 0], 5, -1));
}

#[test]
fn point_on_an_edge_of_the_bounding_box_is_not_within() {
    // On the lower side: the areas add up, the bounding box excludes it.
    assert!(!is_point_within_triangle(&[0, 5, 10], &[0, 10, 0], 5, 0));
    // The vertices themselves.
    assert!(!is_point_within_triangle(&[0, 5, 10], &[0, 10, 0], 0, 0));
    assert!(!is_point_within_triangle(&[0, 5, 10], &[0, 10, 0], 5, 10));
}

#[test]
fn point_on_a_slanted_edge_is_within() {
    // On the left side, strictly inside the bounding box.
    assert!(is_point_within_triangle(&[0, 5, 10], &[0, 10, 0], 2, 4));
}

#[test]
fn flat_triangle_holds_no_point() {
    assert!(!is_point_within_triangle(&[0, 5, 10], &[0, 0, 0], 5, 0));
}

#[test]
fn triangle_test_does_not_depend_on_vertex_order() {
    assert!(is_point_within_triangle(&[10, 0, 5], &[0, 0, 10], 5, 3));
    assert!(!is_point_within_triangle(&[10, 0, 5], &[0, 0, 10], 5, 0));
}

#[test]
fn rectangle_bounds_are_inclusive() {
    let r = Rect::new(10, 20, 30, 40);
    assert!(r.contains_point(10, 20));
    assert!(r.contains_point(40, 60));
    assert!(r.contains_point(10, 60));
    assert!(r.contains_point(25, 30));
    assert!(!r.contains_point(9, 20));
    assert!(!r.contains_point(41, 20));
    assert!(!r.contains_point(10, 19));
    assert!(!r.contains_point(10, 61));
}

#[test]
fn rectangle_at_the_end_of_the_range() {
    let r = Rect::new(i32::MAX - 1, i32::MAX - 1, u32::MAX, u32::MAX);
    assert!(r.contains_point(i32::MAX, i32::MAX));
    assert!(!r.contains_point(i32::MAX - 2, i32::MAX));
}

#[test]
fn rectangle_and_point_keep_their_fields() {
    let r = Rect::new(-3, 4, 5, 6);
    assert_eq!(r, Rect { x: -3, y: 4, width: 5, height: 6 });
    assert_eq!(Point::new(7, -8), Point { x: 7, y: -8 });
}

#[test]
fn named_colours() {
    assert_eq!(Color::white(), Color { r: 255, g: 255, b: 255, a: 255 });
    assert_eq!(Color::black(), Color { r: 0, g: 0, b: 0, a: 255 });
    assert_eq!(Color::grey(), Color { r: 128, g: 128, b: 128, a: 255 });
    assert_eq!(Color::red(), Color { r: 255, g: 0, b: 0, a: 255 });
    assert_eq!(Color::blue(), Color { r: 0, g: 0, b: 255, a: 255 });
    assert_eq!(Color::rgb(1, 2, 3), Color { r: 1, g: 2, b: 3, a: 255 });
}
