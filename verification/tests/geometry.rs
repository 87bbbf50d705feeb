use tile_world::{is_overlaped, Axis, Rect, Vec2, COORD_LIMIT, TILE_SIZE};

#[test]
fn overlapping_rectangles_overlap() {
    let a = Rect::new(0, 0, 32, 32);
    let b = Rect::new(31, 31, 32, 32);
    assert!(is_overlaped(&a, &b));
    assert!(is_overlaped(&b, &a));
}

#[test]
fn a_rectangle_overlaps_itself() {
    let a = Rect::new(5, 7, 1, 1);
    assert!(is_overlaped(&a, &a));
}

#[test]
fn rectangles_that_share_an_edge_do_not_overlap() {
    let a = Rect::new(0, 0, 32, 32);
    let right = Rect::new(32, 0, 32, 32);
    let below = Rect::new(0, 32, 32, 32);
    let left = Rect::new(-32, 0, 32, 32);
    let above = Rect::new(0, -32, 32, 32);
    for other in [right, below, left, above] {
        assert!(!is_overlaped(&a, &other));
        assert!(!is_overlaped(&other, &a));
    }
}

#[test]
fn rectangles_that_share_a_corner_do_not_overlap() {
    let a = Rect::new(0, 0, 32, 32);
    let b = Rect::new(32, 32, 32, 32);
    assert!(!is_overlaped(&a, &b));
}

#[test]
fn one_pixel_past_the_edge_overlaps() {
    let a = Rect::new(0, 0, 32, 32);
    assert!(is_overlaped(&a, &Rect::new(31, 0, 32, 32)));
    assert!(is_overlaped(&a, &Rect::new(0, 31, 32, 32)));
    assert!(is_overlaped(&a, &Rect::new(-31, 0, 32, 32)));
    assert!(is_overlaped(&a, &Rect::new(0, -31, 32, 32)));
}

#[test]
fn overlap_needs_both_axes() {
    let a = Rect::new(0, 0, 32, 32);
    // same columns, far below
    assert!(!is_overlaped(&a, &Rect::new(0, 100, 32, 32)));
    // same rows, far to the right
    assert!(!is_overlaped(&a, &Rect::new(100, 0, 32, 32)));
}

#[test]
fn a_rectangle_inside_another_overlaps_it() {
    let outer = Rect::new(0, 0, 100, 100);
    let inner = Rect::new(40, 40, 10, 10);
    assert!(is_overlaped(&outer, &inner));
    assert!(is_overlaped(&inner, &outer));
}

#[test]
fn an_empty_rectangle_inside_another_overlaps_it() {
    let outer = Rect::new(0, 0, 100, 100);
    let point = Rect::new(40, 40, 0, 0);
    assert!(is_overlaped(&outer, &point));
    // but not on the edge
    assert!(!is_overlaped(&outer, &Rect::new(0, 40, 0, 0)));
}

#[test]
fn overlap_is_decided_at_the_ends_of_the_number_range() {
    let far = Rect::new(i64::MAX, i64::MAX, i64::MAX, i64::MAX);
    let near = Rect::new(i64::MAX - 1, i64::MAX - 1, 2, 2);
    assert!(is_overlaped(&far, &near));
    let low = Rect::new(i64::MIN, i64::MIN, 1, 1);
    assert!(!is_overlaped(&far, &low));
    assert!(is_overlaped(&low, &low));
}

#[test]
fn edges_of_a_rectangle() {
    let r = Rect::new(10, 20, 30, 40);
    assert_eq!(r.left(), 10);
    assert_eq!(r.right(), 40);
    assert_eq!(r.top(), 20);
    assert_eq!(r.bottom(), 60);
    assert_eq!(r.point(), Vec2::new(10, 20));
    assert_eq!(r.size(), Vec2::new(30, 40));
}

#[test]
fn edges_along_an_axis() {
    let r = Rect::new(10, 20, 30, 40);
    assert_eq!(r.near(Axis::Horizontal), 10);
    assert_eq!(r.far(Axis::Horizontal), 40);
    assert_eq!(r.extent(Axis::Horizontal), 30);
    assert_eq!(r.near(Axis::Vertical), 20);
    assert_eq!(r.far(Axis::Vertical), 60);
    assert_eq!(r.extent(Axis::Vertical), 40);
}

#[test]
fn sliding_a_rectangle_keeps_the_other_axis_and_the_size() {
    let r = Rect::new(10, 20, 30, 40);
    assert_eq!(r.at(Axis::Horizontal, -5), Rect::new(-5, 20, 30, 40));
    assert_eq!(r.at(Axis::Vertical, 99), Rect::new(10, 99, 30, 40));
}

#[test]
fn rect_new_keeps_its_arguments() {
    let r = Rect::new(-1, -2, 3, 4);
    assert_eq!(r, Rect { x: -1, y: -2, w: 3, h: 4 });
}

#[test]
fn the_constants_of_the_grid() {
    assert_eq!(TILE_SIZE, 32);
    assert_eq!(COORD_LIMIT, 4_194_304);
    assert_eq!(COORD_LIMIT % TILE_SIZE, 0);
}

#[test]
fn a_rectangle_in_range_has_every_field_within_the_limit() {
    assert!(Rect::new(0, 0, 0, 0).is_in_range());
    assert!(Rect::new(4_194_304, -4_194_304, 4_194_304, -4_194_304).is_in_range());
    assert!(!Rect::new(4_194_305, 0, 0, 0).is_in_range());
    assert!(!Rect::new(0, -4_194_305, 0, 0).is_in_range());
    assert!(!Rect::new(0, 0, 4_194_305, 0).is_in_range());
    assert!(!Rect::new(0, 0, 0, -4_194_305).is_in_range());
}

#[test]
fn a_rectangle_in_reach_may_stand_three_limits_out() {
    assert!(Rect::new(12_582_912, -12_582_912, 4_194_304, -4_194_304).is_in_reach());
    assert!(!Rect::new(12_582_913, 0, 0, 0).is_in_reach());
    assert!(!Rect::new(0, -12_582_913, 0, 0).is_in_reach());
    assert!(!Rect::new(0, 0, 4_194_305, 0).is_in_reach());
    assert!(!Rect::new(0, 0, 0, -4_194_305).is_in_reach());
}
