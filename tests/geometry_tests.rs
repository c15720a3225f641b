use topdown::geometry::{classify_collision, overlaps, Collision, IVec2, Rectangle, UVec2};

/// The point (x, y) in world units, held in half units.
fn at(x: i32, y: i32) -> IVec2 {
    IVec2::new(2 * x, 2 * y)
}


fn rect(x: i32, y: i32, w: u32, h: u32) -> Rectangle {
    Rectangle::from_center_size(at(x, y), UVec2::new(w, h))
}

#[test]
fn overlap_is_symmetric() {
    let a = rect(0, 0, 10, 10);
    let b = rect(7, 3, 6, 6);
    let c = rect(40, 0, 10, 10);
    assert_eq!(overlaps(&a, &b), overlaps(&b, &a));
    assert!(overlaps(&a, &b));
    assert_eq!(overlaps(&a, &c), overlaps(&c, &a));
    assert!(!overlaps(&a, &c));
}

#[test]
fn rectangle_overlaps_itself() {
    let a = rect(-3, 8, 1, 1);
    assert!(overlaps(&a, &a));
}

#[test]
fn zero_size_rectangle_overlaps_nothing() {
    let a = rect(0, 0, 0, 10);
    let b = rect(0, 0, 20, 20);
    assert!(!overlaps(&a, &a));
    assert!(!overlaps(&a, &b));
    assert_eq!(classify_collision(&a, &b), None);
}

#[test]
fn touching_edges_do_not_overlap() {
    let a = rect(0, 0, 10, 10);
    let right = rect(10, 0, 10, 10);
    let above = rect(0, 10, 10, 10);
    assert!(!overlaps(&a, &right));
    assert!(!overlaps(&a, &above));
    assert_eq!(classify_collision(&a, &right), None);
}

#[test]
fn odd_sizes_use_half_units() {
    let a = rect(0, 0, 3, 3);
    assert!(!overlaps(&a, &rect(3, 0, 3, 3)));
    assert!(overlaps(&a, &rect(2, 0, 3, 3)));
}

#[test]
fn classify_left_and_right() {
    let obstacle = rect(250, 0, 50, 100);
    assert_eq!(classify_collision(&rect(205, 0, 50, 100), &obstacle), Some(Collision::Left));
    assert_eq!(classify_collision(&rect(270, 0, 50, 100), &obstacle), Some(Collision::Right));
}

#[test]
fn classify_bottom_and_top() {
    let obstacle = rect(0, 0, 50, 100);
    assert_eq!(classify_collision(&rect(0, -90, 50, 100), &obstacle), Some(Collision::Bottom));
    assert_eq!(classify_collision(&rect(0, 90, 50, 100), &obstacle), Some(Collision::Top));
}

#[test]
fn classify_prefers_shallower_axis() {
    let a = rect(0, 0, 10, 10);
    assert_eq!(classify_collision(&a, &rect(2, 8, 10, 10)), Some(Collision::Bottom));
    assert_eq!(classify_collision(&a, &rect(8, 2, 10, 10)), Some(Collision::Left));
}

#[test]
fn classify_tie_goes_to_horizontal() {
    let a = rect(0, 0, 10, 10);
    assert_eq!(classify_collision(&a, &rect(8, 8, 10, 10)), Some(Collision::Left));
}

#[test]
fn classify_inside() {
    let a = rect(0, 0, 10, 10);
    assert_eq!(classify_collision(&a, &rect(0, 0, 20, 20)), Some(Collision::Inside));
    assert_eq!(classify_collision(&rect(0, 0, 20, 20), &a), Some(Collision::Inside));
}

#[test]
fn classify_none_when_apart() {
    assert_eq!(classify_collision(&rect(-250, 0, 50, 100), &rect(250, 0, 50, 100)), None);
}
