//! Axis-aligned rectangles, their overlap test and the side through which a
//! moving rectangle enters a static one.
use vstd::prelude::*;

verus! {

/// A position or a displacement, in half units (two per world unit), so that
/// the center of a rectangle of any whole size can be held exactly.
#[derive(Clone, Copy, Debug, PartialEq, Eq, Structural)]
pub struct IVec2 {
    pub x: i32,
    pub y: i32,
}

/// A full width (`x`) and height (`y`), in whole world units.
#[derive(Clone, Copy, Debug, PartialEq, Eq, Structural)]
pub struct UVec2 {
    pub x: u32,
    pub y: u32,
}

/// An axis-aligned rectangle given by its center (in half units) and its full
/// size (in world units). Each bound is then `center -/+ size` in half units.
#[derive(Clone, Copy, Debug, PartialEq, Eq, Structural)]
pub struct Rectangle {
    pub center: IVec2,
    pub size: UVec2,
}

/// The side of a static rectangle through which a moving rectangle enters it.
/// `Left` and `Bottom` are the faces with the smaller coordinate; `Inside`
/// means that no single face is crossed on the chosen axis.
#[derive(Clone, Copy, Debug, PartialEq, Eq, Structural)]
pub enum Collision {
    Left,
    Right,
    Top,
    Bottom,
    Inside,
}

/// The smallest x of `r`, in half units.
pub open spec fn min_x(r: Rectangle) -> int {
    r.center.x - r.size.x
}

/// The largest x of `r`, in half units.
pub open spec fn max_x(r: Rectangle) -> int {
    r.center.x + r.size.x
}

/// The smallest y of `r`, in half units.
pub open spec fn min_y(r: Rectangle) -> int {
    r.center.y - r.size.y
}

/// The largest y of `r`, in half units.
pub open spec fn max_y(r: Rectangle) -> int {
    r.center.y + r.size.y
}

/// The intervals `[lo1, hi1]` and `[lo2, hi2]` share a piece of positive length.
pub open spec fn spans_overlap(lo1: int, hi1: int, lo2: int, hi2: int) -> bool {
    lo1 < hi1 && lo2 < hi2 && lo1 < hi2 && lo2 < hi1
}

/// The closed rectangles share an intersection of positive area.
pub open spec fn rects_overlap(a: Rectangle, b: Rectangle) -> bool {
    spans_overlap(min_x(a), max_x(a), min_x(b), max_x(b)) && spans_overlap(
        min_y(a),
        max_y(a),
        min_y(b),
        max_y(b),
    )
}

/// On one axis, the face of `[b_lo, b_hi]` that `[a_lo, a_hi]` crosses: the
/// low face when `a` sticks out below it only, the high face when `a` sticks
/// out above it only, else none.
pub open spec fn entry_side(
    a_lo: int,
    a_hi: int,
    b_lo: int,
    b_hi: int,
    low: Collision,
    high: Collision,
) -> Collision {
    if a_lo < b_lo && a_hi < b_hi {
        low
    } else if a_lo > b_lo && a_hi > b_hi {
        high
    } else {
        Collision::Inside
    }
}

/// How far (in half units) `a` reaches past the face that `entry_side` names.
pub open spec fn entry_depth(a_lo: int, a_hi: int, b_lo: int, b_hi: int) -> int {
    if a_lo < b_lo && a_hi < b_hi {
        a_hi - b_lo
    } else {
        b_hi - a_lo
    }
}

/// The side of `b` that `a` enters through, or `None` where they do not
/// overlap. Of a horizontal and a vertical entry, the shallower one wins;
/// on a tie the horizontal one.
pub open spec fn collision_of(a: Rectangle, b: Rectangle) -> Option<Collision> {
    if !rects_overlap(a, b) {
        None
    } else {
        let xs = entry_side(min_x(a), max_x(a), min_x(b), max_x(b), Collision::Left, Collision::Right);
        let ys = entry_side(min_y(a), max_y(a), min_y(b), max_y(b), Collision::Bottom, Collision::Top);
        let xd = entry_depth(min_x(a), max_x(a), min_x(b), max_x(b));
        let yd = entry_depth(min_y(a), max_y(a), min_y(b), max_y(b));
        if ys != Collision::Inside && (xs == Collision::Inside || yd < xd) {
            Some(ys)
        } else {
            Some(xs)
        }
    }
}

impl IVec2 {
    pub fn new(x: i32, y: i32) -> (r: IVec2)
        ensures
            r.x == x,
            r.y == y,
    {
        IVec2 { x, y }
    }
}

impl UVec2 {
    pub fn new(x: u32, y: u32) -> (r: UVec2)
        ensures
            r.x == x,
            r.y == y,
    {
        UVec2 { x, y }
    }
}

impl Rectangle {
    pub fn from_center_size(center: IVec2, size: UVec2) -> (r: Rectangle)
        ensures
            r.center == center,
            r.size == size,
    {
        Rectangle { center, size }
    }

    fn bounds_x(&self) -> (r: (i64, i64))
        ensures
            r.0 == min_x(*self),
            r.1 == max_x(*self),
    {
        (self.center.x as i64 - self.size.x as i64, self.center.x as i64 + self.size.x as i64)
    }

    fn bounds_y(&self) -> (r: (i64, i64))
        ensures
            r.0 == min_y(*self),
            r.1 == max_y(*self),
    {
        (self.center.y as i64 - self.size.y as i64, self.center.y as i64 + self.size.y as i64)
    }
}

/// Whether the two rectangles share an intersection of positive area;
/// touching edges do not count.
pub fn overlaps(a: &Rectangle, b: &Rectangle) -> (r: bool)
    ensures
        r == rects_overlap(*a, *b),
{
    let (ax0, ax1) = a.bounds_x();
    let (ay0, ay1) = a.bounds_y();
    let (bx0, bx1) = b.bounds_x();
    let (by0, by1) = b.bounds_y();
    ax0 < ax1 && bx0 < bx1 && ax0 < bx1 && bx0 < ax1 && ay0 < ay1 && by0 < by1 && ay0 < by1 && by0
        < ay1
}

fn axis_entry(a_lo: i64, a_hi: i64, b_lo: i64, b_hi: i64, low: Collision, high: Collision) -> (r: (
    Collision,
    i64,
))
    requires
        a_lo <= a_hi,
        b_lo <= b_hi,
        -0x4_0000_0000 < a_lo,
        -0x4_0000_0000 < b_lo,
        a_hi < 0x4_0000_0000,
        b_hi < 0x4_0000_0000,
    ensures
        r.0 == entry_side(a_lo as int, a_hi as int, b_lo as int, b_hi as int, low, high),
        r.1 == entry_depth(a_lo as int, a_hi as int, b_lo as int, b_hi as int),
{
    if a_lo < b_lo && a_hi < b_hi {
        (low, a_hi - b_lo)
    } else if a_lo > b_lo && a_hi > b_hi {
        (high, b_hi - a_lo)
    } else {
        (Collision::Inside, b_hi - a_lo)
    }
}

/// The side of `stationary` that a rectangle about to occupy `moving_next`
/// enters through; `None` where the two do not overlap, which includes every
/// rectangle of zero width or height.
pub fn classify_collision(moving_next: &Rectangle, stationary: &Rectangle) -> (r: Option<Collision>)
    ensures
        r == collision_of(*moving_next, *stationary),
{
    if !overlaps(moving_next, stationary) {
        return None;
    }
    let (ax0, ax1) = moving_next.bounds_x();
    let (ay0, ay1) = moving_next.bounds_y();
    let (bx0, bx1) = stationary.bounds_x();
    let (by0, by1) = stationary.bounds_y();
    let (xs, xd) = axis_entry(ax0, ax1, bx0, bx1, Collision::Left, Collision::Right);
    let (ys, yd) = axis_entry(ay0, ay1, by0, by1, Collision::Bottom, Collision::Top);
    let y_first = match ys {
        Collision::Inside => false,
        _ => match xs {
            Collision::Inside => true,
            _ => yd < xd,
        },
    };
    if y_first {
        Some(ys)
    } else {
        Some(xs)
    }
}

/// Overlap does not depend on the order of the two rectangles.
pub proof fn lemma_overlaps_symmetric(a: Rectangle, b: Rectangle)
    ensures
        rects_overlap(a, b) == rects_overlap(b, a),
{
}

/// A rectangle of positive width and height overlaps itself.
pub proof fn lemma_overlaps_self(a: Rectangle)
    requires
        a.size.x > 0,
        a.size.y > 0,
    ensures
        rects_overlap(a, a),
{
}

/// Rectangles that are apart (or only touch) along either axis do not overlap.
pub proof fn lemma_separated_not_overlapping(a: Rectangle, b: Rectangle)
    requires
        max_x(a) <= min_x(b) || max_x(b) <= min_x(a) || max_y(a) <= min_y(b) || max_y(b) <= min_y(
            a,
        ),
    ensures
        !rects_overlap(a, b),
{
}

} // verus!
