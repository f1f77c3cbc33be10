//! Axis-aligned box overlap, on whole-pixel coordinates.

use vstd::prelude::*;

verus! {

/// A box given by its top-left corner, width and height.
#[derive(Clone, Copy, Debug, PartialEq, Eq, Structural)]
pub struct Hitbox {
    pub x: i32,
    pub y: i32,
    pub w: i32,
    pub h: i32,
}

impl Hitbox {
    pub fn new(x: i32, y: i32, w: i32, h: i32) -> (b: Hitbox)
        ensures
            b == (Hitbox { x, y, w, h }),
    {
        Hitbox { x, y, w, h }
    }
}

/// Two boxes overlap when their interiors meet: sharing only an edge is no
/// overlap.
pub open spec fn overlaps(a: Hitbox, b: Hitbox) -> bool {
    &&& a.x < b.x + b.w
    &&& a.x + a.w > b.x
    &&& a.y < b.y + b.h
    &&& a.y + a.h > b.y
}

/// Whether the boxes `a` and `b` overlap.
pub fn check_collision(a: &Hitbox, b: &Hitbox) -> (r: bool)
    ensures
        r == overlaps(*a, *b),
{
    (a.x as i64) < (b.x as i64) + (b.w as i64) && (a.x as i64) + (a.w as i64) > (b.x as i64)
        && (a.y as i64) < (b.y as i64) + (b.h as i64) && (a.y as i64) + (a.h as i64) > (
    b.y as i64)
}

/// Whether two boxes given as `(x, y, w, h)` overlap.
pub fn rects_overlap(r1: (i32, i32, i32, i32), r2: (i32, i32, i32, i32)) -> (r: bool)
    ensures
        r == overlaps(Hitbox { x: r1.0, y: r1.1, w: r1.2, h: r1.3 }, Hitbox { x: r2.0, y: r2.1, w: r2.2, h: r2.3 }),
{
    check_collision(&Hitbox::new(r1.0, r1.1, r1.2, r1.3), &Hitbox::new(r2.0, r2.1, r2.2, r2.3))
}

/// Overlap does not depend on the order of the boxes.
pub proof fn lemma_overlap_symmetric(a: Hitbox, b: Hitbox)
    ensures
        overlaps(a, b) == overlaps(b, a),
{
}

/// Boxes that only share an edge do not overlap.
pub proof fn lemma_touching_boxes_do_not_overlap(a: Hitbox, b: Hitbox)
    requires
        a.x + a.w == b.x || b.x + b.w == a.x || a.y + a.h == b.y || b.y + b.h == a.y,
    ensures
        !overlaps(a, b),
{
}

/// A box with area overlaps itself.
pub proof fn lemma_box_overlaps_itself(a: Hitbox)
    requires
        a.w > 0,
        a.h > 0,
    ensures
        overlaps(a, a),
{
}

} // verus!
