//! Axis-aligned rectangles and the collision test, together with the fixed
//! bounding boxes of the player and of obstacles.

use vstd::prelude::*;
use crate::cactus::Cactus;
use crate::config::{
    CACTUS_HEIGHT, CACTUS_WIDTH, CACTUS_Y, COORD_LIMIT, DINO_HEIGHT, DINO_WIDTH, DINO_X,
    SIZE_LIMIT,
};
use crate::dino::Dino;

verus! {

/// An axis-aligned rectangle in micro-units; `y` grows downward.
#[derive(Clone, Copy, PartialEq, Eq, Structural, Debug)]
pub struct Rect {
    /// Left edge.
    pub x: i64,
    /// Top edge.
    pub y: i64,
    /// Width, never negative.
    pub w: i64,
    /// Height, never negative.
    pub h: i64,
}

/// Whether two axis-aligned rectangles overlap: their intervals intersect
/// on both axes. Rectangles that merely touch count as overlapping; the
/// same convention is applied on both axes and in the game's collision
/// test.
pub open spec fn overlap_spec(a: Rect, b: Rect) -> bool {
    &&& a.x <= b.x + b.w
    &&& b.x <= a.x + a.w
    &&& a.y <= b.y + b.h
    &&& b.y <= a.y + a.h
}

impl Rect {
    /// Bounds that keep every sum in the overlap test inside `i64`.
    pub open spec fn wf(self) -> bool {
        &&& -COORD_LIMIT <= self.x <= COORD_LIMIT
        &&& -COORD_LIMIT <= self.y <= COORD_LIMIT
        &&& 0 <= self.w <= SIZE_LIMIT
        &&& 0 <= self.h <= SIZE_LIMIT
    }

    /// The standard axis-aligned overlap test.
    pub fn overlaps(&self, other: &Rect) -> (r: bool)
        requires
            self.wf(),
            other.wf(),
        ensures
            r == overlap_spec(*self, *other),
    {
        self.x <= other.x + other.w && other.x <= self.x + self.w && self.y <= other.y + other.h
            && other.y <= self.y + self.h
    }
}

/// Overlap is symmetric.
pub proof fn lemma_overlap_symmetric(a: Rect, b: Rect)
    ensures
        overlap_spec(a, b) == overlap_spec(b, a),
{
}

/// Rectangles separated by a gap on either axis do not overlap.
pub proof fn lemma_overlap_disjoint(a: Rect, b: Rect)
    requires
        a.x + a.w < b.x || b.x + b.w < a.x || a.y + a.h < b.y || b.y + b.h < a.y,
    ensures
        !overlap_spec(a, b),
{
}

/// The player's bounding box: fixed horizontal position and size, vertical
/// position taken from the body.
pub open spec fn dino_rect_spec(d: Dino) -> Rect {
    Rect { x: DINO_X, y: d.y, w: DINO_WIDTH, h: DINO_HEIGHT }
}

/// Builds the player's bounding box.
pub fn dino_rect(d: &Dino) -> (r: Rect)
    requires
        d.wf(),
    ensures
        r == dino_rect_spec(*d),
        r.wf(),
{
    proof {
        d.lemma_wf_bounds();
    }
    Rect { x: DINO_X, y: d.y, w: DINO_WIDTH, h: DINO_HEIGHT }
}

/// An obstacle's bounding box: fixed vertical position and size, horizontal
/// position taken from the obstacle.
pub open spec fn cactus_rect_spec(c: Cactus) -> Rect {
    Rect { x: c.x, y: CACTUS_Y, w: CACTUS_WIDTH, h: CACTUS_HEIGHT }
}

/// Builds an obstacle's bounding box.
pub fn cactus_rect(c: &Cactus) -> (r: Rect)
    requires
        -COORD_LIMIT <= c.x <= COORD_LIMIT,
    ensures
        r == cactus_rect_spec(*c),
        r.wf(),
{
    Rect { x: c.x, y: CACTUS_Y, w: CACTUS_WIDTH, h: CACTUS_HEIGHT }
}

} // verus!
