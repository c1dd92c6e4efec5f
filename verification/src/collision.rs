use vstd::prelude::*;

use crate::model::Rect;

verus! {

/// Two rectangles share some interior area: neither lies entirely above,
/// below, left or right of the other (touching edges do not count).
pub open spec fn overlaps(a: Rect, b: Rect) -> bool {
    !(a.y + a.h <= b.y || a.y >= b.y + b.h || a.x + a.w <= b.x || a.x >= b.x + b.w)
}

/// Tells whether the two rectangles overlap.
pub fn rects_overlap(a: &Rect, b: &Rect) -> (r: bool)
    requires
        a.edges_fit(),
        b.edges_fit(),
    ensures
        r == overlaps(*a, *b),
{
    let a_left = a.x;
    let a_right = a.x + a.w;
    let a_top = a.y;
    let a_bottom = a.y + a.h;

    let b_left = b.x;
    let b_right = b.x + b.w;
    let b_top = b.y;
    let b_bottom = b.y + b.h;

    !(a_bottom <= b_top || a_top >= b_bottom || a_right <= b_left || a_left >= b_right)
}

/// Two rectangles overlap exactly when their spans intersect on both axes,
/// each span taken half-open (`[x, x + w)`), so that rectangles sharing
/// only an edge do not overlap.
pub proof fn lemma_overlap_is_span_intersection(a: Rect, b: Rect)
    ensures
        overlaps(a, b) <==> (a.x < b.x + b.w && b.x < a.x + a.w && a.y < b.y + b.h && b.y < a.y
            + a.h),
{
}

/// Overlap does not depend on the order of the two rectangles.
pub proof fn lemma_overlap_symmetric(a: Rect, b: Rect)
    ensures
        overlaps(a, b) == overlaps(b, a),
{
}

} // verus!
