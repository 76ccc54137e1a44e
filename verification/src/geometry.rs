//! Axis-aligned overlap testing between a target element's bounding box and
//! the rectangles described by a pointer or touch event.

use vstd::prelude::*;

verus! {

/// An axis-aligned rectangle in viewport coordinates.
///
/// A point event is represented as a degenerate rectangle whose `top`
/// equals its `bottom` and whose `left` equals its `right`.
#[derive(Clone, Copy, PartialEq, Eq, Structural, Debug)]
pub struct Rect {
    pub top: i64,
    pub right: i64,
    pub bottom: i64,
    pub left: i64,
}

/// Two rectangles overlap exactly when their x-intervals intersect and
/// their y-intervals intersect, with inclusive bounds.
pub open spec fn rects_overlap(a: Rect, b: Rect) -> bool {
    &&& !(a.left > b.right || a.right < b.left)
    &&& !(a.top > b.bottom || a.bottom < b.top)
}

/// Whether any rectangle of `rects` overlaps `target`.
pub open spec fn spec_any_overlap(target: Rect, rects: Seq<Rect>) -> bool {
    exists|i: int| 0 <= i < rects.len() && rects_overlap(target, #[trigger] rects[i])
}

/// Whether any of `rects` overlaps the target's bounding rectangle.
pub fn are_rectangles_overlapping(dom_rect: &Rect, rects: &Vec<Rect>) -> (r: bool)
    ensures
        r == spec_any_overlap(*dom_rect, rects@),
{
    let mut index: usize = 0;
    while index < rects.len()
        invariant
            index <= rects@.len(),
            forall|j: int| 0 <= j < index ==> !rects_overlap(*dom_rect, #[trigger] rects@[j]),
        decreases rects@.len() - index,
    {
        let rect = &rects[index];
        let x_apart = dom_rect.left > rect.right || dom_rect.right < rect.left;
        let y_apart = dom_rect.top > rect.bottom || dom_rect.bottom < rect.top;
        if !x_apart && !y_apart {
            return true;
        }
        index += 1;
    }
    false
}

/// Whether the input point rectangles of an event lie over the target,
/// given the target's bounding client rectangle.
pub fn is_above_target(point_rects: &Vec<Rect>, target_rect: &Rect) -> (r: bool)
    ensures
        r == spec_any_overlap(*target_rect, point_rects@),
{
    are_rectangles_overlapping(target_rect, point_rects)
}

} // verus!
