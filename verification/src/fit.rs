//! Bounds fitter: the best-effort nudge applied when a parent has moved.
//!
//! When the window system reports that a window with a parent link has moved,
//! the child may have been left outside the parent. The current policy only
//! pulls the child's leading (left) edge back to the parent's: it does not
//! clamp the trailing edge and does not touch the vertical axis. That
//! asymmetry is an accepted limitation of the policy, kept as it is rather
//! than extended speculatively.

use vstd::prelude::*;
use crate::geometry::Frame;

verus! {

/// Where the nudge puts the child's leading edge: back at the parent's left
/// edge when it had moved out past it, untouched otherwise.
pub open spec fn fitted_x(parent: Frame, child: Frame) -> int {
    if child.x < parent.x {
        parent.x as int
    } else {
        child.x as int
    }
}

/// Nudges a child back inside its parent's leading edge: the size and the
/// vertical position are kept, the left edge becomes [`fitted_x`].
pub fn fit_to_parent_leading_edge(parent: &Frame, child: &Frame) -> (r: Frame)
    ensures
        r.x == fitted_x(*parent, *child),
        r.y == child.y,
        r.w == child.w,
        r.h == child.h,
{
    if child.x < parent.x {
        Frame { x: parent.x, y: child.y, w: child.w, h: child.h }
    } else {
        *child
    }
}

} // verus!
