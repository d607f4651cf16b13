//! Geometry clamp functions shared by move and edge-resize gestures.
//!
//! A [`Frame`] is a rectangle given as origin plus size in the window
//! system's native units, with a bottom-left origin: `y` grows upward, the
//! frame's top edge lies at `y + h`. All clamps are pure functions of the
//! parent's frame, the child's frame, the gesture's delta and a minimum size.

use vstd::prelude::*;
use vstd::math::{max, min};

verus! {

/// Magnitude bound on every coordinate, size, delta and minimum size handed
/// to the executable geometry functions, so that the few additions a clamp
/// performs can never overflow an `i64`. Real window geometry is far below it.
pub const GEOMETRY_LIMIT: i64 = 0x100_0000_0000;

/// One number is within the magnitude bound.
pub open spec fn mag_ok(v: int) -> bool {
    -GEOMETRY_LIMIT <= v <= GEOMETRY_LIMIT
}

/// A looser magnitude bound, eight times [`mag_ok`]'s: the clamp functions
/// only require this much, so that a frame built by one clamp from in-bound
/// inputs can be handed to a second clamp, as the corner resizes do.
pub open spec fn mag_wide(v: int) -> bool {
    -8 * GEOMETRY_LIMIT <= v <= 8 * GEOMETRY_LIMIT
}

/// A rectangle as origin plus size, bottom-left origin.
#[derive(Clone, Copy, Debug, PartialEq, Eq, Structural)]
pub struct Frame {
    pub x: i64,
    pub y: i64,
    pub w: i64,
    pub h: i64,
}

impl Frame {
    /// Every field is within the magnitude bound.
    pub open spec fn fits(self) -> bool {
        mag_ok(self.x as int) && mag_ok(self.y as int) && mag_ok(self.w as int) && mag_ok(
            self.h as int,
        )
    }

    /// Every field is within the loose magnitude bound.
    pub open spec fn wide(self) -> bool {
        mag_wide(self.x as int) && mag_wide(self.y as int) && mag_wide(self.w as int) && mag_wide(
            self.h as int,
        )
    }

    /// The x coordinate just past the right edge.
    pub open spec fn right(self) -> int {
        self.x + self.w
    }

    /// The y coordinate just past the top edge (bottom-left origin).
    pub open spec fn top(self) -> int {
        self.y + self.h
    }
}

/// Where a horizontal move of `delta_x` puts a child of width `w` whose left
/// edge is at `x`: the proposed position, pulled back so the child stays
/// within the parent's interior width. The far-edge clamp is applied last,
/// so it wins when the child is wider than the parent.
pub open spec fn moved_x_pos(parent: Frame, x: int, w: int, delta_x: int) -> int {
    min(max(x + delta_x, parent.x as int), parent.right() - w)
}

/// The vertical counterpart of [`moved_x_pos`]. The pointer delta is given in
/// a top-left convention, so a positive `delta_y` moves the child downward.
pub open spec fn moved_y_pos(parent: Frame, y: int, h: int, delta_y: int) -> int {
    min(max(y - delta_y, parent.y as int), parent.top() - h)
}

/// Recomputes a child's frame for a drag-move of `(delta_x, delta_y)`: the
/// size is kept, the origin is clamped so the frame stays within the parent's
/// interior bounds on both axes.
pub fn move_child_window(parent: &Frame, child: &Frame, delta_x: i64, delta_y: i64) -> (r: Frame)
    requires
        parent.wide(),
        child.wide(),
        mag_wide(delta_x as int),
        mag_wide(delta_y as int),
    ensures
        r.w == child.w,
        r.h == child.h,
        r.x == moved_x_pos(*parent, child.x as int, child.w as int, delta_x as int),
        r.y == moved_y_pos(*parent, child.y as int, child.h as int, delta_y as int),
{
    let mut x = child.x + delta_x;
    if x < parent.x {
        x = parent.x;
    }
    let far_x = parent.x + parent.w - child.w;
    if x > far_x {
        x = far_x;
    }
    let mut y = child.y - delta_y;
    if y < parent.y {
        y = parent.y;
    }
    let far_y = parent.y + parent.h - child.h;
    if y > far_y {
        y = far_y;
    }
    Frame { x, y, w: child.w, h: child.h }
}

/// The width a right-edge resize of `delta_x` gives a child: the proposed
/// width, raised to `min_width`, then cut so the right edge stays within the
/// parent. The parent bound is applied last, so it wins over the minimum.
pub open spec fn right_resized_w(parent: Frame, child: Frame, delta_x: int, min_width: int) -> int {
    min(max(child.w + delta_x, min_width), parent.right() - child.x)
}

/// Resizes a child by its right edge: the origin and height are kept and the
/// width becomes [`right_resized_w`].
pub fn resize_right_frame(parent: &Frame, child: &Frame, delta_x: i64, min_width: i64) -> (r: Frame)
    requires
        parent.wide(),
        child.wide(),
        mag_wide(delta_x as int),
        mag_wide(min_width as int),
    ensures
        r.x == child.x,
        r.y == child.y,
        r.h == child.h,
        r.w == right_resized_w(*parent, *child, delta_x as int, min_width as int),
{
    let mut width = child.w + delta_x;
    if width < min_width {
        width = min_width;
    }
    let far = parent.x + parent.w - child.x;
    if width > far {
        width = far;
    }
    Frame { x: child.x, y: child.y, w: width, h: child.h }
}

/// The height a top-edge resize of `delta_y` gives a child; the vertical
/// counterpart of [`right_resized_w`]. A negative `delta_y` grows the child
/// upward; the parent's far bound `parent.top() - child.y` is applied last.
pub open spec fn top_resized_h(parent: Frame, child: Frame, delta_y: int, min_height: int) -> int {
    min(max(child.h - delta_y, min_height), parent.top() - child.y)
}

/// Resizes a child by its top edge: the origin and width are kept and the
/// height becomes [`top_resized_h`].
pub fn resize_top_frame(parent: &Frame, child: &Frame, delta_y: i64, min_height: i64) -> (r: Frame)
    requires
        parent.wide(),
        child.wide(),
        mag_wide(delta_y as int),
        mag_wide(min_height as int),
    ensures
        r.x == child.x,
        r.y == child.y,
        r.w == child.w,
        r.h == top_resized_h(*parent, *child, delta_y as int, min_height as int),
{
    let mut height = child.h - delta_y;
    if height < min_height {
        height = min_height;
    }
    let far = parent.y + parent.h - child.y;
    if height > far {
        height = far;
    }
    Frame { x: child.x, y: child.y, w: child.w, h: height }
}

/// A left-edge resize leaves the child unchanged when the proposed width
/// would not stay above the minimum.
pub open spec fn left_resize_blocked(child: Frame, delta_x: int, min_width: int) -> bool {
    child.w - delta_x <= min_width
}

/// The left-edge position a left-edge resize of `delta_x` gives a child when
/// not blocked: the proposed edge, kept far enough from the parent's right
/// bound to leave `min_width` of room, and not left of the parent's own left
/// edge, which is applied last and so wins.
pub open spec fn left_resized_x(parent: Frame, child: Frame, delta_x: int, min_width: int) -> int {
    max(min(child.x + delta_x, parent.right() - min_width), parent.x as int)
}

/// Resizes a child by its left edge: the right edge `child.x + child.w` and
/// the height are kept and the left edge moves to [`left_resized_x`], unless
/// the resize is blocked by the minimum width, in which case the child is
/// returned unchanged.
pub fn resize_left_frame(parent: &Frame, child: &Frame, delta_x: i64, min_width: i64) -> (r: Frame)
    requires
        parent.wide(),
        child.wide(),
        mag_wide(delta_x as int),
        mag_wide(min_width as int),
    ensures
        left_resize_blocked(*child, delta_x as int, min_width as int) ==> r == *child,
        !left_resize_blocked(*child, delta_x as int, min_width as int) ==> {
            &&& r.x == left_resized_x(*parent, *child, delta_x as int, min_width as int)
            &&& r.x + r.w == child.x + child.w
            &&& r.y == child.y
            &&& r.h == child.h
        },
{
    if child.w - delta_x <= min_width {
        return *child;
    }
    let mut x = child.x + delta_x;
    let far = parent.x + parent.w - min_width;
    if x > far {
        x = far;
    }
    if x < parent.x {
        x = parent.x;
    }
    Frame { x, y: child.y, w: child.w + child.x - x, h: child.h }
}

/// A bottom-edge resize leaves the child unchanged when the proposed height
/// would not stay above the minimum. A positive `delta_y` grows the child
/// downward (the pointer delta is given in a top-left convention).
pub open spec fn bottom_resize_blocked(child: Frame, delta_y: int, min_height: int) -> bool {
    child.h + delta_y <= min_height
}

/// The bottom-edge position a bottom-edge resize of `delta_y` gives a child
/// when not blocked: the proposed edge, kept at or above the parent's bottom.
pub open spec fn bottom_resized_y(parent: Frame, child: Frame, delta_y: int) -> int {
    max(child.y - delta_y, parent.y as int)
}

/// Resizes a child by its bottom edge: the top edge `child.y + child.h` and
/// the width are kept and the bottom edge moves to [`bottom_resized_y`],
/// unless the resize is blocked by the minimum height, in which case the
/// child is returned unchanged.
pub fn resize_bottom_frame(parent: &Frame, child: &Frame, delta_y: i64, min_height: i64) -> (r:
    Frame)
    requires
        parent.wide(),
        child.wide(),
        mag_wide(delta_y as int),
        mag_wide(min_height as int),
    ensures
        bottom_resize_blocked(*child, delta_y as int, min_height as int) ==> r == *child,
        !bottom_resize_blocked(*child, delta_y as int, min_height as int) ==> {
            &&& r.y == bottom_resized_y(*parent, *child, delta_y as int)
            &&& r.y + r.h == child.y + child.h
            &&& r.x == child.x
            &&& r.w == child.w
        },
{
    if child.h + delta_y <= min_height {
        return *child;
    }
    let mut y = child.y - delta_y;
    if y < parent.y {
        y = parent.y;
    }
    Frame { x: child.x, y, w: child.w, h: child.h + child.y - y }
}

/// Law: the width a right-edge resize yields is monotonic non-decreasing in
/// the drag delta.
pub proof fn lemma_resize_right_monotonic(
    parent: Frame,
    child: Frame,
    d1: int,
    d2: int,
    min_width: int,
)
    requires
        d1 <= d2,
    ensures
        right_resized_w(parent, child, d1, min_width) <= right_resized_w(
            parent,
            child,
            d2,
            min_width,
        ),
{
}

/// Law: a right-edge resize never drops the width below the minimum as long
/// as a child of minimum width fits beside the parent's right bound, never
/// pushes the child's right edge past that bound, and once the bound is
/// reached the width stays constant at the bound for every larger delta.
pub proof fn lemma_resize_right_clamp(parent: Frame, child: Frame, delta_x: int, min_width: int)
    requires
        child.x + min_width <= parent.right(),
    ensures
        min_width <= right_resized_w(parent, child, delta_x, min_width),
        child.x + right_resized_w(parent, child, delta_x, min_width) <= parent.right(),
        parent.right() - child.x <= child.w + delta_x ==> right_resized_w(
            parent,
            child,
            delta_x,
            min_width,
        ) == parent.right() - child.x,
{
}

/// Law: the height a top-edge resize yields is monotonic non-increasing in
/// the drag delta (a negative delta grows the child upward); the vertical
/// mirror of [`lemma_resize_right_monotonic`].
pub proof fn lemma_resize_top_monotonic(
    parent: Frame,
    child: Frame,
    d1: int,
    d2: int,
    min_height: int,
)
    requires
        d1 <= d2,
    ensures
        top_resized_h(parent, child, d2, min_height) <= top_resized_h(
            parent,
            child,
            d1,
            min_height,
        ),
{
}

/// Law: the top-edge resize clamp is the vertical mirror of the right-edge
/// one. The height never drops below the minimum as long as a child of
/// minimum height fits below the parent's far (top) bound, the child's top
/// edge never passes that bound, and once the bound is reached the height
/// stays constant at the bound for every larger upward delta.
pub proof fn lemma_resize_top_clamp(parent: Frame, child: Frame, delta_y: int, min_height: int)
    requires
        child.y + min_height <= parent.top(),
    ensures
        min_height <= top_resized_h(parent, child, delta_y, min_height),
        child.y + top_resized_h(parent, child, delta_y, min_height) <= parent.top(),
        parent.top() - child.y <= child.h - delta_y ==> top_resized_h(
            parent,
            child,
            delta_y,
            min_height,
        ) == parent.top() - child.y,
{
}

/// The frame with its axes swapped: the vertical data where the horizontal
/// was, and the other way round.
pub open spec fn transposed(f: Frame) -> Frame {
    Frame { x: f.y, y: f.x, w: f.h, h: f.w }
}

/// Law: the top-edge resize clamp is symmetric on the vertical axis — it is
/// exactly the right-edge clamp applied to the axis-swapped frames, with the
/// delta's sign flipped for the opposite direction convention.
pub proof fn lemma_resize_top_mirrors_right(
    parent: Frame,
    child: Frame,
    delta_y: int,
    min_height: int,
)
    ensures
        top_resized_h(parent, child, delta_y, min_height) == right_resized_w(
            transposed(parent),
            transposed(child),
            -delta_y,
            min_height,
        ),
{
}

/// Where a child of size `(w, h)` whose origin starts at `(x, y)` ends up
/// after the whole sequence of drag deltas is applied, each step clamped by
/// [`moved_x_pos`] and [`moved_y_pos`].
pub open spec fn dragged_pos(
    parent: Frame,
    w: int,
    h: int,
    x: int,
    y: int,
    deltas: Seq<(int, int)>,
) -> (int, int)
    decreases deltas.len(),
{
    if deltas.len() == 0 {
        (x, y)
    } else {
        let x1 = moved_x_pos(parent, x, w, deltas[0].0);
        let y1 = moved_y_pos(parent, y, h, deltas[0].1);
        dragged_pos(parent, w, h, x1, y1, deltas.drop_first())
    }
}

/// Law (move-clamp invariant): after any nonempty sequence of drag deltas,
/// however large each single delta is, a child that fits in the parent lies
/// fully within the parent's bounds on both axes.
pub proof fn lemma_move_clamp_invariant(
    parent: Frame,
    w: int,
    h: int,
    x: int,
    y: int,
    deltas: Seq<(int, int)>,
)
    requires
        0 <= w <= parent.w,
        0 <= h <= parent.h,
        deltas.len() >= 1,
    ensures
        ({
            let pos = dragged_pos(parent, w, h, x, y, deltas);
            parent.x <= pos.0 && pos.0 + w <= parent.right() && parent.y <= pos.1 && pos.1 + h
                <= parent.top()
        }),
    decreases deltas.len(),
{
    let x1 = moved_x_pos(parent, x, w, deltas[0].0);
    let y1 = moved_y_pos(parent, y, h, deltas[0].1);
    if deltas.len() > 1 {
        lemma_move_clamp_invariant(parent, w, h, x1, y1, deltas.drop_first());
    } else {
        assert(dragged_pos(parent, w, h, x1, y1, deltas.drop_first()) == (x1, y1));
    }
}

} // verus!
