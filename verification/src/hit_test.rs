//! Edge-margin hit test for resize gestures.
//!
//! A borderless child window has no native resize edges, so the pointer is
//! hit-tested manually: it is "on an edge" if its distance to that edge is
//! within an inner margin when inside the child's bounds, or within a larger
//! outer margin when outside, which makes a zero-border window easy to grab
//! from just outside its edge. A pointer in the zones of two adjacent edges
//! at once is on the corner between them, and corners take precedence over
//! single edges.

use vstd::prelude::*;
use crate::geometry::{mag_ok, mag_wide, Frame, GEOMETRY_LIMIT};

verus! {

/// Margin within which a pointer inside the child's bounds counts as on an
/// edge.
pub const INNER_L: i64 = 10;

/// Margin within which a pointer outside the child's bounds counts as on an
/// edge.
pub const OUTER_L: i64 = 20;

/// The edge or corner a resize gesture acts on.
#[derive(Clone, Copy, Debug, PartialEq, Eq, Structural)]
pub enum ResizeEdge {
    Left,
    Right,
    Top,
    Bottom,
    TopLeft,
    TopRight,
    BottomLeft,
    BottomRight,
}

/// The pointer is in one edge's zone, given its signed distance to the edge,
/// measured inward: within [`INNER_L`] when inside the child's bounds, within
/// [`OUTER_L`] when outside.
pub open spec fn near_edge(d: int) -> bool {
    if d < 0 {
        -d <= OUTER_L
    } else {
        d <= INNER_L
    }
}

/// Which zone a pointer at `(x, y)` is in, for a child of size `(w, h)`, in
/// child-local coordinates with a bottom-left origin. Corners come first, so
/// they take precedence over single edges; among the single edges the bottom
/// is checked first, then left, right and top.
pub open spec fn edge_zone(w: int, h: int, x: int, y: int) -> Option<ResizeEdge> {
    let near_left = near_edge(x);
    let near_right = near_edge(w - x);
    let near_bottom = near_edge(y);
    let near_top = near_edge(h - y);
    if near_top && near_left {
        Some(ResizeEdge::TopLeft)
    } else if near_top && near_right {
        Some(ResizeEdge::TopRight)
    } else if near_bottom && near_left {
        Some(ResizeEdge::BottomLeft)
    } else if near_bottom && near_right {
        Some(ResizeEdge::BottomRight)
    } else if near_bottom {
        Some(ResizeEdge::Bottom)
    } else if near_left {
        Some(ResizeEdge::Left)
    } else if near_right {
        Some(ResizeEdge::Right)
    } else if near_top {
        Some(ResizeEdge::Top)
    } else {
        None
    }
}

/// Whether the pointer's signed inward distance `d` to an edge puts it in
/// that edge's zone.
fn is_near_edge(d: i64) -> (r: bool)
    requires
        i64::MIN < d,
    ensures
        r == near_edge(d as int),
{
    if d < 0 {
        -d <= OUTER_L
    } else {
        d <= INNER_L
    }
}

/// Classifies a pointer at `(x, y)` against a child of size `(w, h)`, both in
/// child-local coordinates with a bottom-left origin: the edge or corner the
/// pointer could resize by, or `None` when it is on none of them.
pub fn check_resizable_direction(w: i64, h: i64, x: i64, y: i64) -> (r: Option<ResizeEdge>)
    requires
        mag_wide(w as int),
        mag_wide(h as int),
        mag_wide(x as int),
        mag_wide(y as int),
    ensures
        r == edge_zone(w as int, h as int, x as int, y as int),
{
    let near_left = is_near_edge(x);
    let near_right = is_near_edge(w - x);
    let near_bottom = is_near_edge(y);
    let near_top = is_near_edge(h - y);
    if near_top && near_left {
        Some(ResizeEdge::TopLeft)
    } else if near_top && near_right {
        Some(ResizeEdge::TopRight)
    } else if near_bottom && near_left {
        Some(ResizeEdge::BottomLeft)
    } else if near_bottom && near_right {
        Some(ResizeEdge::BottomRight)
    } else if near_bottom {
        Some(ResizeEdge::Bottom)
    } else if near_left {
        Some(ResizeEdge::Left)
    } else if near_right {
        Some(ResizeEdge::Right)
    } else if near_top {
        Some(ResizeEdge::Top)
    } else {
        None
    }
}

/// The result is a corner, not a single edge.
pub open spec fn is_corner(r: Option<ResizeEdge>) -> bool {
    r matches Some(e) && (e == ResizeEdge::TopLeft || e == ResizeEdge::TopRight || e
        == ResizeEdge::BottomLeft || e == ResizeEdge::BottomRight)
}

/// Law: the hit test is a pure, total function of `(w, h, x, y)` — its whole
/// behaviour is [`edge_zone`], which yields exactly one of the eight edges or
/// `None` — and corner zones strictly take precedence over single-edge zones:
/// whenever the pointer is in a horizontal edge's zone and in a vertical
/// edge's zone at once, the reported hit is a corner.
pub proof fn lemma_corner_takes_precedence(w: int, h: int, x: int, y: int)
    ensures
        (near_edge(y) || near_edge(h - y)) && (near_edge(x) || near_edge(w - x)) ==> is_corner(
            edge_zone(w, h, x, y),
        ),
        near_edge(h - y) && near_edge(x) ==> edge_zone(w, h, x, y) == Some(ResizeEdge::TopLeft),
{
}

/// One attached child window, as the host snapshots it for the interaction
/// controller: its native window number, its frame in parent coordinates,
/// whether its configuration declares it resizable, the height of its content
/// region (the band above it is the synthetic drag band), and its declared
/// minimum size.
#[derive(Clone, Copy, Debug, PartialEq, Eq, Structural)]
pub struct ChildWindow {
    pub number: i64,
    pub frame: Frame,
    pub resizable: bool,
    pub content_height: i64,
    pub min_width: i64,
    pub min_height: i64,
}

impl ChildWindow {
    /// The snapshot's geometry is within the magnitude bound.
    pub open spec fn fits(self) -> bool {
        self.frame.fits() && mag_ok(self.content_height as int) && mag_ok(self.min_width as int)
            && mag_ok(self.min_height as int)
    }
}

/// The first child with the given window number, in the order the snapshot
/// lists them.
pub open spec fn find_child(children: Seq<ChildWindow>, number: i64) -> Option<ChildWindow>
    decreases children.len(),
{
    if children.len() == 0 {
        None
    } else if children[0].number == number {
        Some(children[0])
    } else {
        find_child(children.drop_first(), number)
    }
}

/// Looks a child up by its window number: [`find_child`].
pub fn find_child_window(children: &Vec<ChildWindow>, number: i64) -> (r: Option<ChildWindow>)
    ensures
        r == find_child(children@, number),
{
    let mut i: usize = 0;
    proof {
        assert(children@.skip(0) =~= children@);
    }
    while i < children.len()
        invariant
            i <= children@.len(),
            find_child(children@, number) == find_child(children@.skip(i as int), number),
        decreases children@.len() - i,
    {
        proof {
            assert(children@.skip(i as int)[0] == children@[i as int]);
            assert(children@.skip(i as int).drop_first() =~= children@.skip(i + 1));
        }
        if children[i].number == number {
            return Some(children[i]);
        }
        i = i + 1;
    }
    proof {
        assert(children@.skip(i as int).len() == 0);
    }
    None
}

/// A found child is one of the sequence's elements.
pub proof fn lemma_find_child_found(children: Seq<ChildWindow>, number: i64)
    ensures
        find_child(children, number) matches Some(c) ==> exists|i: int|
            0 <= i < children.len() && children[i] == c,
    decreases children.len(),
{
    if children.len() > 0 && children[0].number != number {
        lemma_find_child_found(children.drop_first(), number);
        if find_child(children, number) is Some {
            let c = find_child(children, number).unwrap();
            let i = choose|i: int|
                0 <= i < children.drop_first().len() && children.drop_first()[i] == c;
            assert(children[i + 1] == c);
        }
    }
}

/// The pointer is within the child's frame expanded by the outer margin on
/// every side: only then can the child be hit at all.
pub open spec fn within_outer(frame: Frame, px: int, py: int) -> bool {
    frame.x - OUTER_L <= px <= frame.right() + OUTER_L && frame.y - OUTER_L <= py <= frame.top()
        + OUTER_L
}

/// The zone one child offers the pointer at `(px, py)` in parent coordinates:
/// a child that is not resizable, or whose outer-expanded frame does not
/// contain the pointer, offers none.
pub open spec fn child_zone(c: ChildWindow, px: int, py: int) -> Option<ResizeEdge> {
    if c.resizable && within_outer(c.frame, px, py) {
        edge_zone(c.frame.w as int, c.frame.h as int, px - c.frame.x, py - c.frame.y)
    } else {
        None
    }
}

/// The topmost hit among the children, which are given in stacking order,
/// bottom to top: the last child that offers a zone wins. A child that offers
/// no zone does not block the ones below it.
pub open spec fn hit_in_children(children: Seq<ChildWindow>, px: int, py: int) -> Option<
    (i64, ResizeEdge),
>
    decreases children.len(),
{
    if children.len() == 0 {
        None
    } else {
        let top = children.last();
        match child_zone(top, px, py) {
            Some(dir) => Some((top.number, dir)),
            None => hit_in_children(children.drop_last(), px, py),
        }
    }
}

/// Hit-tests the pointer at `(px, py)`, in parent coordinates, against the
/// children in stacking order (bottom to top): the window number and edge of
/// the topmost resizable child whose edge zones contain the pointer.
pub fn find_hit_resizing_window(children: &Vec<ChildWindow>, px: i64, py: i64) -> (r: Option<
    (i64, ResizeEdge),
>)
    requires
        forall|i: int| 0 <= i < children@.len() ==> (#[trigger] children@[i]).fits(),
        mag_ok(px as int),
        mag_ok(py as int),
    ensures
        r == hit_in_children(children@, px as int, py as int),
{
    let mut i: usize = children.len();
    proof {
        assert(children@.take(i as int) =~= children@);
    }
    while i > 0
        invariant
            i <= children@.len(),
            forall|k: int| 0 <= k < children@.len() ==> (#[trigger] children@[k]).fits(),
            mag_ok(px as int),
            mag_ok(py as int),
            hit_in_children(children@, px as int, py as int) == hit_in_children(
                children@.take(i as int),
                px as int,
                py as int,
            ),
        decreases i,
    {
        i = i - 1;
        let c = &children[i];
        proof {
            assert(children@.take(i + 1).last() == children@[i as int]);
            assert(children@.take(i + 1).drop_last() =~= children@.take(i as int));
        }
        if c.resizable {
            let lx = px - c.frame.x;
            let ly = py - c.frame.y;
            if lx >= -OUTER_L && lx <= c.frame.w + OUTER_L && ly >= -OUTER_L && ly <= c.frame.h
                + OUTER_L {
                if let Some(dir) = check_resizable_direction(c.frame.w, c.frame.h, lx, ly) {
                    return Some((c.number, dir));
                }
            }
        }
    }
    None
}

} // verus!
