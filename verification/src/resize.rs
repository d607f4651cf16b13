//! Edge-resize application: which clamps a resize gesture by an edge or
//! corner performs, and the per-edge entry points the pointer-event observer
//! calls with the target's window number.
//!
//! A corner gesture applies the clamp of each of its two edges independently:
//! the horizontal clamp settles the left edge and width, the vertical clamp
//! the bottom edge and height, and neither reads what the other changed. The
//! bounds clamped against and the minimum sizes are the caller's policy: the
//! entry points take them as arguments.

use vstd::prelude::*;
use crate::geometry::{
    bottom_resize_blocked, bottom_resized_y, left_resize_blocked, left_resized_x, mag_ok,
    resize_bottom_frame, resize_left_frame, resize_right_frame, resize_top_frame, right_resized_w,
    top_resized_h, Frame,
};
use crate::hit_test::{find_child, find_child_window, lemma_find_child_found, ChildWindow,
    ResizeEdge};

verus! {

/// A resize by this edge or corner moves the child's left edge.
pub open spec fn resize_affects_left(edge: ResizeEdge) -> bool {
    edge == ResizeEdge::Left || edge == ResizeEdge::TopLeft || edge == ResizeEdge::BottomLeft
}

/// A resize by this edge or corner moves the child's right edge.
pub open spec fn resize_affects_right(edge: ResizeEdge) -> bool {
    edge == ResizeEdge::Right || edge == ResizeEdge::TopRight || edge == ResizeEdge::BottomRight
}

/// A resize by this edge or corner moves the child's top edge.
pub open spec fn resize_affects_top(edge: ResizeEdge) -> bool {
    edge == ResizeEdge::Top || edge == ResizeEdge::TopLeft || edge == ResizeEdge::TopRight
}

/// A resize by this edge or corner moves the child's bottom edge.
pub open spec fn resize_affects_bottom(edge: ResizeEdge) -> bool {
    edge == ResizeEdge::Bottom || edge == ResizeEdge::BottomLeft || edge == ResizeEdge::BottomRight
}

/// The left edge a resize gesture puts the child at: moved by the left-edge
/// clamp when the gesture's edge moves the left edge and the clamp is not
/// blocked by the minimum width, unchanged otherwise.
pub open spec fn resized_x(
    content: Frame,
    f: Frame,
    edge: ResizeEdge,
    delta_x: int,
    min_width: int,
) -> int {
    if resize_affects_left(edge) && !left_resize_blocked(f, delta_x, min_width) {
        left_resized_x(content, f, delta_x, min_width)
    } else {
        f.x as int
    }
}

/// The width a resize gesture gives the child; the left-edge clamp keeps the
/// right edge in place, the right-edge clamp keeps the origin.
pub open spec fn resized_w(
    content: Frame,
    f: Frame,
    edge: ResizeEdge,
    delta_x: int,
    min_width: int,
) -> int {
    if resize_affects_left(edge) && !left_resize_blocked(f, delta_x, min_width) {
        f.w + f.x - left_resized_x(content, f, delta_x, min_width)
    } else if resize_affects_right(edge) {
        right_resized_w(content, f, delta_x, min_width)
    } else {
        f.w as int
    }
}

/// The bottom edge a resize gesture puts the child at: moved by the
/// bottom-edge clamp when the gesture's edge moves the bottom edge and the
/// clamp is not blocked by the minimum height, unchanged otherwise.
pub open spec fn resized_y(
    content: Frame,
    f: Frame,
    edge: ResizeEdge,
    delta_y: int,
    min_height: int,
) -> int {
    if resize_affects_bottom(edge) && !bottom_resize_blocked(f, delta_y, min_height) {
        bottom_resized_y(content, f, delta_y)
    } else {
        f.y as int
    }
}

/// The height a resize gesture gives the child; the bottom-edge clamp keeps
/// the top edge in place, the top-edge clamp keeps the origin.
pub open spec fn resized_h(
    content: Frame,
    f: Frame,
    edge: ResizeEdge,
    delta_y: int,
    min_height: int,
) -> int {
    if resize_affects_bottom(edge) && !bottom_resize_blocked(f, delta_y, min_height) {
        f.h + f.y - bottom_resized_y(content, f, delta_y)
    } else if resize_affects_top(edge) {
        top_resized_h(content, f, delta_y, min_height)
    } else {
        f.h as int
    }
}

/// Applies the clamp of each edge the gesture moves — two for a corner,
/// applied independently — against the parent's content region, with the
/// child's declared minimum size.
pub(crate) fn apply_resize(
    content: &Frame,
    c: &ChildWindow,
    edge: ResizeEdge,
    delta_x: i64,
    delta_y: i64,
) -> (r: Frame)
    requires
        content.fits(),
        c.fits(),
        mag_ok(delta_x as int),
        mag_ok(delta_y as int),
    ensures
        r.x == resized_x(*content, c.frame, edge, delta_x as int, c.min_width as int),
        r.w == resized_w(*content, c.frame, edge, delta_x as int, c.min_width as int),
        r.y == resized_y(*content, c.frame, edge, delta_y as int, c.min_height as int),
        r.h == resized_h(*content, c.frame, edge, delta_y as int, c.min_height as int),
{
    let (affects_left, affects_right) = match edge {
        ResizeEdge::Left | ResizeEdge::TopLeft | ResizeEdge::BottomLeft => (true, false),
        ResizeEdge::Right | ResizeEdge::TopRight | ResizeEdge::BottomRight => (false, true),
        _ => (false, false),
    };
    let (affects_top, affects_bottom) = match edge {
        ResizeEdge::Top | ResizeEdge::TopLeft | ResizeEdge::TopRight => (true, false),
        ResizeEdge::Bottom | ResizeEdge::BottomLeft | ResizeEdge::BottomRight => (false, true),
        _ => (false, false),
    };
    let mut frame = c.frame;
    if affects_left {
        frame = resize_left_frame(content, &frame, delta_x, c.min_width);
    } else if affects_right {
        frame = resize_right_frame(content, &frame, delta_x, c.min_width);
    }
    if affects_top {
        frame = resize_top_frame(content, &frame, delta_y, c.min_height);
    } else if affects_bottom {
        frame = resize_bottom_frame(content, &frame, delta_y, c.min_height);
    }
    frame
}

/// Resizes the child with window number `target_window` by its left edge: its
/// frame with the left edge moved by the clamp, or `None` when no child has
/// that number.
pub fn resize_on_left_edge(
    parent: &Frame,
    children: &Vec<ChildWindow>,
    target_window: i64,
    delta_x: i64,
    min_width: i64,
) -> (r: Option<Frame>)
    requires
        parent.fits(),
        forall|i: int| 0 <= i < children@.len() ==> (#[trigger] children@[i]).fits(),
        mag_ok(delta_x as int),
        mag_ok(min_width as int),
    ensures
        r is Some <==> find_child(children@, target_window) is Some,
        r matches Some(frame) ==> {
            let c = find_child(children@, target_window).unwrap();
            &&& frame.x == resized_x(*parent, c.frame, ResizeEdge::Left, delta_x as int,
                min_width as int)
            &&& frame.w == resized_w(*parent, c.frame, ResizeEdge::Left, delta_x as int,
                min_width as int)
            &&& frame.y == c.frame.y
            &&& frame.h == c.frame.h
        },
{
    let c = match find_child_window(children, target_window) {
        Some(c) => c,
        None => {
            return None;
        },
    };
    proof {
        lemma_find_child_found(children@, target_window);
        let i = choose|i: int| 0 <= i < children@.len() && children@[i] == c;
        assert(children@[i].fits());
    }
    Some(resize_left_frame(parent, &c.frame, delta_x, min_width))
}

/// Resizes the child with window number `target_window` by its right edge.
pub fn resize_on_right_edge(
    parent: &Frame,
    children: &Vec<ChildWindow>,
    target_window: i64,
    delta_x: i64,
    min_width: i64,
) -> (r: Option<Frame>)
    requires
        parent.fits(),
        forall|i: int| 0 <= i < children@.len() ==> (#[trigger] children@[i]).fits(),
        mag_ok(delta_x as int),
        mag_ok(min_width as int),
    ensures
        r is Some <==> find_child(children@, target_window) is Some,
        r matches Some(frame) ==> {
            let c = find_child(children@, target_window).unwrap();
            &&& frame.w == right_resized_w(*parent, c.frame, delta_x as int, min_width as int)
            &&& frame.x == c.frame.x
            &&& frame.y == c.frame.y
            &&& frame.h == c.frame.h
        },
{
    let c = match find_child_window(children, target_window) {
        Some(c) => c,
        None => {
            return None;
        },
    };
    proof {
        lemma_find_child_found(children@, target_window);
        let i = choose|i: int| 0 <= i < children@.len() && children@[i] == c;
        assert(children@[i].fits());
    }
    Some(resize_right_frame(parent, &c.frame, delta_x, min_width))
}

/// Resizes the child with window number `target_window` by its top edge.
pub fn resize_on_top_edge(
    parent: &Frame,
    children: &Vec<ChildWindow>,
    target_window: i64,
    delta_y: i64,
    min_height: i64,
) -> (r: Option<Frame>)
    requires
        parent.fits(),
        forall|i: int| 0 <= i < children@.len() ==> (#[trigger] children@[i]).fits(),
        mag_ok(delta_y as int),
        mag_ok(min_height as int),
    ensures
        r is Some <==> find_child(children@, target_window) is Some,
        r matches Some(frame) ==> {
            let c = find_child(children@, target_window).unwrap();
            &&& frame.h == top_resized_h(*parent, c.frame, delta_y as int, min_height as int)
            &&& frame.x == c.frame.x
            &&& frame.y == c.frame.y
            &&& frame.w == c.frame.w
        },
{
    let c = match find_child_window(children, target_window) {
        Some(c) => c,
        None => {
            return None;
        },
    };
    proof {
        lemma_find_child_found(children@, target_window);
        let i = choose|i: int| 0 <= i < children@.len() && children@[i] == c;
        assert(children@[i].fits());
    }
    Some(resize_top_frame(parent, &c.frame, delta_y, min_height))
}

/// Resizes the child with window number `target_window` by its bottom edge.
pub fn resize_on_bottom_edge(
    parent: &Frame,
    children: &Vec<ChildWindow>,
    target_window: i64,
    delta_y: i64,
    min_height: i64,
) -> (r: Option<Frame>)
    requires
        parent.fits(),
        forall|i: int| 0 <= i < children@.len() ==> (#[trigger] children@[i]).fits(),
        mag_ok(delta_y as int),
        mag_ok(min_height as int),
    ensures
        r is Some <==> find_child(children@, target_window) is Some,
        r matches Some(frame) ==> {
            let c = find_child(children@, target_window).unwrap();
            &&& frame.y == resized_y(*parent, c.frame, ResizeEdge::Bottom, delta_y as int,
                min_height as int)
            &&& frame.h == resized_h(*parent, c.frame, ResizeEdge::Bottom, delta_y as int,
                min_height as int)
            &&& frame.x == c.frame.x
            &&& frame.w == c.frame.w
        },
{
    let c = match find_child_window(children, target_window) {
        Some(c) => c,
        None => {
            return None;
        },
    };
    proof {
        lemma_find_child_found(children@, target_window);
        let i = choose|i: int| 0 <= i < children@.len() && children@[i] == c;
        assert(children@[i].fits());
    }
    Some(resize_bottom_frame(parent, &c.frame, delta_y, min_height))
}

/// Resizes the child with window number `target_window` by its top-left
/// corner: the left-edge clamp against `parent_for_width` and the top-edge
/// clamp against `parent_for_height`, applied independently.
pub fn resize_on_top_left_edge(
    parent_for_width: &Frame,
    parent_for_height: &Frame,
    children: &Vec<ChildWindow>,
    target_window: i64,
    delta_x: i64,
    delta_y: i64,
    min_width: i64,
    min_height: i64,
) -> (r: Option<Frame>)
    requires
        parent_for_width.fits(),
        parent_for_height.fits(),
        forall|i: int| 0 <= i < children@.len() ==> (#[trigger] children@[i]).fits(),
        mag_ok(delta_x as int),
        mag_ok(delta_y as int),
        mag_ok(min_width as int),
        mag_ok(min_height as int),
    ensures
        r is Some <==> find_child(children@, target_window) is Some,
        r matches Some(frame) ==> {
            let c = find_child(children@, target_window).unwrap();
            &&& frame.x == resized_x(*parent_for_width, c.frame, ResizeEdge::TopLeft,
                delta_x as int, min_width as int)
            &&& frame.w == resized_w(*parent_for_width, c.frame, ResizeEdge::TopLeft,
                delta_x as int, min_width as int)
            &&& frame.y == c.frame.y
            &&& frame.h == top_resized_h(*parent_for_height, c.frame, delta_y as int,
                min_height as int)
        },
{
    let c = match find_child_window(children, target_window) {
        Some(c) => c,
        None => {
            return None;
        },
    };
    proof {
        lemma_find_child_found(children@, target_window);
        let i = choose|i: int| 0 <= i < children@.len() && children@[i] == c;
        assert(children@[i].fits());
    }
    let frame = resize_left_frame(parent_for_width, &c.frame, delta_x, min_width);
    Some(resize_top_frame(parent_for_height, &frame, delta_y, min_height))
}

/// Resizes the child with window number `target_window` by its top-right
/// corner: the right-edge clamp against `parent_for_width` and the top-edge
/// clamp against `parent_for_height`, applied independently.
pub fn resize_on_top_right_edge(
    parent_for_width: &Frame,
    parent_for_height: &Frame,
    children: &Vec<ChildWindow>,
    target_window: i64,
    delta_x: i64,
    delta_y: i64,
    min_width: i64,
    min_height: i64,
) -> (r: Option<Frame>)
    requires
        parent_for_width.fits(),
        parent_for_height.fits(),
        forall|i: int| 0 <= i < children@.len() ==> (#[trigger] children@[i]).fits(),
        mag_ok(delta_x as int),
        mag_ok(delta_y as int),
        mag_ok(min_width as int),
        mag_ok(min_height as int),
    ensures
        r is Some <==> find_child(children@, target_window) is Some,
        r matches Some(frame) ==> {
            let c = find_child(children@, target_window).unwrap();
            &&& frame.w == right_resized_w(*parent_for_width, c.frame, delta_x as int,
                min_width as int)
            &&& frame.x == c.frame.x
            &&& frame.y == c.frame.y
            &&& frame.h == top_resized_h(*parent_for_height, c.frame, delta_y as int,
                min_height as int)
        },
{
    let c = match find_child_window(children, target_window) {
        Some(c) => c,
        None => {
            return None;
        },
    };
    proof {
        lemma_find_child_found(children@, target_window);
        let i = choose|i: int| 0 <= i < children@.len() && children@[i] == c;
        assert(children@[i].fits());
    }
    let frame = resize_right_frame(parent_for_width, &c.frame, delta_x, min_width);
    Some(resize_top_frame(parent_for_height, &frame, delta_y, min_height))
}

} // verus!
