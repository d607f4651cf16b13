//! Per-child resize delegate for the pointer-event platform.
//!
//! During a native live-resize the window system reports only a proposed
//! size, not which edge the user grabbed. The delegate infers the active
//! edges by comparing the frame at the start of the gesture with the frame
//! after the first resize step — a moved left edge shows as a changed origin,
//! a moved right edge as a changed width, and so on — and then clamps every
//! later proposed size so the child cannot grow past its parent's content
//! region on the side being dragged.

use vstd::prelude::*;
use crate::geometry::{mag_ok, Frame};

verus! {

/// The set of edges a live-resize gesture is moving. Several can be active at
/// once (a corner drag moves two).
#[derive(Clone, Copy, Debug, PartialEq, Eq, Structural)]
pub struct ResizeDirection {
    pub left: bool,
    pub right: bool,
    pub top: bool,
    pub bottom: bool,
}

/// The left edge moved: the origin's x changed between the start of the
/// gesture and the current frame.
pub open spec fn moved_left(start: Frame, current: Frame) -> bool {
    start.x != current.x
}

/// The right edge moved: the width changed.
pub open spec fn moved_right(start: Frame, current: Frame) -> bool {
    start.w != current.w
}

/// The top edge moved: the height changed (bottom-left origin, so a height
/// change with a fixed origin is a top-edge move).
pub open spec fn moved_top(start: Frame, current: Frame) -> bool {
    start.h != current.h
}

/// The bottom edge moved: the origin's y changed.
pub open spec fn moved_bottom(start: Frame, current: Frame) -> bool {
    start.y != current.y
}

/// Which edges moved between the frame at the start of the gesture and the
/// current frame.
pub open spec fn direction_between(start: Frame, current: Frame) -> ResizeDirection {
    ResizeDirection {
        left: moved_left(start, current),
        right: moved_right(start, current),
        top: moved_top(start, current),
        bottom: moved_bottom(start, current),
    }
}

fn is_left(start_rect: &Frame, current: &Frame) -> (r: bool)
    ensures
        r == moved_left(*start_rect, *current),
{
    start_rect.x != current.x
}

fn is_right(start_rect: &Frame, current: &Frame) -> (r: bool)
    ensures
        r == moved_right(*start_rect, *current),
{
    start_rect.w != current.w
}

fn is_top(start_rect: &Frame, current: &Frame) -> (r: bool)
    ensures
        r == moved_top(*start_rect, *current),
{
    start_rect.h != current.h
}

fn is_bottom(start_rect: &Frame, current: &Frame) -> (r: bool)
    ensures
        r == moved_bottom(*start_rect, *current),
{
    start_rect.y != current.y
}

/// The width the delegate allows for a proposed width, given the active
/// edges: growth by the left edge stops at the parent's left bound, growth by
/// the right edge stops at the parent's right bound; shrinking is never
/// restrained.
pub open spec fn will_resized_w(
    dir: ResizeDirection,
    parent: Frame,
    child: Frame,
    proposed_w: int,
) -> int {
    if dir.left {
        let growth = proposed_w - child.w;
        if 0 < growth && child.x - growth < parent.x {
            child.w + (child.x - parent.x)
        } else {
            proposed_w
        }
    } else if dir.right {
        let growth = proposed_w - child.w;
        if 0 < growth && parent.right() < child.right() + growth {
            parent.right() - child.x
        } else {
            proposed_w
        }
    } else {
        proposed_w
    }
}

/// The height the delegate allows for a proposed height, given the active
/// edges: the vertical counterpart of [`will_resized_w`], growth by the
/// bottom edge stopping at the parent's bottom bound and growth by the top
/// edge at the parent's top bound.
pub open spec fn will_resized_h(
    dir: ResizeDirection,
    parent: Frame,
    child: Frame,
    proposed_h: int,
) -> int {
    if dir.bottom {
        let growth = proposed_h - child.h;
        if 0 < growth && child.y - growth < parent.y {
            child.h + (child.y - parent.y)
        } else {
            proposed_h
        }
    } else if dir.top {
        let growth = proposed_h - child.h;
        if 0 < growth && parent.top() < child.top() + growth {
            parent.top() - child.y
        } else {
            proposed_h
        }
    } else {
        proposed_h
    }
}

/// The state one child's resize delegate keeps across the window system's
/// live-resize notifications. Each attached child owns exactly one instance,
/// scoped to its own lifetime.
pub struct ChildWindowDelegate {
    window_origin: Frame,
    dir: Option<ResizeDirection>,
}

impl ChildWindowDelegate {
    /// The frame recorded when the current gesture started, updated as the
    /// gesture proceeds.
    pub closed spec fn window_origin(self) -> Frame {
        self.window_origin
    }

    /// The edges inferred for the current gesture; `None` until the first
    /// resize step has shown which edges move.
    pub closed spec fn dir(self) -> Option<ResizeDirection> {
        self.dir
    }

    /// A fresh delegate: a zero frame recorded and no direction inferred yet.
    pub fn new() -> (r: ChildWindowDelegate)
        ensures
            r.window_origin() == (Frame { x: 0, y: 0, w: 0, h: 0 }),
            r.dir() is None,
    {
        ChildWindowDelegate { window_origin: Frame { x: 0, y: 0, w: 0, h: 0 }, dir: None }
    }

    /// A live resize is starting: record the child's frame and forget any
    /// direction inferred for an earlier gesture.
    pub fn on_resize_start(&mut self, frame: &Frame)
        ensures
            final(self).window_origin() == *frame,
            final(self).dir() is None,
    {
        self.window_origin = *frame;
        self.dir = None;
    }

    /// The frame changed during a live resize. The first change after the
    /// gesture started fixes the inferred direction by comparing the recorded
    /// frame with the current one; later changes are ignored, the direction
    /// stays as inferred.
    pub fn on_did_resize(&mut self, current: &Frame)
        ensures
            old(self).dir() is Some ==> *final(self) == *old(self),
            old(self).dir() is None ==> {
                &&& final(self).dir() == Some(
                    direction_between(old(self).window_origin(), *current),
                )
                &&& final(self).window_origin() == *current
            },
    {
        if self.dir.is_some() {
            return ;
        }
        let start = self.window_origin;
        self.dir = Some(
            ResizeDirection {
                left: is_left(&start, current),
                right: is_right(&start, current),
                top: is_top(&start, current),
                bottom: is_bottom(&start, current),
            },
        );
        self.window_origin = *current;
    }

    /// The window system proposes a new size during a live resize: clamp it
    /// against the parent's content region on the edges being dragged. With
    /// no direction inferred yet, or no active edge on an axis, the proposal
    /// passes through unchanged.
    pub fn on_will_resize(
        &self,
        parent_content: &Frame,
        child: &Frame,
        proposed_w: i64,
        proposed_h: i64,
    ) -> (r: (i64, i64))
        requires
            parent_content.fits(),
            child.fits(),
            mag_ok(proposed_w as int),
            mag_ok(proposed_h as int),
        ensures
            self.dir() is None ==> r == (proposed_w, proposed_h),
            self.dir() matches Some(dir) ==> {
                &&& r.0 == will_resized_w(dir, *parent_content, *child, proposed_w as int)
                &&& r.1 == will_resized_h(dir, *parent_content, *child, proposed_h as int)
            },
    {
        let dir = match self.dir {
            Some(dir) => dir,
            None => {
                return (proposed_w, proposed_h);
            },
        };
        let mut width = proposed_w;
        if dir.left {
            let growth = proposed_w - child.w;
            if 0 < growth && child.x - growth < parent_content.x {
                width = child.w + (child.x - parent_content.x);
            }
        } else if dir.right {
            let growth = proposed_w - child.w;
            if 0 < growth && parent_content.x + parent_content.w < child.x + child.w + growth {
                width = parent_content.x + parent_content.w - child.x;
            }
        }
        let mut height = proposed_h;
        if dir.bottom {
            let growth = proposed_h - child.h;
            if 0 < growth && child.y - growth < parent_content.y {
                height = child.h + (child.y - parent_content.y);
            }
        } else if dir.top {
            let growth = proposed_h - child.h;
            if 0 < growth && parent_content.y + parent_content.h < child.y + child.h + growth {
                height = parent_content.y + parent_content.h - child.y;
            }
        }
        (width, height)
    }
}

} // verus!
