//! Drag-rectangle clamping for the window system that proposes drag
//! rectangles itself.
//!
//! There, an attached child is dragged by the window system's own machinery,
//! which reports the proposed drag rectangle to the child's message handler
//! before applying it. Each attached child's handler is subclassed once; on
//! the "window is being dragged" notification the hook clamps the proposed
//! rectangle against the parent's outer bounds, less the child's non-client
//! frame margins, and writes it back; every other message passes through
//! unmodified to the saved original handler. Rectangles here follow that
//! platform's convention: left/top/right/bottom edges, top-left origin, `y`
//! grows downward.

use vstd::prelude::*;
use vstd::math::{max, min};
use std::collections::HashMap;
use crate::geometry::{mag_ok, mag_wide};

verus! {

broadcast use vstd::std_specs::hash::group_hash_axioms;

/// A rectangle as its four edges, top-left origin.
#[derive(Clone, Copy, Debug, PartialEq, Eq, Structural)]
pub struct DragRect {
    pub left: i64,
    pub top: i64,
    pub right: i64,
    pub bottom: i64,
}

impl DragRect {
    /// Every edge is within the magnitude bound.
    pub open spec fn fits(self) -> bool {
        mag_ok(self.left as int) && mag_ok(self.top as int) && mag_ok(self.right as int) && mag_ok(
            self.bottom as int,
        )
    }

    /// Every edge is within the loose magnitude bound, which is all the
    /// clamps need: one axis's clamp can then take the rectangle the other
    /// axis's clamp produced.
    pub open spec fn wide(self) -> bool {
        mag_wide(self.left as int) && mag_wide(self.top as int) && mag_wide(self.right as int)
            && mag_wide(self.bottom as int)
    }
}

/// The outer size of a window from its rectangle: width and height.
pub fn calc_window_size(window_rect: &DragRect) -> (size: (i64, i64))
    requires
        window_rect.fits(),
    ensures
        size.0 == window_rect.right - window_rect.left,
        size.1 == window_rect.bottom - window_rect.top,
{
    (window_rect.right - window_rect.left, window_rect.bottom - window_rect.top)
}

/// The window's frame margins: half the difference between its outer size and
/// its interior (client) size, per axis — the border the window system draws
/// around the client region.
pub fn calc_frame_size(
    window_width: i64,
    window_height: i64,
    client_width: i64,
    client_height: i64,
) -> (frame: (i64, i64))
    requires
        mag_wide(window_width as int),
        mag_wide(window_height as int),
        0 <= client_width <= window_width,
        0 <= client_height <= window_height,
    ensures
        frame.0 == (window_width - client_width) as int / 2,
        frame.1 == (window_height - client_height) as int / 2,
{
    ((window_width - client_width) / 2, (window_height - client_height) / 2)
}

/// The left edge the horizontal clamp leaves: when the proposed right edge
/// passes the parent's bound the left edge is recomputed from the window's
/// fixed width; when the proposed left edge passes the parent's bound it is
/// pinned there.
pub open spec fn width_adjusted_left(
    r: DragRect,
    parent: DragRect,
    window_width: int,
    frame_width: int,
) -> int {
    let max_x = parent.right - frame_width;
    let min_x = parent.left + frame_width;
    if max_x < r.right {
        min(r.left as int, max_x - window_width)
    } else if r.left < min_x {
        min_x
    } else {
        r.left as int
    }
}

/// The right edge the horizontal clamp leaves: pinned to the parent's bound
/// when the proposal passes it, recomputed from the window's width and frame
/// margin when the left edge was pinned instead.
pub open spec fn width_adjusted_right(
    r: DragRect,
    parent: DragRect,
    window_width: int,
    frame_width: int,
) -> int {
    let max_x = parent.right - frame_width;
    let min_x = parent.left + frame_width;
    if max_x < r.right {
        max_x
    } else if r.left < min_x {
        max(r.right as int, min_x + window_width + frame_width)
    } else {
        r.right as int
    }
}

/// Clamps the proposed drag rectangle horizontally against the parent's outer
/// bounds less the frame margin: the left and right edges become
/// [`width_adjusted_left`] and [`width_adjusted_right`], the vertical edges
/// stay.
pub fn adjust_drag_rect_width(
    drag_rect: &mut DragRect,
    parent_window_rect: &DragRect,
    window_width: i64,
    frame_width: i64,
)
    requires
        old(drag_rect).wide(),
        parent_window_rect.fits(),
        mag_wide(window_width as int),
        mag_wide(frame_width as int),
    ensures
        final(drag_rect).left == width_adjusted_left(
            *old(drag_rect),
            *parent_window_rect,
            window_width as int,
            frame_width as int,
        ),
        final(drag_rect).right == width_adjusted_right(
            *old(drag_rect),
            *parent_window_rect,
            window_width as int,
            frame_width as int,
        ),
        final(drag_rect).top == old(drag_rect).top,
        final(drag_rect).bottom == old(drag_rect).bottom,
{
    let max_x = parent_window_rect.right - frame_width;
    let min_x = parent_window_rect.left + frame_width;
    if max_x < drag_rect.right {
        drag_rect.right = max_x;
        let recomputed = max_x - window_width;
        if recomputed < drag_rect.left {
            drag_rect.left = recomputed;
        }
    } else if drag_rect.left < min_x {
        drag_rect.left = min_x;
        let recomputed = min_x + window_width + frame_width;
        if recomputed > drag_rect.right {
            drag_rect.right = recomputed;
        }
    }
}

/// The top edge the vertical clamp leaves; the clamp additionally reserves
/// the platform's title-bar height below the parent's top bound.
pub open spec fn height_adjusted_top(
    r: DragRect,
    parent: DragRect,
    window_height: int,
    frame_height: int,
    title_bar_height: int,
) -> int {
    let min_y = parent.top + title_bar_height + frame_height;
    let max_y = parent.bottom - frame_height;
    if r.top < min_y {
        min_y
    } else if max_y < r.bottom {
        min(r.top as int, max_y - window_height)
    } else {
        r.top as int
    }
}

/// The bottom edge the vertical clamp leaves.
pub open spec fn height_adjusted_bottom(
    r: DragRect,
    parent: DragRect,
    window_height: int,
    frame_height: int,
    title_bar_height: int,
) -> int {
    let min_y = parent.top + title_bar_height + frame_height;
    let max_y = parent.bottom - frame_height;
    if r.top < min_y {
        max(r.bottom as int, min_y + window_height)
    } else if max_y < r.bottom {
        max_y
    } else {
        r.bottom as int
    }
}

/// Clamps the proposed drag rectangle vertically against the parent's outer
/// bounds, reserving the title-bar height at the top: the top and bottom
/// edges become [`height_adjusted_top`] and [`height_adjusted_bottom`], the
/// horizontal edges stay.
pub fn adjust_drag_rect_height(
    drag_rect: &mut DragRect,
    parent_frame: &DragRect,
    window_height: i64,
    frame_height: i64,
    title_bar_height: i64,
)
    requires
        old(drag_rect).wide(),
        parent_frame.fits(),
        mag_wide(window_height as int),
        mag_wide(frame_height as int),
        mag_wide(title_bar_height as int),
    ensures
        final(drag_rect).top == height_adjusted_top(
            *old(drag_rect),
            *parent_frame,
            window_height as int,
            frame_height as int,
            title_bar_height as int,
        ),
        final(drag_rect).bottom == height_adjusted_bottom(
            *old(drag_rect),
            *parent_frame,
            window_height as int,
            frame_height as int,
            title_bar_height as int,
        ),
        final(drag_rect).left == old(drag_rect).left,
        final(drag_rect).right == old(drag_rect).right,
{
    let min_y = parent_frame.top + title_bar_height + frame_height;
    let max_y = parent_frame.bottom - frame_height;
    if drag_rect.top < min_y {
        drag_rect.top = min_y;
        let recomputed = min_y + window_height;
        if recomputed > drag_rect.bottom {
            drag_rect.bottom = recomputed;
        }
    } else if max_y < drag_rect.bottom {
        drag_rect.bottom = max_y;
        let recomputed = max_y - window_height;
        if recomputed < drag_rect.top {
            drag_rect.top = recomputed;
        }
    }
}

/// The whole "window is being dragged" decision: from the parent's rectangle,
/// the child's own rectangle and its client rectangle, computes the window
/// size and frame margins and clamps the proposed drag rectangle on each axis
/// independently. The hook writes the result back before forwarding the
/// notification to the saved original handler.
pub fn window_move_proc(
    drag_rect: &mut DragRect,
    parent_window_rect: &DragRect,
    window_rect: &DragRect,
    client_rect: &DragRect,
    title_bar_height: i64,
)
    requires
        old(drag_rect).fits(),
        parent_window_rect.fits(),
        window_rect.fits(),
        client_rect.fits(),
        mag_ok(title_bar_height as int),
        0 <= client_rect.right - client_rect.left <= window_rect.right - window_rect.left,
        0 <= client_rect.bottom - client_rect.top <= window_rect.bottom - window_rect.top,
    ensures
        ({
            let window_width = window_rect.right - window_rect.left;
            let window_height = window_rect.bottom - window_rect.top;
            let frame_width = (window_width - (client_rect.right - client_rect.left)) / 2;
            let frame_height = (window_height - (client_rect.bottom - client_rect.top)) / 2;
            let across = DragRect {
                left: width_adjusted_left(
                    *old(drag_rect),
                    *parent_window_rect,
                    window_width,
                    frame_width,
                ) as i64,
                right: width_adjusted_right(
                    *old(drag_rect),
                    *parent_window_rect,
                    window_width,
                    frame_width,
                ) as i64,
                top: old(drag_rect).top,
                bottom: old(drag_rect).bottom,
            };
            &&& final(drag_rect).left == across.left
            &&& final(drag_rect).right == across.right
            &&& final(drag_rect).top == height_adjusted_top(
                across,
                *parent_window_rect,
                window_height,
                frame_height,
                title_bar_height as int,
            )
            &&& final(drag_rect).bottom == height_adjusted_bottom(
                across,
                *parent_window_rect,
                window_height,
                frame_height,
                title_bar_height as int,
            )
        }),
{
    let (window_width, window_height) = calc_window_size(window_rect);
    let (client_width, client_height) = calc_window_size(client_rect);
    let (frame_width, frame_height) = calc_frame_size(
        window_width,
        window_height,
        client_width,
        client_height,
    );
    adjust_drag_rect_width(drag_rect, parent_window_rect, window_width, frame_width);
    adjust_drag_rect_height(
        drag_rect,
        parent_window_rect,
        window_height,
        frame_height,
        title_bar_height,
    );
}

/// The installed-hooks registry: for each subclassed window, the handler that
/// was installed before ours, so the hook can chain every message to it. The
/// handler value is whatever the host stores for a handler — on the native
/// side, the procedure pointer.
pub struct HookRegistry<H> {
    hooks: HashMap<i64, H>,
}

impl<H> HookRegistry<H> {
    /// The registered previous handlers, by window identifier.
    pub closed spec fn view(self) -> Map<i64, H> {
        self.hooks@
    }

    /// An empty registry.
    pub fn new() -> (r: HookRegistry<H>)
        ensures
            r.view() == Map::<i64, H>::empty(),
    {
        HookRegistry { hooks: HashMap::new() }
    }

    /// Saves the handler that was installed on `window` before ours,
    /// replacing whatever an earlier registration saved.
    pub fn register(&mut self, window: i64, previous: H)
        ensures
            final(self).view() == old(self).view().insert(window, previous),
    {
        self.hooks.insert(window, previous);
    }

    /// The handler to chain a message for `window` to: the saved previous
    /// handler, or `None` when the window was never subclassed, in which case
    /// the host falls back to the system's default handler.
    pub fn previous_handler(&self, window: i64) -> (r: Option<&H>)
        ensures
            self.view().contains_key(window) ==> (r matches Some(h) && *h == self.view()[window]),
            !self.view().contains_key(window) ==> r is None,
    {
        self.hooks.get(&window)
    }
}

} // verus!
