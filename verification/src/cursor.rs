//! Cursor feedback: choosing the resize cursor for the pointer's position and
//! propagating one requested cursor icon to a parent window and all of its
//! attached children.
//!
//! A request is produced inside a native pointer-event callback and consumed
//! on the next host tick, a different call stack on the same UI thread. The
//! two phases communicate through a single-slot, most-recent-wins channel:
//! at most one request is pending, and only the latest one determines the
//! visible cursor.

use vstd::prelude::*;
use crate::geometry::mag_ok;
use crate::hit_test::{hit_in_children, ChildWindow, ResizeEdge};
use crate::hit_test::find_hit_resizing_window;
use crate::ParentWindow;

verus! {

/// The cursor icons this controller requests: the plain arrow and the eight
/// resize cursors, named by compass point as the window system names them.
#[derive(Clone, Copy, Debug, PartialEq, Eq, Structural)]
pub enum CursorIcon {
    Default,
    WResize,
    EResize,
    NResize,
    SResize,
    NwResize,
    NeResize,
    SwResize,
    SeResize,
}

/// The resize cursor shown for a hit on each edge or corner.
pub open spec fn icon_of_edge(e: ResizeEdge) -> CursorIcon {
    match e {
        ResizeEdge::Left => CursorIcon::WResize,
        ResizeEdge::Right => CursorIcon::EResize,
        ResizeEdge::Top => CursorIcon::NResize,
        ResizeEdge::Bottom => CursorIcon::SResize,
        ResizeEdge::TopLeft => CursorIcon::NwResize,
        ResizeEdge::TopRight => CursorIcon::NeResize,
        ResizeEdge::BottomLeft => CursorIcon::SwResize,
        ResizeEdge::BottomRight => CursorIcon::SeResize,
    }
}

/// The window and cursor icon the pointer's position calls for: the topmost
/// hit child with its edge's resize cursor, or the parent itself with the
/// default cursor when no child is hit.
pub open spec fn current_icon(
    parent_number: i64,
    children: Seq<ChildWindow>,
    px: int,
    py: int,
) -> (i64, CursorIcon) {
    match hit_in_children(children, px, py) {
        Some((number, edge)) => (number, icon_of_edge(edge)),
        None => (parent_number, CursorIcon::Default),
    }
}

/// The resize cursor shown for a hit on one edge or corner: [`icon_of_edge`].
pub fn edge_cursor(edge: ResizeEdge) -> (r: CursorIcon)
    ensures
        r == icon_of_edge(edge),
{
    match edge {
        ResizeEdge::Left => CursorIcon::WResize,
        ResizeEdge::Right => CursorIcon::EResize,
        ResizeEdge::Top => CursorIcon::NResize,
        ResizeEdge::Bottom => CursorIcon::SResize,
        ResizeEdge::TopLeft => CursorIcon::NwResize,
        ResizeEdge::TopRight => CursorIcon::NeResize,
        ResizeEdge::BottomLeft => CursorIcon::SwResize,
        ResizeEdge::BottomRight => CursorIcon::SeResize,
    }
}

/// Picks the cursor icon for the pointer at `(px, py)` in parent coordinates,
/// together with the window number it belongs to: [`current_icon`].
pub fn current_cursor_icon(
    parent_number: i64,
    children: &Vec<ChildWindow>,
    px: i64,
    py: i64,
) -> (r: (i64, CursorIcon))
    requires
        forall|i: int| 0 <= i < children@.len() ==> (#[trigger] children@[i]).fits(),
        mag_ok(px as int),
        mag_ok(py as int),
    ensures
        r == current_icon(parent_number, children@, px as int, py as int),
{
    match find_hit_resizing_window(children, px, py) {
        Some((number, edge)) => (number, edge_cursor(edge)),
        None => (parent_number, CursorIcon::Default),
    }
}

/// The single edge a plain resize cursor stands for; corners and the default
/// cursor stand for none.
pub open spec fn resize_direction_of(icon: CursorIcon) -> Option<ResizeEdge> {
    match icon {
        CursorIcon::WResize => Some(ResizeEdge::Left),
        CursorIcon::EResize => Some(ResizeEdge::Right),
        CursorIcon::NResize => Some(ResizeEdge::Top),
        CursorIcon::SResize => Some(ResizeEdge::Bottom),
        _ => None,
    }
}

/// Maps a plain resize cursor back to the edge it stands for.
pub fn to_resize_direction(icon: &CursorIcon) -> (r: Option<ResizeEdge>)
    ensures
        r == resize_direction_of(*icon),
{
    match icon {
        CursorIcon::WResize => Some(ResizeEdge::Left),
        CursorIcon::EResize => Some(ResizeEdge::Right),
        CursorIcon::NResize => Some(ResizeEdge::Top),
        CursorIcon::SResize => Some(ResizeEdge::Bottom),
        _ => None,
    }
}

/// A request to show one cursor icon on a parent window and all of its
/// attached children.
#[derive(Clone, Copy, Debug, PartialEq, Eq, Structural)]
pub struct RequestCursorChange {
    pub parent_window: u64,
    pub cursor_icon: CursorIcon,
}

/// The single-slot, most-recent-wins channel between the native callback that
/// requests a cursor and the host tick that applies it. At most one request
/// is pending; sending over a pending request drops the older one.
pub struct RequestCursorChangeSlot {
    slot: Option<RequestCursorChange>,
}

impl RequestCursorChangeSlot {
    /// The request pending in the slot, if any.
    pub closed spec fn pending(self) -> Option<RequestCursorChange> {
        self.slot
    }

    /// An empty slot: nothing pending.
    pub fn new() -> (r: RequestCursorChangeSlot)
        ensures
            r.pending() is None,
    {
        RequestCursorChangeSlot { slot: None }
    }

    /// Puts a request in the slot, dropping any pending one: the latest
    /// request alone determines the visible cursor.
    pub fn send(&mut self, request: RequestCursorChange)
        ensures
            final(self).pending() == Some(request),
    {
        self.slot = Some(request);
    }

    /// Takes the pending request out of the slot, if any.
    pub fn try_recv(&mut self) -> (r: Option<RequestCursorChange>)
        ensures
            r == old(self).pending(),
            final(self).pending() is None,
    {
        self.slot.take()
    }
}

/// The windows a cursor request for `parent_window` is applied to, given the
/// attached children as `(window identifier, parent link)` pairs: the parent
/// itself first, then every child whose parent link points at it, in the
/// order given; and no other window.
pub fn cursor_targets(parent_window: u64, children: &Vec<(u64, ParentWindow)>) -> (targets: Vec<
    u64,
>)
    ensures
        targets@.len() >= 1 && targets@[0] == parent_window,
        forall|i: int|
            0 <= i < children@.len() && (#[trigger] children@[i]).1.0 == parent_window
                ==> targets@.contains(children@[i].0),
        forall|j: int|
            0 <= j < targets@.len() ==> #[trigger] targets@[j] == parent_window || exists|i: int|
                0 <= i < children@.len() && (#[trigger] children@[i]) == (
                targets@[j],
                ParentWindow(parent_window),
            ),
{
    let mut targets: Vec<u64> = Vec::new();
    targets.push(parent_window);
    let mut k: usize = 0;
    while k < children.len()
        invariant
            k <= children@.len(),
            targets@.len() >= 1 && targets@[0] == parent_window,
            forall|i: int|
                0 <= i < k && (#[trigger] children@[i]).1.0 == parent_window
                    ==> targets@.contains(children@[i].0),
            forall|j: int|
                0 <= j < targets@.len() ==> #[trigger] targets@[j] == parent_window || exists|
                    i: int,
                |
                    0 <= i < children@.len() && (#[trigger] children@[i]) == (
                    targets@[j],
                    ParentWindow(parent_window),
                ),
        decreases children@.len() - k,
    {
        let (window, link) = children[k];
        let ghost previous = targets@;
        if link.0 == parent_window {
            targets.push(window);
            proof {
                assert(targets@[previous.len() as int] == window);
                assert forall|i: int|
                    0 <= i < k + 1 && (#[trigger] children@[i]).1.0
                        == parent_window implies targets@.contains(children@[i].0) by {
                    if i < k {
                        let j = choose|j: int|
                            0 <= j < previous.len() && previous[j] == children@[i].0;
                        assert(targets@[j] == children@[i].0);
                    } else {
                        assert(targets@[previous.len() as int] == children@[i].0);
                    }
                }
            }
        }
        k = k + 1;
    }
    targets
}

/// One host tick of the cursor dispatcher: drains the slot and, when a
/// request was pending, hands back its icon together with the exact windows
/// to apply it to — the request's parent and every child attached to it, and
/// no other window. The slot is empty afterwards either way.
pub fn change_cursor_system(
    slot: &mut RequestCursorChangeSlot,
    children: &Vec<(u64, ParentWindow)>,
) -> (r: Option<(CursorIcon, Vec<u64>)>)
    ensures
        final(slot).pending() is None,
        r is Some <==> old(slot).pending() is Some,
        r matches Some(out) ==> {
            let request = old(slot).pending().unwrap();
            &&& out.0 == request.cursor_icon
            &&& out.1@.len() >= 1 && out.1@[0] == request.parent_window
            &&& forall|i: int|
                0 <= i < children@.len() && (#[trigger] children@[i]).1.0 == request.parent_window
                    ==> out.1@.contains(children@[i].0)
            &&& forall|j: int|
                0 <= j < out.1@.len() ==> #[trigger] out.1@[j] == request.parent_window || exists|
                    i: int,
                |
                    0 <= i < children@.len() && (#[trigger] children@[i]) == (
                    out.1@[j],
                    ParentWindow(request.parent_window),
                )
        },
{
    match slot.try_recv() {
        Some(request) => {
            let targets = cursor_targets(request.parent_window, children);
            Some((request.cursor_icon, targets))
        },
        None => None,
    }
}

} // verus!
