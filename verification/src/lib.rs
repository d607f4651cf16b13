//! Child-window attachment and interaction logic.
//!
//! One application window can visually and behaviorally own another, so that
//! the second appears nested inside the first: the child moves, resizes and
//! raises together with its parent even though the underlying window system
//! has no uniform native support for the relationship.
//!
//! This crate holds the platform-independent core of that feature, fully
//! verified: the geometry clamps shared by move and resize gestures, the
//! edge-margin hit test that drives resize cursors, the pointer-event state
//! machine, the attachment registry that installs per-parent hooks exactly
//! once, the cursor dispatcher, and the drag-rectangle clamp used where the
//! window system proposes drag rectangles itself. A host embeds this core,
//! feeding it window frames and pointer events read from the native window
//! system and applying the actions it decides on.
//!
//! Frames and positions are whole numbers of the platform's native units, in
//! the coordinate convention each platform uses (bottom-left origin for the
//! pointer-event controller, top-left origin for the drag-rectangle hook).

use vstd::prelude::*;

pub mod attach;
pub mod cursor;
pub mod delegate;
pub mod drag_rect;
pub mod fit;
pub mod geometry;
pub mod hit_test;
pub mod interaction;
pub mod resize;

verus! {

/// Marks a window as nested inside another: the value is the identifier of
/// the parent window. Attached to the child when the host requests nesting,
/// and immutable thereafter; re-parenting is not supported.
#[derive(Clone, Copy, Debug, PartialEq, Eq, Structural)]
pub struct ParentWindow(pub u64);

} // verus!
