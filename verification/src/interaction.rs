//! The pointer-event interaction controller.
//!
//! The window system never forwards drag gestures on the synthetic title band
//! of a borderless child to that child, so each hooked parent installs one
//! global pointer-event observer and this controller decides, event by event,
//! what the observer does: raise and start moving a child pressed on its drag
//! band, move or resize the active child as the pointer drags, and keep the
//! resize cursor in step with the pointer between gestures. One controller
//! instance exists per hooked parent, owned by that parent's observer, and
//! lives as long as the hook — for the rest of the process.
//!
//! The controller itself performs no window-system call: it receives a
//! snapshot of the parent and its children together with one pointer event,
//! and returns the actions the observer must apply.

use vstd::prelude::*;
use crate::cursor::{current_icon, edge_cursor, CursorIcon};
use crate::geometry::{mag_ok, move_child_window, moved_x_pos, moved_y_pos, Frame};
use crate::hit_test::{
    find_child, find_child_window, find_hit_resizing_window, hit_in_children,
    lemma_find_child_found, ChildWindow, ResizeEdge,
};
use crate::resize::{apply_resize, resized_h, resized_w, resized_x, resized_y};

verus! {

/// The controller's state: one gesture at a time, per parent. `Idle` between
/// gestures; `Moving` while a child is dragged by its title band; `Resizing`
/// while a child is dragged by an edge or corner; `ResizeCursorVisible` when
/// the pointer rests on an edge so that a press would start resizing.
#[derive(Clone, Copy, Debug, PartialEq, Eq, Structural)]
pub enum InteractionState {
    Idle,
    Moving { target: i64 },
    Resizing { target: i64, edge: ResizeEdge },
    ResizeCursorVisible { target: i64, edge: ResizeEdge },
}

/// One pointer event, as the observer receives it. `Down` carries the number
/// of the window the press landed in and the press position local to that
/// window; `Dragged` carries the pointer delta since the last event, with a
/// positive `delta_y` pointing downward; `Moved` carries the pointer position
/// in parent coordinates.
#[derive(Clone, Copy, Debug, PartialEq, Eq, Structural)]
pub enum PointerEvent {
    Down { window_number: i64, x: i64, y: i64 },
    Up,
    Dragged { delta_x: i64, delta_y: i64 },
    Moved { x: i64, y: i64 },
}

/// The event's coordinates are within the magnitude bound.
pub open spec fn event_fits(e: PointerEvent) -> bool {
    match e {
        PointerEvent::Down { window_number, x, y } => mag_ok(x as int) && mag_ok(y as int),
        PointerEvent::Up => true,
        PointerEvent::Dragged { delta_x, delta_y } => mag_ok(delta_x as int) && mag_ok(
            delta_y as int,
        ),
        PointerEvent::Moved { x, y } => mag_ok(x as int) && mag_ok(y as int),
    }
}

/// What the observer must do to the native windows after an event: raise a
/// child above its siblings (stealing key status from any focused sibling),
/// give a child a new frame without a layout animation, or publish a cursor
/// icon through the cursor dispatcher.
#[derive(Clone, Copy, Debug, PartialEq, Eq, Structural)]
pub enum InteractionAction {
    RaiseChild { target: i64 },
    SetChildFrame { target: i64, frame: Frame },
    PublishCursor { icon: CursorIcon },
}

/// A snapshot of one hooked parent as an event arrives: its window number,
/// its content region, and its attached children in stacking order, bottom to
/// top, all in one shared coordinate space with a bottom-left origin.
pub struct ParentSnapshot {
    pub parent_number: i64,
    pub content: Frame,
    pub children: Vec<ChildWindow>,
}

impl ParentSnapshot {
    /// The snapshot's geometry is within the magnitude bound.
    pub open spec fn fits(self) -> bool {
        self.content.fits() && forall|i: int|
            0 <= i < self.children@.len() ==> (#[trigger] self.children@[i]).fits()
    }
}

/// The press at local height `y` lands in the child's synthetic drag band:
/// inside the child but above its content region (bottom-left origin, so at
/// or above the content's height).
pub open spec fn hits_drag_band(c: ChildWindow, y: int) -> bool {
    c.content_height <= y
}

/// The interaction state machine of one hooked parent. The observer hands
/// every pointer event to [`InteractionController::handle_event`] and applies
/// the actions it returns.
pub struct InteractionController {
    state: InteractionState,
}

impl InteractionController {
    /// The controller's current state.
    pub closed spec fn state(self) -> InteractionState {
        self.state
    }

    /// A freshly installed hook starts idle.
    pub fn new() -> (r: InteractionController)
        ensures
            r.state() == InteractionState::Idle,
    {
        InteractionController { state: InteractionState::Idle }
    }

    /// The controller's current state.
    pub fn current_state(&self) -> (r: InteractionState)
        ensures
            r == self.state(),
    {
        self.state
    }

    /// Decides one pointer event.
    ///
    /// - Any release returns the controller to `Idle` with nothing to do.
    /// - A press while idle that lands in a child's drag band raises that
    ///   child and starts moving it; a press while a resize cursor is visible
    ///   raises the hit child and starts resizing it by the edge the cursor
    ///   showed; other presses do nothing.
    /// - A drag while moving re-clamps the target child's position against
    ///   the parent's content region; a drag while resizing applies the clamp
    ///   of each active edge. A target that is no longer in the snapshot is
    ///   skipped.
    /// - A pointer move while idle or while a resize cursor is visible
    ///   hit-tests the children, publishes the cursor the position calls for,
    ///   and shows or hides the resize-cursor state accordingly; during a
    ///   move or resize gesture pointer moves are ignored.
    pub fn handle_event(&mut self, ctx: &ParentSnapshot, event: &PointerEvent) -> (actions: Vec<
        InteractionAction,
    >)
        requires
            ctx.fits(),
            event_fits(*event),
        ensures
            *event matches PointerEvent::Up ==> final(self).state() == InteractionState::Idle
                && actions@ == Seq::<InteractionAction>::empty(),
            *event matches PointerEvent::Down { window_number, x, y } ==> {
                &&& old(self).state() matches InteractionState::ResizeCursorVisible {
                    target,
                    edge,
                } ==> {
                    &&& final(self).state() == (InteractionState::Resizing { target, edge })
                    &&& actions@ == seq![(InteractionAction::RaiseChild { target })]
                }
                &&& old(self).state() == InteractionState::Idle ==> match find_child(
                    ctx.children@,
                    window_number,
                ) {
                    Some(c) => {
                        if hits_drag_band(c, y as int) {
                            &&& final(self).state() == (InteractionState::Moving {
                                target: window_number,
                            })
                            &&& actions@ == seq![
                                (InteractionAction::RaiseChild { target: window_number }),
                            ]
                        } else {
                            final(self).state() == old(self).state() && actions@
                                == Seq::<InteractionAction>::empty()
                        }
                    },
                    None => final(self).state() == old(self).state() && actions@
                        == Seq::<InteractionAction>::empty(),
                }
                &&& (old(self).state() is Moving || old(self).state() is Resizing) ==> final(self).state() == old(self).state() && actions@ == Seq::<InteractionAction>::empty()
            },
            *event matches PointerEvent::Dragged { delta_x, delta_y } ==> {
                &&& final(self).state() == old(self).state()
                &&& old(self).state() matches InteractionState::Moving { target } ==> match
                    find_child(ctx.children@, target) {
                    Some(c) => actions@ == seq![
                        (InteractionAction::SetChildFrame {
                            target,
                            frame: Frame {
                                x: moved_x_pos(
                                    ctx.content,
                                    c.frame.x as int,
                                    c.frame.w as int,
                                    delta_x as int,
                                ) as i64,
                                y: moved_y_pos(
                                    ctx.content,
                                    c.frame.y as int,
                                    c.frame.h as int,
                                    delta_y as int,
                                ) as i64,
                                w: c.frame.w,
                                h: c.frame.h,
                            },
                        }),
                    ],
                    None => actions@ == Seq::<InteractionAction>::empty(),
                }
                &&& old(self).state() matches InteractionState::Resizing { target, edge } ==> match
                    find_child(ctx.children@, target) {
                    Some(c) => actions@ == seq![
                        (InteractionAction::SetChildFrame {
                            target,
                            frame: Frame {
                                x: resized_x(
                                    ctx.content,
                                    c.frame,
                                    edge,
                                    delta_x as int,
                                    c.min_width as int,
                                ) as i64,
                                w: resized_w(
                                    ctx.content,
                                    c.frame,
                                    edge,
                                    delta_x as int,
                                    c.min_width as int,
                                ) as i64,
                                y: resized_y(
                                    ctx.content,
                                    c.frame,
                                    edge,
                                    delta_y as int,
                                    c.min_height as int,
                                ) as i64,
                                h: resized_h(
                                    ctx.content,
                                    c.frame,
                                    edge,
                                    delta_y as int,
                                    c.min_height as int,
                                ) as i64,
                            },
                        }),
                    ],
                    None => actions@ == Seq::<InteractionAction>::empty(),
                }
                &&& (old(self).state() is Idle || old(self).state() is ResizeCursorVisible)
                    ==> actions@ == Seq::<InteractionAction>::empty()
            },
            *event matches PointerEvent::Moved { x, y } ==> {
                &&& (old(self).state() is Idle || old(self).state() is ResizeCursorVisible) ==> {
                    &&& actions@ == seq![
                        (InteractionAction::PublishCursor {
                            icon: current_icon(
                                ctx.parent_number,
                                ctx.children@,
                                x as int,
                                y as int,
                            ).1,
                        }),
                    ]
                    &&& final(self).state() == match hit_in_children(
                        ctx.children@,
                        x as int,
                        y as int,
                    ) {
                        Some((number, edge)) => InteractionState::ResizeCursorVisible {
                            target: number,
                            edge,
                        },
                        None => InteractionState::Idle,
                    }
                }
                &&& (old(self).state() is Moving || old(self).state() is Resizing) ==> final(self).state() == old(self).state() && actions@ == Seq::<InteractionAction>::empty()
            },
    {
        match event {
            PointerEvent::Up => {
                self.state = InteractionState::Idle;
                Vec::new()
            },
            PointerEvent::Down { window_number, x: _, y } => {
                match self.state {
                    InteractionState::ResizeCursorVisible { target, edge } => {
                        self.state = InteractionState::Resizing { target, edge };
                        let mut actions: Vec<InteractionAction> = Vec::new();
                        actions.push(InteractionAction::RaiseChild { target });
                        proof {
                            assert(actions@ =~= seq![(InteractionAction::RaiseChild { target })]);
                        }
                        actions
                    },
                    InteractionState::Idle => {
                        match find_child_window(&ctx.children, *window_number) {
                            Some(c) => {
                                if c.content_height <= *y {
                                    self.state = InteractionState::Moving {
                                        target: *window_number,
                                    };
                                    let mut actions: Vec<InteractionAction> = Vec::new();
                                    actions.push(
                                        InteractionAction::RaiseChild { target: *window_number },
                                    );
                                    proof {
                                        assert(actions@ =~= seq![
                                            (InteractionAction::RaiseChild {
                                                target: *window_number,
                                            }),
                                        ]);
                                    }
                                    actions
                                } else {
                                    Vec::new()
                                }
                            },
                            None => Vec::new(),
                        }
                    },
                    _ => Vec::new(),
                }
            },
            PointerEvent::Dragged { delta_x, delta_y } => {
                match self.state {
                    InteractionState::Moving { target } => {
                        match find_child_window(&ctx.children, target) {
                            Some(c) => {
                                proof {
                                    lemma_find_child_found(ctx.children@, target);
                                    let i = choose|i: int|
                                        0 <= i < ctx.children@.len() && ctx.children@[i] == c;
                                    assert(ctx.children@[i].fits());
                                }
                                let frame = move_child_window(
                                    &ctx.content,
                                    &c.frame,
                                    *delta_x,
                                    *delta_y,
                                );
                                let mut actions: Vec<InteractionAction> = Vec::new();
                                actions.push(InteractionAction::SetChildFrame { target, frame });
                                proof {
                                    assert(actions@ =~= seq![
                                        (InteractionAction::SetChildFrame { target, frame }),
                                    ]);
                                }
                                actions
                            },
                            None => Vec::new(),
                        }
                    },
                    InteractionState::Resizing { target, edge } => {
                        match find_child_window(&ctx.children, target) {
                            Some(c) => {
                                proof {
                                    lemma_find_child_found(ctx.children@, target);
                                    let i = choose|i: int|
                                        0 <= i < ctx.children@.len() && ctx.children@[i] == c;
                                    assert(ctx.children@[i].fits());
                                }
                                let frame = apply_resize(&ctx.content, &c, edge, *delta_x, *delta_y);
                                let mut actions: Vec<InteractionAction> = Vec::new();
                                actions.push(InteractionAction::SetChildFrame { target, frame });
                                proof {
                                    assert(actions@ =~= seq![
                                        (InteractionAction::SetChildFrame { target, frame }),
                                    ]);
                                }
                                actions
                            },
                            None => Vec::new(),
                        }
                    },
                    _ => Vec::new(),
                }
            },
            PointerEvent::Moved { x, y } => {
                let watching = match self.state {
                    InteractionState::Idle => true,
                    InteractionState::ResizeCursorVisible { .. } => true,
                    _ => false,
                };
                if !watching {
                    return Vec::new();
                }
                let hit = find_hit_resizing_window(&ctx.children, *x, *y);
                let icon = match hit {
                    Some((_, edge)) => edge_cursor(edge),
                    None => CursorIcon::Default,
                };
                self.state = match hit {
                    Some((number, edge)) => InteractionState::ResizeCursorVisible {
                        target: number,
                        edge,
                    },
                    None => InteractionState::Idle,
                };
                let mut actions: Vec<InteractionAction> = Vec::new();
                actions.push(InteractionAction::PublishCursor { icon });
                proof {
                    assert(actions@ =~= seq![(InteractionAction::PublishCursor { icon })]);
                }
                actions
            },
        }
    }
}

} // verus!
