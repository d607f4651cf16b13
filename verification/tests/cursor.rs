use child_window::cursor::{
    change_cursor_system, current_cursor_icon, cursor_targets, to_resize_direction, CursorIcon,
    RequestCursorChange, RequestCursorChangeSlot,
};
use child_window::geometry::Frame;
use child_window::hit_test::{ChildWindow, ResizeEdge};
use child_window::ParentWindow;

fn child(number: i64, x: i64, y: i64, w: i64, h: i64) -> ChildWindow {
    ChildWindow {
        number,
        frame: Frame { x, y, w, h },
        resizable: true,
        content_height: h,
        min_width: 10,
        min_height: 10,
    }
}

#[test]
fn cursor_for_left_edge() {
    let children = vec![child(3, 0, 0, 100, 100)];
    assert_eq!(current_cursor_icon(1, &children, 0, 50), (3, CursorIcon::WResize));
}

#[test]
fn cursor_for_corner() {
    let children = vec![child(3, 0, 0, 100, 100)];
    assert_eq!(current_cursor_icon(1, &children, 0, 100), (3, CursorIcon::NwResize));
}

#[test]
fn default_cursor_for_parent_when_nothing_hit() {
    let children = vec![child(3, 0, 0, 100, 100)];
    assert_eq!(current_cursor_icon(1, &children, 50, 50), (1, CursorIcon::Default));
}

#[test]
fn resize_direction_of_plain_cursors() {
    assert_eq!(to_resize_direction(&CursorIcon::WResize), Some(ResizeEdge::Left));
    assert_eq!(to_resize_direction(&CursorIcon::EResize), Some(ResizeEdge::Right));
    assert_eq!(to_resize_direction(&CursorIcon::NResize), Some(ResizeEdge::Top));
    assert_eq!(to_resize_direction(&CursorIcon::SResize), Some(ResizeEdge::Bottom));
    assert_eq!(to_resize_direction(&CursorIcon::Default), None);
    assert_eq!(to_resize_direction(&CursorIcon::NwResize), None);
}

#[test]
fn slot_keeps_latest_request_only() {
    let mut slot = RequestCursorChangeSlot::new();
    slot.send(RequestCursorChange { parent_window: 1, cursor_icon: CursorIcon::WResize });
    slot.send(RequestCursorChange { parent_window: 1, cursor_icon: CursorIcon::SResize });
    assert_eq!(
        slot.try_recv(),
        Some(RequestCursorChange { parent_window: 1, cursor_icon: CursorIcon::SResize }),
    );
    assert_eq!(slot.try_recv(), None);
}

#[test]
fn targets_are_parent_and_its_children_only() {
    // Parent P = 1 with children A and B; C is attached to another window.
    let children = vec![(10, ParentWindow(1)), (11, ParentWindow(1)), (12, ParentWindow(2))];
    assert_eq!(cursor_targets(1, &children), vec![1, 10, 11]);
}

#[test]
fn dispatch_applies_pending_request_and_drains_slot() {
    let children = vec![(10, ParentWindow(1)), (11, ParentWindow(1)), (12, ParentWindow(2))];
    let mut slot = RequestCursorChangeSlot::new();
    slot.send(RequestCursorChange { parent_window: 1, cursor_icon: CursorIcon::EResize });
    let (icon, targets) = change_cursor_system(&mut slot, &children).unwrap();
    assert_eq!(icon, CursorIcon::EResize);
    assert_eq!(targets, vec![1, 10, 11]);
    assert!(change_cursor_system(&mut slot, &children).is_none());
}
