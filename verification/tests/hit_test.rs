use child_window::geometry::Frame;
use child_window::hit_test::{
    check_resizable_direction, find_hit_resizing_window, ChildWindow, ResizeEdge,
};

fn child(number: i64, x: i64, y: i64, w: i64, h: i64, resizable: bool) -> ChildWindow {
    ChildWindow {
        number,
        frame: Frame { x, y, w, h },
        resizable,
        content_height: h,
        min_width: 10,
        min_height: 10,
    }
}

#[test]
fn bottom() {
    assert_eq!(check_resizable_direction(100, 100, 30, 0), Some(ResizeEdge::Bottom));
}

#[test]
fn left() {
    assert_eq!(check_resizable_direction(100, 100, 0, 30), Some(ResizeEdge::Left));
}

#[test]
fn left_outer() {
    assert_eq!(check_resizable_direction(100, 100, -20, 30), Some(ResizeEdge::Left));
}

#[test]
fn un_change_left_outer() {
    assert_eq!(check_resizable_direction(100, 100, -21, 30), None);
}

#[test]
fn right() {
    assert_eq!(check_resizable_direction(100, 100, 100, 30), Some(ResizeEdge::Right));
}

#[test]
fn top() {
    assert_eq!(check_resizable_direction(100, 100, 30, 100), Some(ResizeEdge::Top));
}

#[test]
fn top_outer() {
    assert_eq!(check_resizable_direction(100, 100, 11, 120), Some(ResizeEdge::Top));
}

#[test]
fn top_left() {
    assert_eq!(check_resizable_direction(100, 100, 0, 100), Some(ResizeEdge::TopLeft));
}

#[test]
fn corners_beat_single_edges() {
    // Bottom-left corner: both adjacent edge zones active at once.
    assert_eq!(check_resizable_direction(100, 100, 5, 5), Some(ResizeEdge::BottomLeft));
    assert_eq!(check_resizable_direction(100, 100, 95, 105), Some(ResizeEdge::TopRight));
    assert_eq!(check_resizable_direction(100, 100, 95, -5), Some(ResizeEdge::BottomRight));
}

#[test]
fn interior_is_no_edge() {
    assert_eq!(check_resizable_direction(100, 100, 50, 50), None);
}

#[test]
fn hit_topmost_child_wins() {
    // Children in stacking order, bottom to top: both offer their left edge
    // at x = 40; the topmost (last) one wins.
    let children = vec![child(1, 0, 0, 100, 100, true), child(2, 40, 0, 100, 100, true)];
    assert_eq!(find_hit_resizing_window(&children, 40, 50), Some((2, ResizeEdge::Left)));
}

#[test]
fn hit_skips_unresizable_child() {
    // The pointer sits on the lower child's right edge, inside the topmost
    // child; the topmost is not resizable and offers no zone.
    let children = vec![child(1, 0, 0, 100, 100, true), child(2, 40, 0, 100, 100, false)];
    assert_eq!(find_hit_resizing_window(&children, 100, 50), Some((1, ResizeEdge::Right)));
}

#[test]
fn hit_falls_through_interior_of_topmost() {
    // The pointer is in the middle of the topmost child but on the right
    // edge of the one below: the topmost offers no zone and does not block.
    let children = vec![child(1, 0, 0, 60, 100, true), child(2, 30, 20, 60, 60, true)];
    assert_eq!(find_hit_resizing_window(&children, 55, 50), Some((1, ResizeEdge::Right)));
}

#[test]
fn hit_nothing_when_outside_all() {
    let children = vec![child(1, 0, 0, 100, 100, true)];
    assert_eq!(find_hit_resizing_window(&children, 200, 200), None);
    assert_eq!(find_hit_resizing_window(&Vec::new(), 10, 10), None);
}
