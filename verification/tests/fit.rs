use child_window::fit::fit_to_parent_leading_edge;
use child_window::geometry::Frame;

fn frame(x: i64, y: i64, w: i64, h: i64) -> Frame {
    Frame { x, y, w, h }
}

#[test]
fn child_outside_leading_edge_is_nudged_back() {
    let nudged = fit_to_parent_leading_edge(&frame(100, 0, 400, 300), &frame(60, 50, 80, 80));
    assert_eq!(nudged, frame(100, 50, 80, 80));
}

#[test]
fn child_inside_leading_edge_is_left_alone() {
    let child = frame(150, 50, 80, 80);
    assert_eq!(fit_to_parent_leading_edge(&frame(100, 0, 400, 300), &child), child);
}

#[test]
fn only_the_horizontal_leading_edge_is_fitted() {
    // The policy's accepted limitation: a child below the parent's bottom
    // edge is not pulled back, only the left edge is.
    let child = frame(60, -100, 80, 80);
    assert_eq!(
        fit_to_parent_leading_edge(&frame(100, 0, 400, 300), &child),
        frame(100, -100, 80, 80),
    );
}
