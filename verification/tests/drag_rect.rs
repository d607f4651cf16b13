use child_window::drag_rect::{
    adjust_drag_rect_height, adjust_drag_rect_width, calc_frame_size, calc_window_size,
    window_move_proc, DragRect, HookRegistry,
};

fn rect(left: i64, top: i64, right: i64, bottom: i64) -> DragRect {
    DragRect { left, top, right, bottom }
}

#[test]
fn window_size_from_rect() {
    assert_eq!(calc_window_size(&rect(10, 20, 110, 100)), (100, 80));
}

#[test]
fn frame_size_is_half_the_border() {
    // Outer 100 by 80, client 90 by 72: a 5-wide and 4-high frame margin.
    assert_eq!(calc_frame_size(100, 80, 90, 72), (5, 4));
}

#[test]
fn width_clamp_pins_right_edge() {
    // Parent 0..200 with a 5-wide frame margin: the drag rectangle may not
    // pass 195; the left edge is recomputed from the window's width of 100.
    let mut drag = rect(120, 0, 220, 50);
    adjust_drag_rect_width(&mut drag, &rect(0, 0, 200, 200), 100, 5);
    assert_eq!(drag, rect(95, 0, 195, 50));
}

#[test]
fn width_clamp_pins_left_edge() {
    let mut drag = rect(-30, 0, 70, 50);
    adjust_drag_rect_width(&mut drag, &rect(0, 0, 200, 200), 100, 5);
    assert_eq!(drag, rect(5, 0, 110, 50));
}

#[test]
fn width_clamp_leaves_interior_proposal_alone() {
    let mut drag = rect(40, 0, 140, 50);
    adjust_drag_rect_width(&mut drag, &rect(0, 0, 200, 200), 100, 5);
    assert_eq!(drag, rect(40, 0, 140, 50));
}

#[test]
fn height_clamp_reserves_title_bar() {
    // Parent top at 0 with a 30-high title bar and 5-high frame margin: the
    // drag rectangle's top may not rise above 35.
    let mut drag = rect(0, 10, 100, 90);
    adjust_drag_rect_height(&mut drag, &rect(0, 0, 200, 200), 80, 5, 30);
    assert_eq!(drag, rect(0, 35, 100, 115));
}

#[test]
fn height_clamp_pins_bottom_edge() {
    let mut drag = rect(0, 150, 100, 230);
    adjust_drag_rect_height(&mut drag, &rect(0, 0, 200, 200), 80, 5, 30);
    assert_eq!(drag, rect(0, 115, 100, 195));
}

#[test]
fn whole_drag_notification_clamps_both_axes() {
    // Child window 110 wide and 90 high outside, 100 by 80 inside: frame
    // margins 5 each. Proposed rectangle passes the parent on the right and
    // the bottom.
    let mut drag = rect(150, 180, 260, 270);
    window_move_proc(
        &mut drag,
        &rect(0, 0, 200, 200),
        &rect(0, 0, 110, 90),
        &rect(0, 0, 100, 80),
        30,
    );
    assert_eq!(drag, rect(85, 105, 195, 195));
}

#[test]
fn hook_registry_chains_to_saved_handler() {
    let mut hooks: HookRegistry<u64> = HookRegistry::new();
    hooks.register(41, 1000);
    hooks.register(42, 2000);
    // A later registration replaces the saved handler.
    hooks.register(41, 1500);
    assert_eq!(hooks.previous_handler(41), Some(&1500));
    assert_eq!(hooks.previous_handler(42), Some(&2000));
    assert_eq!(hooks.previous_handler(43), None);
}
