use bevy_retro::clip::{ClipOp, ClipStack, PixelPoint, ProjectedBox, ScissorRegion};

fn region(x: u32, y: u32, width: u32, height: u32) -> ScissorRegion {
    ScissorRegion { x, y, width, height }
}

fn boxed(corners: [(i64, i64); 4]) -> ProjectedBox {
    ProjectedBox {
        top_left: PixelPoint { x: corners[0].0, y: corners[0].1 },
        top_right: PixelPoint { x: corners[1].0, y: corners[1].1 },
        bottom_right: PixelPoint { x: corners[2].0, y: corners[2].1 },
        bottom_left: PixelPoint { x: corners[3].0, y: corners[3].1 },
    }
}

#[test]
fn identity_projection_gives_box_at_origin() {
    let projected = ProjectedBox::axis_aligned(40, 20);
    assert_eq!(projected.scissor(), region(0, 0, 40, 20));
}

#[test]
fn identity_projection_of_empty_box() {
    assert_eq!(ProjectedBox::axis_aligned(0, 0).scissor(), region(0, 0, 0, 0));
}

#[test]
fn shifted_box_keeps_its_size() {
    let projected = boxed([(5, 7), (15, 7), (15, 37), (5, 37)]);
    assert_eq!(projected.scissor(), region(5, 7, 10, 30));
}

#[test]
fn rotated_box_is_enclosed_by_its_bounding_rectangle() {
    // A square turned by a quarter of a right angle: no corner is the top left one.
    let projected = boxed([(10, 0), (20, 10), (10, 20), (0, 10)]);
    assert_eq!(projected.scissor(), region(0, 0, 20, 20));
}

#[test]
fn mirrored_box_has_the_same_rectangle() {
    let projected = boxed([(30, 40), (10, 40), (10, 15), (30, 15)]);
    assert_eq!(projected.scissor(), region(10, 15, 20, 25));
}

#[test]
fn origin_left_of_the_viewport_is_cut_at_zero() {
    let projected = boxed([(-5, -2), (10, -2), (10, 6), (-5, 6)]);
    // The extent is measured before the origin is cut.
    assert_eq!(projected.scissor(), region(0, 0, 15, 8));
}

#[test]
fn extent_past_the_largest_pixel_count_saturates() {
    let projected = boxed([(0, 0), (i64::MAX, 0), (i64::MAX, 1), (0, 1)]);
    assert_eq!(projected.scissor(), region(0, 0, u32::MAX, 1));
}

#[test]
fn extreme_corners_do_not_overflow() {
    let projected = boxed([(i64::MIN, i64::MIN), (i64::MAX, i64::MIN), (i64::MAX, i64::MAX), (i64::MIN, i64::MAX)]);
    assert_eq!(projected.scissor(), region(0, 0, u32::MAX, u32::MAX));
}

#[test]
fn new_stack_has_no_scissor() {
    let stack = ClipStack::new();
    assert_eq!(stack.active(), None);
    assert_eq!(stack.depth(), 0);
}

#[test]
fn push_sets_the_active_scissor() {
    let mut stack = ClipStack::new();
    stack.push(region(1, 2, 3, 4));
    assert_eq!(stack.active(), Some(region(1, 2, 3, 4)));
    stack.push(region(5, 6, 7, 8));
    assert_eq!(stack.active(), Some(region(5, 6, 7, 8)));
    assert_eq!(stack.depth(), 2);
}

#[test]
fn pop_returns_to_the_enclosing_scissor() {
    let mut stack = ClipStack::new();
    stack.push(region(1, 2, 3, 4));
    stack.push(region(5, 6, 7, 8));
    stack.pop();
    assert_eq!(stack.active(), Some(region(1, 2, 3, 4)));
    stack.pop();
    assert_eq!(stack.active(), None);
}

#[test]
fn unmatched_pop_leaves_no_scissor() {
    let mut stack = ClipStack::new();
    stack.pop();
    assert_eq!(stack.active(), None);
    assert_eq!(stack.depth(), 0);
    // The stack still works afterwards.
    stack.push(region(9, 9, 9, 9));
    assert_eq!(stack.active(), Some(region(9, 9, 9, 9)));
}

#[test]
fn active_scissor_follows_a_simulated_stack() {
    let ops = [
        ClipOp::Push(region(0, 0, 10, 10)),
        ClipOp::Pop,
        ClipOp::Pop,
        ClipOp::Push(region(1, 1, 5, 5)),
        ClipOp::Push(region(2, 2, 3, 3)),
        ClipOp::Push(region(3, 3, 1, 1)),
        ClipOp::Pop,
        ClipOp::Push(region(4, 4, 2, 2)),
        ClipOp::Pop,
        ClipOp::Pop,
        ClipOp::Pop,
        ClipOp::Pop,
    ];
    let mut stack = ClipStack::new();
    let mut simulated: Vec<ScissorRegion> = Vec::new();
    for op in ops {
        stack.apply(op);
        match op {
            ClipOp::Push(r) => simulated.push(r),
            ClipOp::Pop => {
                simulated.pop();
            }
        }
        assert_eq!(stack.active(), simulated.last().copied());
        assert_eq!(stack.depth(), simulated.len());
    }
    assert_eq!(stack.active(), None);
}

#[test]
fn a_sequence_applied_at_once_ends_like_one_applied_step_by_step() {
    let ops = vec![
        ClipOp::Pop,
        ClipOp::Push(region(1, 1, 5, 5)),
        ClipOp::Push(region(2, 2, 3, 3)),
        ClipOp::Pop,
        ClipOp::Push(region(4, 4, 2, 2)),
    ];
    let mut at_once = ClipStack::new();
    at_once.apply_all(&ops);
    let mut stepwise = ClipStack::new();
    for op in &ops {
        stepwise.apply(*op);
    }
    assert_eq!(at_once.active(), Some(region(4, 4, 2, 2)));
    assert_eq!(at_once.active(), stepwise.active());
    assert_eq!(at_once.depth(), 2);
    at_once.apply_all(&vec![ClipOp::Pop, ClipOp::Pop, ClipOp::Pop]);
    assert_eq!(at_once.active(), None);
    at_once.apply_all(&Vec::new());
    assert_eq!(at_once.depth(), 0);
}
