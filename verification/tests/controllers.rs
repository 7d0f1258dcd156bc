use mandelbrot_view::coord::pixel_to_plane;
use mandelbrot_view::fixed::FIX_ONE;
use mandelbrot_view::pan::latest_sample;
use mandelbrot_view::pan::pan_tick;
use mandelbrot_view::pan::pan_view;
use mandelbrot_view::pan::DragState;
use mandelbrot_view::viewport::ViewState;
use mandelbrot_view::viewport::CENTER_MAX;
use mandelbrot_view::viewport::SCALE_MAX;
use mandelbrot_view::zoom::scroll_factor;
use mandelbrot_view::zoom::zoomed;
use mandelbrot_view::zoom::FACTOR_MAX;

#[test]
fn pan_moves_center_by_scaled_delta() {
    let v = ViewState::default();
    let moved = pan_view(&v, 800, 10, 0);
    // 10 * 3.5 / 800 plane units, truncated in fixed point.
    assert_eq!(moved.center_re, v.center_re - 187904819);
    assert_eq!(moved.center_im, v.center_im);
    assert_eq!(moved.scale, v.scale);
    // Dragging down moves the center up: screen y grows downward.
    let moved = pan_view(&v, 800, 0, -10);
    assert_eq!(moved.center_im, v.center_im - 187904819);
    assert_eq!(moved.center_re, v.center_re);
}

#[test]
fn pan_roundtrip_restores_center_exactly() {
    let v = ViewState::default();
    let there = pan_view(&v, 800, 137, -59);
    let back = pan_view(&there, 800, -137, 59);
    assert_eq!(back, v);
}

#[test]
fn pan_that_would_leave_the_region_is_skipped() {
    let v = ViewState { center_re: CENTER_MAX, center_im: 0, scale: SCALE_MAX };
    let moved = pan_view(&v, 1, -2097152, 0);
    assert_eq!(moved, v);
}

#[test]
fn drag_gesture_state_machine() {
    let mut st = DragState::Idle;
    let mut v = ViewState::default();
    let start = v;
    let w = 800;

    // Button up: stays idle, view untouched.
    pan_tick(&mut st, &mut v, w, false, Some((50, 50)));
    assert_eq!(st, DragState::Idle);
    assert_eq!(v, start);

    // First sample of a gesture records the position, no center update.
    pan_tick(&mut st, &mut v, w, true, Some((100, 100)));
    assert_eq!(st, DragState::Dragging { last_x: 100, last_y: 100 });
    assert_eq!(v, start);

    // Second sample drags by the delta (10, -10).
    pan_tick(&mut st, &mut v, w, true, Some((110, 90)));
    assert_eq!(st, DragState::Dragging { last_x: 110, last_y: 90 });
    assert_eq!(v.center_re, start.center_re - 187904819);
    assert_eq!(v.center_im, start.center_im - 187904819);

    // No sample this tick: nothing moves, the position is kept.
    let held = v;
    pan_tick(&mut st, &mut v, w, true, None);
    assert_eq!(st, DragState::Dragging { last_x: 110, last_y: 90 });
    assert_eq!(v, held);

    // Release discards the gesture; the next press starts afresh with no
    // spurious jump even from a distant position.
    pan_tick(&mut st, &mut v, w, false, None);
    assert_eq!(st, DragState::Idle);
    pan_tick(&mut st, &mut v, w, true, Some((500, 500)));
    assert_eq!(st, DragState::Dragging { last_x: 500, last_y: 500 });
    assert_eq!(v, held);
}

#[test]
fn only_the_latest_sample_of_a_tick_counts() {
    assert_eq!(latest_sample(&vec![]), None);
    assert_eq!(latest_sample(&vec![(1, 2)]), Some((1, 2)));
    assert_eq!(latest_sample(&vec![(1, 2), (3, 4), (5, 6)]), Some((5, 6)));
}

#[test]
fn scroll_factor_matches_sensitivity() {
    assert_eq!(scroll_factor(0), FIX_ONE);
    assert_eq!(scroll_factor(1), FIX_ONE - 429496730);
    assert_eq!(scroll_factor(-1), FIX_ONE + 429496730);
}

#[test]
fn zoom_anchor_holds_exactly() {
    let v = ViewState::default();
    let (w, h) = (800, 600);
    for &(x, y) in &[(200usize, 150usize), (0, 0), (799, 599), (400, 300), (617, 23)] {
        for &steps in &[1i64, 2, -1, -5, 9] {
            let before = pixel_to_plane(&v, w, h, x, y);
            let after_view = zoomed(&v, w, h, x, y, scroll_factor(steps));
            let after = pixel_to_plane(&after_view, w, h, x, y);
            assert_eq!(before, after);
        }
    }
}

#[test]
fn zoom_in_shrinks_and_zoom_out_grows_the_scale() {
    let v = ViewState::default();
    let zoomed_in = zoomed(&v, 800, 600, 400, 300, scroll_factor(1));
    assert!(zoomed_in.scale < v.scale);
    // Exactly scale * factor, truncated.
    let expected = ((v.scale as i128 * scroll_factor(1) as i128) / (FIX_ONE as i128)) as i64;
    assert_eq!(zoomed_in.scale, expected);
    let zoomed_out = zoomed(&v, 800, 600, 400, 300, scroll_factor(-1));
    assert!(zoomed_out.scale > v.scale);
}

#[test]
fn zoom_that_would_overflow_the_scale_is_skipped() {
    let v = ViewState { center_re: 0, center_im: 0, scale: SCALE_MAX };
    let unchanged = zoomed(&v, 800, 600, 10, 10, FACTOR_MAX);
    assert_eq!(unchanged, v);
}

#[test]
fn zoom_below_the_precision_floor_is_skipped() {
    let v = ViewState { center_re: 0, center_im: 0, scale: 1 };
    let unchanged = zoomed(&v, 800, 600, 400, 300, scroll_factor(1));
    assert_eq!(unchanged, v);
}
