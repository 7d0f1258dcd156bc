use mandelbrot_view::coord::pixel_to_plane;
use mandelbrot_view::viewport::ViewState;

// Default view over an 800x600 buffer: x_min = -2.5, x_max = 1.0,
// y_min = -1.3125, y_max = 1.3125, all exact in fixed point.

#[test]
fn corner_pixels_map_to_window_edges() {
    let v = ViewState::default();
    let top_left = pixel_to_plane(&v, 800, 600, 0, 0);
    assert_eq!(top_left.0, -10737418240); // -2.5
    assert_eq!(top_left.1, 5637144576); // 1.3125
    let bottom_right = pixel_to_plane(&v, 800, 600, 799, 599);
    assert_eq!(bottom_right.0, 4294967296); // 1.0
    assert_eq!(bottom_right.1, -5637144576); // -1.3125
}

#[test]
fn mapper_monotone_in_x_and_antitone_in_y() {
    let v = ViewState::default();
    let mut prev = pixel_to_plane(&v, 800, 600, 0, 0);
    for x in 1..800 {
        let cur = pixel_to_plane(&v, 800, 600, x, 0);
        assert!(cur.0 > prev.0);
        assert_eq!(cur.1, prev.1);
        prev = cur;
    }
    let mut prev = pixel_to_plane(&v, 800, 600, 0, 0);
    for y in 1..600 {
        let cur = pixel_to_plane(&v, 800, 600, 0, y);
        assert!(cur.1 < prev.1);
        assert_eq!(cur.0, prev.0);
        prev = cur;
    }
}

#[test]
fn mapper_is_affine_up_to_rounding() {
    // The column step is scale / (w - 1); consecutive mapped columns differ
    // by that step up to one fixed-point unit.
    let v = ViewState::default();
    let step_num: i64 = v.scale;
    let den: i64 = 799;
    let a = pixel_to_plane(&v, 800, 600, 10, 0).0;
    let b = pixel_to_plane(&v, 800, 600, 11, 0).0;
    let exact_lo = step_num / den; // truncated slope
    assert!(b - a == exact_lo || b - a == exact_lo + 1);
}

#[test]
fn single_column_or_row_maps_to_center() {
    let v = ViewState::default();
    let c = pixel_to_plane(&v, 1, 5, 0, 2);
    assert_eq!(c.0, v.center_re);
    let c = pixel_to_plane(&v, 5, 1, 2, 0);
    assert_eq!(c.1, v.center_im);
}

#[test]
fn center_pixel_is_near_view_center() {
    let v = ViewState::default();
    let c = pixel_to_plane(&v, 800, 600, 400, 300);
    // Within one column/row step of the exact center.
    assert!((c.0 - v.center_re).abs() <= v.scale / 799 + 1);
    assert!((c.1 - v.center_im).abs() <= (3 * v.scale / 4) / 599 + 1);
}
