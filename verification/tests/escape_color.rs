use mandelbrot_view::color::color_map;
use mandelbrot_view::escape::escape_time;
use mandelbrot_view::escape::MAX_ITERATIONS;
use mandelbrot_view::fixed::FIX_ONE;

#[test]
fn origin_never_escapes() {
    assert_eq!(escape_time(0, 0, MAX_ITERATIONS), MAX_ITERATIONS);
}

#[test]
fn two_escapes_on_the_first_check() {
    assert_eq!(escape_time(2 * FIX_ONE, 0, MAX_ITERATIONS), 1);
}

#[test]
fn minus_one_never_escapes() {
    // The center of the period-2 bulb: the orbit alternates 0, -1, 0, -1.
    assert_eq!(escape_time(-FIX_ONE, 0, MAX_ITERATIONS), MAX_ITERATIONS);
}

#[test]
fn escape_count_capped_by_budget() {
    // A boundary-ish point: whatever the count, it stays within the budget.
    let n = escape_time(-3 * FIX_ONE / 4, FIX_ONE / 10, MAX_ITERATIONS);
    assert!(n <= MAX_ITERATIONS);
    // And a tiny budget caps immediately.
    assert_eq!(escape_time(0, 0, 3), 3);
}

#[test]
fn budget_count_is_opaque_black() {
    assert_eq!(color_map(MAX_ITERATIONS, MAX_ITERATIONS), (0, 0, 0, 255));
}

#[test]
fn zero_count_is_opaque_black_too() {
    // n = 0 zeroes every polynomial channel.
    assert_eq!(color_map(0, MAX_ITERATIONS), (0, 0, 0, 255));
}

#[test]
fn midpoint_count_has_exact_palette_color() {
    // i = 256, m = 512: n = 1/2, so r = round(9/16 * 255) = 143,
    // g = round(15/16 * 255) = 239, b = round(8.5/16 * 255) = 135.
    assert_eq!(color_map(256, MAX_ITERATIONS), (143, 239, 135, 255));
}

#[test]
fn first_iteration_escape_color() {
    // i = 1, m = 512: red and green round to 0, blue to 4.
    assert_eq!(color_map(1, MAX_ITERATIONS), (0, 0, 4, 255));
}

#[test]
fn every_count_is_fully_opaque() {
    for i in 0..=MAX_ITERATIONS {
        let c = color_map(i, MAX_ITERATIONS);
        assert_eq!(c.3, 255);
        if i == MAX_ITERATIONS {
            assert_eq!((c.0, c.1, c.2), (0, 0, 0));
        }
    }
}
