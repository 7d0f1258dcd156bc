use mandelbrot_view::coord::pixel_to_plane;
use mandelbrot_view::color::color_map;
use mandelbrot_view::engine::Engine;
use mandelbrot_view::escape::escape_time;
use mandelbrot_view::escape::MAX_ITERATIONS;
use mandelbrot_view::viewport::ViewState;
use mandelbrot_view::zoom::scroll_factor;

#[test]
fn resize_reallocates_without_touching_the_view() {
    let mut e = Engine::new(800, 600);
    let view_before = e.view;
    e.on_resize(1024, 768);
    assert_eq!(e.view, view_before);
    assert_eq!(e.buffer.width, 1024);
    assert_eq!(e.buffer.height, 768);
    assert_eq!(e.buffer.data.len(), 1024 * 768 * 4);
    assert!(e.needs_render);
}

#[test]
fn degenerate_resize_is_skipped() {
    let mut e = Engine::new(800, 600);
    e.render_tick();
    e.on_resize(0, 600);
    assert_eq!(e.buffer.width, 800);
    assert!(!e.needs_render);
}

#[test]
fn render_runs_only_when_something_changed() {
    let mut e = Engine::new(64, 48);
    // The first frame is pending.
    assert!(e.render_tick());
    // Nothing changed: no re-render.
    assert!(!e.render_tick());
    // A pointer tick that moves nothing keeps the frame clean.
    e.on_pointer(true, Some((10, 10)));
    assert!(!e.render_tick());
    // An accepted scroll event marks it dirty.
    e.on_scroll(Some((32, 24)), scroll_factor(1));
    assert!(e.render_tick());
    // A dropped scroll event (cursor outside the area) does not.
    e.on_scroll(None, scroll_factor(1));
    assert!(!e.render_tick());
    // Neither does a malformed factor.
    e.on_scroll(Some((32, 24)), 0);
    assert!(!e.render_tick());
    // A real drag does.
    e.on_pointer(true, Some((20, 14)));
    assert!(e.render_tick());
}

#[test]
fn dropped_scroll_events_change_nothing() {
    let mut e = Engine::new(800, 600);
    e.render_tick();
    let before = e.view;
    // Cursor outside the display area.
    e.on_scroll(None, scroll_factor(1));
    assert_eq!(e.view, before);
    // Cursor pixel beyond the buffer edge.
    e.on_scroll(Some((800, 300)), scroll_factor(1));
    assert_eq!(e.view, before);
    // Malformed factors: zero and negative.
    e.on_scroll(Some((400, 300)), 0);
    e.on_scroll(Some((400, 300)), -1);
    assert_eq!(e.view, before);
    assert!(!e.needs_render);
}

#[test]
fn sequential_scrolls_keep_the_cursor_point() {
    // Several scroll events in one tick apply in arrival order, each
    // re-deriving the cursor point from the view its predecessor left; the
    // anchored point survives the whole sequence.
    let mut e = Engine::new(800, 600);
    let p0 = pixel_to_plane(&e.view, 800, 600, 250, 125);
    e.on_scroll(Some((250, 125)), scroll_factor(1));
    e.on_scroll(Some((250, 125)), scroll_factor(2));
    e.on_scroll(Some((250, 125)), scroll_factor(-1));
    let p1 = pixel_to_plane(&e.view, 800, 600, 250, 125);
    assert_eq!(p0, p1);
    assert!(e.view.scale < ViewState::default().scale);
}

#[test]
fn default_view_marks_the_center_pixel_non_escaping() {
    // Default view, 800x600 buffer: pixel (400, 300) sits near (-0.75, 0),
    // inside the set, so a render paints it opaque black.
    let v = ViewState::default();
    let c = pixel_to_plane(&v, 800, 600, 400, 300);
    let n = escape_time(c.0, c.1, MAX_ITERATIONS);
    assert_eq!(n, MAX_ITERATIONS);
    assert_eq!(color_map(n, MAX_ITERATIONS), (0, 0, 0, 255));
}

#[test]
fn rendered_frame_pixels_match_the_pipeline() {
    let mut e = Engine::new(80, 60);
    assert!(e.render_tick());
    assert_eq!(e.buffer.data.len(), 80 * 60 * 4);

    // The center pixel maps inside the set: opaque black.
    let idx = (30 * 80 + 40) * 4;
    assert_eq!(&e.buffer.data[idx..idx + 4], &[0, 0, 0, 255]);

    // The top-left corner maps to (-2.5, 1.3125), which escapes on the
    // first check; count 1 colors to (0, 0, 4, 255).
    assert_eq!(&e.buffer.data[0..4], &[0, 0, 4, 255]);

    // Spot-check an arbitrary pixel against the per-pixel pipeline.
    let v = e.view;
    let c = pixel_to_plane(&v, 80, 60, 17, 42);
    let n = escape_time(c.0, c.1, MAX_ITERATIONS);
    let col = color_map(n, MAX_ITERATIONS);
    let idx = (42 * 80 + 17) * 4;
    assert_eq!(&e.buffer.data[idx..idx + 4], &[col.0, col.1, col.2, col.3]);
}
