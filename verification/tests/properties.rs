use ferrux_viewport::error::ViewportError;
use ferrux_viewport::pixel::Pixel;
use ferrux_viewport::render::{Render, Resize};
use ferrux_viewport::viewport::{Viewport, ViewportFactory};

#[test]
fn point_in_the_center_lands_at_its_index_and_layer() {
    let mut viewport = ViewportFactory::test(640, 480, 1000);
    let color = [10, 20, 30, 40];
    viewport.draw_point((0, 0, 0), &color);
    assert_eq!(viewport.buffer[153920], Pixel { color, depth: 500 });
}

#[test]
fn lowest_corner_lands_at_index_zero_with_depth_zero() {
    let mut viewport = ViewportFactory::test(640, 480, 7);
    let color = [1, 2, 3, 4];
    viewport.draw_point((-1_000_000, -1_000_000, -1_000_000), &color);
    assert_eq!(viewport.buffer[0], Pixel { color, depth: 0 });
}

#[test]
fn out_of_range_points_are_silently_discarded() {
    let mut viewport = ViewportFactory::test(16, 16, 10);
    let color = [255, 0, 0, 255];
    viewport.draw_point((-2_000_000, 0, 0), &color);
    viewport.draw_point((2_000_000, 0, 0), &color);
    viewport.draw_point((0, -1_500_000, 0), &color);
    viewport.draw_point((0, 1_000_000, 0), &color);
    viewport.draw_point((0, 0, -1_500_000), &color);
    for i in 0..(16 * 16) {
        assert_eq!(viewport.buffer[i], Pixel::default());
    }
}

#[test]
fn far_layer_still_wins_its_cell() {
    // A `z` at or past `1.0` maps past every layer; the cell is on screen
    // and the draw still wins it.
    let mut viewport = ViewportFactory::test(16, 16, 10);
    let color = [255, 0, 0, 255];
    viewport.draw_point((0, 0, 1_500_000), &color);
    assert_eq!(viewport.buffer[8 * 16 + 8], Pixel { color, depth: 12 });
}

#[test]
fn higher_layer_wins_in_either_order() {
    let near = [1, 1, 1, 1];
    let far = [9, 9, 9, 9];

    let mut first_low = ViewportFactory::test(16, 16, 10);
    first_low.draw_point((0, 0, -500_000), &far);
    first_low.draw_point((0, 0, 500_000), &near);

    let mut first_high = ViewportFactory::test(16, 16, 10);
    first_high.draw_point((0, 0, 500_000), &near);
    first_high.draw_point((0, 0, -500_000), &far);

    let expected = Pixel { color: near, depth: 7 };
    assert_eq!(first_low.buffer[8 * 16 + 8], expected);
    assert_eq!(first_high.buffer[8 * 16 + 8], expected);
}

#[test]
fn equal_layer_last_writer_wins() {
    let mut viewport = ViewportFactory::test(16, 16, 10);
    let early = [1, 1, 1, 1];
    let late = [2, 2, 2, 2];
    viewport.draw_point((0, 0, 0), &early);
    viewport.draw_point((0, 0, 0), &late);
    assert_eq!(viewport.buffer[8 * 16 + 8], Pixel { color: late, depth: 5 });
}

#[test]
fn fill_paints_a_superset_of_the_outline() {
    let a = (0, -250_000, 0);
    let b = (-250_000, 0, 0);
    let c = (250_000, 0, 0);
    let color = [255, 255, 255, 255];

    let mut outline = ViewportFactory::test(16, 16, 10);
    outline.draw_triangle(a, b, c, &color);
    let mut filled = ViewportFactory::test(16, 16, 10);
    filled.fill_triangle(a, b, c, &color);

    for i in 0..(16 * 16) {
        let drawn = outline.buffer[i];
        if drawn != Pixel::default() {
            let fill = filled.buffer[i];
            assert_eq!(fill.color, drawn.color);
            assert!(fill.depth >= drawn.depth);
        }
    }
}

#[test]
fn degenerate_triangles_degrade_silently() {
    let color = [255, 255, 255, 255];

    // Three coincident corners: a point.
    let mut point = ViewportFactory::test(16, 16, 10);
    point.fill_triangle((0, 0, 0), (0, 0, 0), (0, 0, 0), &color);
    assert_eq!(point.buffer[8 * 16 + 8], Pixel { color, depth: 5 });

    // Three collinear corners on one row: the span between the two base
    // corners of the flattened triangle.
    let mut line = ViewportFactory::test(16, 16, 10);
    line.fill_triangle((-250_000, 0, 0), (0, 0, 0), (250_000, 0, 0), &color);
    for col in 8..=10 {
        assert_eq!(line.buffer[8 * 16 + col], Pixel { color, depth: 5 });
    }

    // Three collinear corners on one column: a vertical line.
    let mut column = ViewportFactory::test(16, 16, 10);
    column.fill_triangle((0, -250_000, 0), (0, 0, 0), (0, 250_000, 0), &color);
    for row in 6..=10 {
        assert_eq!(column.buffer[row * 16 + 8], Pixel { color, depth: 5 });
    }
}

#[test]
fn resize_always_yields_a_default_buffer_of_the_new_size() {
    let mut viewport = ViewportFactory::test(16, 16, 10);
    let color = [200, 100, 50, 255];
    viewport.fill_triangle((0, -250_000, 0), (-250_000, 0, 0), (250_000, 0, 0), &color);
    viewport.resize(8, 4);
    assert_eq!(viewport.buffer.len(), 8 * 4);
    for i in 0..(8 * 4) {
        assert_eq!(viewport.buffer[i], Pixel::default());
    }
}

#[test]
fn reset_then_draw_matches_a_fresh_viewport() {
    let color = [3, 1, 4, 1];

    let mut recycled = ViewportFactory::test(24, 24, 10);
    recycled.fill_triangle((0, -250_000, 0), (-250_000, 0, 0), (250_000, 0, 0), &color);
    recycled.reset_buffer();
    recycled.draw_point((-250_000, 200_000, 600_000), &color);

    let mut fresh = ViewportFactory::test(24, 24, 10);
    fresh.draw_point((-250_000, 200_000, 600_000), &color);

    assert_eq!(recycled.buffer, fresh.buffer);
    assert_eq!(recycled.width(), fresh.width());
    assert_eq!(recycled.height(), fresh.height());
    assert_eq!(recycled.depth(), fresh.depth());
}

#[test]
fn pixel_new_copies_the_color() {
    let pixel = Pixel::new(&[1, 2, 3, 4], 77);
    assert_eq!(pixel.color, [1, 2, 3, 4]);
    assert_eq!(pixel.depth, 77);
    assert_eq!(Pixel::default(), Pixel { color: [0, 0, 0, 0], depth: 0 });
}

struct FailingRenderer;

impl Render for FailingRenderer {
    fn render(&mut self, _buffer: &Vec<Pixel>) -> Result<(), ViewportError> {
        Err(ViewportError::Rendering)
    }

    fn clear(&mut self) -> Result<(), ViewportError> {
        Err(ViewportError::Rendering)
    }
}

impl Resize for FailingRenderer {
    fn resize(&mut self, _width: usize, _height: usize) {}
}

#[test]
fn backend_failures_are_reported_to_the_caller() {
    let mut viewport = Viewport::new(16, 16, 10, FailingRenderer);
    assert_eq!(viewport.render(), Err(ViewportError::Rendering));
    assert_eq!(viewport.clear_frame(), Err(ViewportError::Rendering));
    assert_ne!(ViewportError::Rendering, ViewportError::AdapterNotFound);
}
