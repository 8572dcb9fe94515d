use ferrux_viewport::pixel::Pixel;
use ferrux_viewport::viewport::ViewportFactory;

#[test]
fn draw_point() {
    let mut viewport = ViewportFactory::test(640, 480, 1000);
    let color = [255, 255, 255, 255];

    viewport.draw_point((-1_000_000, -1_000_000, -1_000_000), &color);
    viewport.draw_point((1_000_000, 1_000_000, 1_000_000), &color); // will be ignored
    viewport.draw_point((0, 0, 0), &color);
    viewport.draw_point((0, 0, 500_000), &color); // will override the previous one
    viewport.draw_point((-250_000, 250_000, 250_000), &color);
    viewport.draw_point((-250_000, 250_000, -250_000), &color); // will not override the previous

    assert_eq!(viewport.buffer[0], Pixel { color, depth: 0 });
    assert_eq!(viewport.buffer[153920], Pixel { color, depth: 750 });
    assert_eq!(viewport.buffer[192240], Pixel { color, depth: 625 });
}

#[test]
fn draw_line() {
    let mut viewport = ViewportFactory::test(24, 24, 10);
    let color = [255, 255, 255, 255];

    viewport.draw_line((-250_000, -250_000, 0), (250_000, 250_000, 0), &color);

    for i in 0..7 {
        assert_eq!(viewport.buffer[225 + i * 25], Pixel { color, depth: 5 });
    }
}

#[test]
fn draw_triangle() {
    let mut viewport = ViewportFactory::test(16, 16, 10);
    let color = [255, 255, 255, 255];

    viewport.draw_triangle((0, -250_000, 0), (-250_000, 0, 0), (250_000, 0, 0), &color);

    // Check points in each of the lines
    assert_eq!(viewport.buffer[119], Pixel { color, depth: 5 });
    assert_eq!(viewport.buffer[135], Pixel { color, depth: 5 });
    assert_eq!(viewport.buffer[121], Pixel { color, depth: 5 });
}

#[test]
fn fill_triangle() {
    let mut viewport = ViewportFactory::test(16, 16, 10);
    let color = [255, 255, 255, 255];

    viewport.fill_triangle((0, -250_000, 0), (-250_000, 0, 0), (250_000, 0, 0), &color);

    // Check points in each of the lines
    assert_eq!(viewport.buffer[119], Pixel { color, depth: 5 });
    assert_eq!(viewport.buffer[135], Pixel { color, depth: 5 });
    assert_eq!(viewport.buffer[121], Pixel { color, depth: 5 });

    // Check point inside
    assert_eq!(viewport.buffer[120], Pixel { color, depth: 5 });
}

#[test]
fn reset_buffer() {
    let mut viewport = ViewportFactory::test(16, 16, 10);
    let color = [255, 255, 255, 255];
    viewport.draw_point((-1_000_000, -1_000_000, -1_000_000), &color);
    assert_eq!(viewport.buffer[0], Pixel { color, depth: 0 });

    viewport.reset_buffer();
    assert_eq!(viewport.buffer[0], Pixel::default());
}

#[test]
fn render() {
    let mut viewport = ViewportFactory::test(16, 16, 10);
    assert_eq!(viewport.renderer.render_calls, 0);
    viewport.render().unwrap();
    assert_eq!(viewport.renderer.render_calls, 1);
}

#[test]
fn clear() {
    let mut viewport = ViewportFactory::test(16, 16, 10);
    assert_eq!(viewport.renderer.clear_calls, 0);
    viewport.clear_frame().unwrap();
    assert_eq!(viewport.renderer.clear_calls, 1);
}

#[test]
fn resize_buffer() {
    let mut viewport = ViewportFactory::test(16, 16, 10);
    assert_eq!(viewport.buffer.len(), 16 * 16);
    viewport.resize(32, 32);
    assert_eq!(viewport.buffer.len(), 32 * 32);
    assert_eq!(viewport.renderer.size, (32, 32));
}
