use raytracer::canvas::{Canvas, FrameBufferCanvas};
use raytracer::color::Color;
use raytracer::scalar::Scalar;

fn s(x: f32) -> Scalar {
    Scalar::from_bits(x.to_bits())
}

fn c(r: f32, g: f32, b: f32) -> Color {
    Color::new(s(r), s(g), s(b))
}

#[test]
fn a_new_canvas_has_its_size_and_is_magenta() {
    let canvas = FrameBufferCanvas::new(4, 3);
    assert_eq!(canvas.width(), 4);
    assert_eq!(canvas.height(), 3);
    for y in 0..3 {
        for x in 0..4 {
            assert_eq!(canvas.get_pixel(x, y), c(1.0, 0.0, 1.0));
        }
    }
}

#[test]
fn a_canvas_may_be_empty() {
    let canvas = FrameBufferCanvas::new(0, 7);
    assert_eq!(canvas.width(), 0);
    assert_eq!(canvas.height(), 7);
    let canvas = FrameBufferCanvas::new(7, 0);
    assert_eq!(canvas.width(), 7);
    assert_eq!(canvas.height(), 0);
}

#[test]
fn a_pixel_that_is_set_is_read_back() {
    let mut canvas = FrameBufferCanvas::new(4, 3);
    canvas.set_pixel(2, 1, c(0.25, 0.5, 0.75));
    assert_eq!(canvas.get_pixel(2, 1), c(0.25, 0.5, 0.75));
}

#[test]
fn setting_a_pixel_leaves_the_others_and_the_size() {
    let mut canvas = FrameBufferCanvas::new(4, 3);
    canvas.set_pixel(3, 0, c(0.0, 0.0, 0.0));
    canvas.set_pixel(0, 1, c(1.0, 1.0, 1.0));
    assert_eq!(canvas.width(), 4);
    assert_eq!(canvas.height(), 3);
    for y in 0..3 {
        for x in 0..4 {
            let expected = if (x, y) == (3, 0) {
                c(0.0, 0.0, 0.0)
            } else if (x, y) == (0, 1) {
                c(1.0, 1.0, 1.0)
            } else {
                c(1.0, 0.0, 1.0)
            };
            assert_eq!(canvas.get_pixel(x, y), expected, "({}, {})", x, y);
        }
    }
}

#[test]
fn every_pixel_has_a_place_of_its_own() {
    let mut canvas = FrameBufferCanvas::new(5, 4);
    for y in 0..4 {
        for x in 0..5 {
            canvas.set_pixel(x, y, c(x as f32, y as f32, 0.0));
        }
    }
    for y in 0..4 {
        for x in 0..5 {
            assert_eq!(canvas.get_pixel(x, y), c(x as f32, y as f32, 0.0));
        }
    }
}

#[test]
fn named_colors_have_their_channels() {
    assert_eq!(Color::black(), c(0.0, 0.0, 0.0));
    assert_eq!(Color::white(), c(1.0, 1.0, 1.0));
    assert_eq!(Color::red(), c(1.0, 0.0, 0.0));
    assert_eq!(Color::green(), c(0.0, 1.0, 0.0));
    assert_eq!(Color::blue(), c(0.0, 0.0, 1.0));
    assert_eq!(Color::yellow(), c(1.0, 1.0, 0.0));
    assert_eq!(Color::cyan(), c(0.0, 1.0, 1.0));
    assert_eq!(Color::magenta(), c(1.0, 0.0, 1.0));
}
