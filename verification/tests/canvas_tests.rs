use clothes::graphics::canvas::Canvas;
use clothes::graphics::pixel::{RGBPixel, TwoBitPixel};
use clothes::layout::geometry::{Matrix, Rect, Size, Vector};

#[test]
fn canvas_write_and_read() {
    let mut canvas: Canvas<TwoBitPixel> = Canvas::create(4, 3);
    assert_eq!(canvas.width(), 4);
    assert_eq!(canvas.height(), 3);
    assert_eq!(canvas.get_at(0, 0), Some(&TwoBitPixel::Zero));
    canvas.write(&TwoBitPixel::One, 2, 1);
    assert_eq!(canvas.get_at(2, 1), Some(&TwoBitPixel::One));
    assert_eq!(canvas.get_at(1, 2), Some(&TwoBitPixel::Zero));
    assert_eq!(canvas.get_at(4, 0), None);
    assert_eq!(canvas.get_at(0, 3), None);
    // An out-of-bounds write changes nothing.
    canvas.write(&TwoBitPixel::One, 9, 9);
    assert_eq!(canvas.get_at(3, 2), Some(&TwoBitPixel::Zero));
}

#[test]
fn canvas_draw_rect_clips() {
    let mut canvas: Canvas<TwoBitPixel> = Canvas::create(4, 4);
    canvas.draw_rect(&Rect::new(-1, 2, 3, 5), &TwoBitPixel::One);
    for x in 0..4usize {
        for y in 0..4usize {
            let expected = x < 2 && y >= 2;
            let pixel = *canvas.get_at(x, y).unwrap();
            assert_eq!(pixel == TwoBitPixel::One, expected, "pixel at {x},{y}");
        }
    }
}

#[test]
fn canvas_clear_and_paste() {
    let mut target: Canvas<TwoBitPixel> = Canvas::create(4, 4);
    let mut stamp: Canvas<TwoBitPixel> = Canvas::create(2, 2);
    stamp.clear_with(&TwoBitPixel::One);
    target.paste_canvas(&stamp, &Rect::new(1, 1, 2, 2));
    for x in 0..4usize {
        for y in 0..4usize {
            let expected = (1..3).contains(&x) && (1..3).contains(&y);
            let pixel = *canvas_pixel(&target, x, y);
            assert_eq!(pixel == TwoBitPixel::One, expected, "pixel at {x},{y}");
        }
    }
}

fn canvas_pixel<'c>(canvas: &'c Canvas<TwoBitPixel>, x: usize, y: usize) -> &'c TwoBitPixel {
    canvas.get_at(x, y).unwrap()
}

#[test]
fn canvas_bounds_match_size() {
    let canvas: Canvas<RGBPixel> = Canvas::create_in_bounds(&Size::new(5, 7));
    let bounds = canvas.bounds();
    assert_eq!((bounds.x, bounds.y, bounds.width, bounds.height), (0, 0, 5, 7));
    assert_eq!(canvas.get_at(0, 0), Some(&RGBPixel::black()));
}

#[test]
fn pixel_values() {
    assert_eq!(TwoBitPixel::from(true), TwoBitPixel::One);
    assert_eq!(TwoBitPixel::from(false), TwoBitPixel::Zero);
    assert_eq!(TwoBitPixel::default(), TwoBitPixel::Zero);
    let white = RGBPixel::white();
    assert_eq!((white.r(), white.g(), white.b()), (0xff, 0xfa, 0xf6));
    assert_eq!(RGBPixel::default(), RGBPixel::black());
    let custom = RGBPixel::from_channels(1, 2, 3);
    assert_eq!((custom.r(), custom.g(), custom.b()), (1, 2, 3));
}

#[test]
fn rect_accessors() {
    let rect = Rect::new(2, 3, 10, 20);
    assert_eq!(rect.max_x(), 12);
    assert_eq!(rect.max_y(), 23);
    assert_eq!(rect.mid_x(), 7);
    assert_eq!(rect.mid_y(), 13);
    assert_eq!(rect.size(), Size::new(10, 20));
    assert_eq!(rect.top_left(), Vector::new(2, 3));
    assert_eq!(rect.bottom_right(), Vector::new(12, 23));
    assert_eq!(rect.mid_top(), Vector::new(7, 3));
    assert_eq!(rect.mid_bottom(), Vector::new(7, 23));
    assert_eq!(rect.mid_left(), Vector::new(2, 13));
    assert_eq!(rect.mid_right(), Vector::new(12, 13));
    assert_eq!(Rect::zero(), Rect::default());
    assert_eq!(Rect::from_size(&Size::new(4, 5)), Rect::sized(4, 5));
}

#[test]
fn vector_and_size_arithmetic() {
    let mut v = Vector::new(3, 4);
    assert_eq!((v.x(), v.y()), (3, 4));
    v.set_x(5);
    v.set_y(-2);
    assert_eq!((v.x(), v.y()), (5, -2));
    assert_eq!(Vector::sub(&Vector::new(5, 3), &Vector::new(2, 1)), Vector::new(3, 2));
    assert_eq!(Vector::zero(), Vector::new(0, 0));
    assert_eq!(Size::new(3, 4).scaled(2), Size::new(6, 8));
    assert_eq!(Size::zero().to_vector(), Vector::zero());
}

#[test]
fn matrix_round_trip() {
    let matrix = Matrix::with_rows(&[1, 2, 3, 4, 5, 6], 2);
    assert_eq!(matrix.shape(), (3, 2));
    assert_eq!(matrix.data(), &[1, 2, 3, 4, 5, 6]);
    assert_eq!(*matrix.get(0, 0), 1);
    assert_eq!(*matrix.get(2, 0), 3);
    assert_eq!(*matrix.get(0, 1), 4);
    assert_eq!(*matrix.get(2, 1), 6);
    let mut matrix = matrix;
    *matrix.get_mut(1, 1) = 9;
    assert_eq!(*matrix.get(1, 1), 9);
}
