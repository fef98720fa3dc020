use clothes::fonts::ascii::{Ascii, AsciiError};
use clothes::fonts::{Font, Glyph};
use clothes::graphics::pixel::TwoBitPixel;
use clothes::layout::geometry::{Rect, Size};
use clothes::layout::node::Node;
use clothes::layout::size_resolution::{SizeCalculator, SizeResolver};
use clothes::rendering::DrawCommand;

#[test]
fn ascii_conversions() {
    assert_eq!(Ascii::from_char('H'), Ok(Ascii(b'H')));
    assert_eq!(Ascii::from_char('ä'), Err(AsciiError::ValueNotAscii('ä')));
    assert_eq!(Ascii(b'a').u8(), b'a');
    assert_eq!(Ascii(b'a').char(), 'a');
    assert_eq!(Ascii::from_u8(b'!'), Ascii(b'!'));
    assert!(Ascii(b' ').is_printable());
    assert!(Ascii(b'~').is_printable());
    assert!(!Ascii(9).is_printable());
    assert!(Ascii(b' ').is_space());
    assert!(!Ascii(b'x').is_space());
}

#[test]
fn font_metrics() {
    let font = Font::three_by_three();
    assert_eq!(*font.size(Ascii(b'a')), Size::new(3, 3));
    assert_eq!(font.space_width(), 5);
    assert_eq!(font.line_spacing(), 1);
    assert_eq!(font.character_spacing(), 1);

    let font = Font::four_by_four();
    assert_eq!(*font.size(Ascii(b'a')), Size::new(4, 4));

    let font = Font::four_by_five();
    assert_eq!(*font.size(Ascii(b'a')), Size::new(4, 5));
    assert_eq!(font.space_width(), 6);
}

#[test]
fn glyph_lookup_falls_back() {
    let font = Font::three_by_three();
    // 'a' and 'A' share one glyph; an unmapped byte gets the fallback.
    assert_eq!(font.get_glyph(&Ascii(b'a')), font.get_glyph(&Ascii(b'A')));
    assert_eq!(font.get_glyph(&Ascii(9)), font.default_glyph());
    assert_eq!(font.default_glyph().point_count(), 9);
    assert_eq!(font.get_glyph(&Ascii(b'h')).point_count(), 9);
}

#[test]
fn glyph_scale_doubles_points() {
    let glyph = Glyph::from_points(vec![true, false, false, true]);
    let scaled = glyph.scale(&Size::new(2, 2), 2);
    assert_eq!(scaled.point_count(), 16);
    let expected = vec![
        true, true, false, false, true, true, false, false, false, false, true, true, false,
        false, true, true,
    ];
    let actual: Vec<bool> = (0..16).map(|i| scaled.point_at(i)).collect();
    assert_eq!(actual, expected);
}

#[test]
fn glyph_map_transforms_points() {
    let glyph = Glyph::from_points(vec![true, false, true]);
    let mapped = glyph.map(|b| if b { 1u8 } else { 0u8 });
    assert_eq!(mapped, vec![1, 0, 1]);
}

#[test]
fn text_fitting_one_line() {
    // "Hey" in a 3x3 font is 11 pixels wide; a 20-pixel bound keeps it on one
    // line with every glyph offset purely horizontal.
    let font = Font::three_by_three();
    let resolved = font.calculate_lines("Hey", &Rect::sized(20, 20));
    assert_eq!(resolved.lines().len(), 1);
    let line = &resolved.lines()[0];
    assert_eq!(line.glyphs.len(), 3);
    let offsets: Vec<(usize, usize)> = line
        .glyphs
        .iter()
        .map(|g| (g.offset().width, g.offset().height))
        .collect();
    assert_eq!(offsets, vec![(0, 0), (4, 0), (8, 0)]);
    assert_eq!(*resolved.size(), Size::new(11, 3));
    assert_eq!(line.line(), "Hey");
}

#[test]
fn text_wrapping_breaks_line() {
    // The same text in a 10-pixel bound cannot keep its third glyph on the
    // first line, so it wraps to a second line.
    let font = Font::three_by_three();
    let resolved = font.calculate_lines("Hey", &Rect::sized(10, 20));
    assert_eq!(resolved.lines().len(), 2);
    assert_eq!(resolved.lines()[0].glyphs.len(), 2);
    assert_eq!(resolved.lines()[1].glyphs.len(), 1);
    assert_eq!(resolved.lines()[1].glyphs[0].offset().width, 0);
}

#[test]
fn newline_always_breaks() {
    let font = Font::three_by_three();
    let resolved = font.calculate_lines("a\nb", &Rect::sized(50, 20));
    assert_eq!(resolved.lines().len(), 2);
    assert_eq!(resolved.lines()[0].line(), "a");
    assert_eq!(resolved.lines()[1].line(), "b");
    // Two 3-pixel lines with one line of spacing between them.
    assert_eq!(resolved.size().height, 7);
}

#[test]
fn spaces_advance_without_glyphs() {
    let font = Font::three_by_three();
    let resolved = font.calculate_lines("a a", &Rect::sized(50, 20));
    assert_eq!(resolved.lines().len(), 1);
    let line = &resolved.lines()[0];
    assert_eq!(line.glyphs.len(), 2);
    // The second glyph starts after the first glyph (3 pixels) and the space
    // width (5 pixels); a space resets the inter-character spacing.
    assert_eq!(line.glyphs[1].offset().width, 8);
}

#[test]
fn text_node_emits_one_bitmap_per_glyph() {
    let bounds = Rect::sized(20, 20);
    let node = Node::<TwoBitPixel>::text("Hey", TwoBitPixel::One);
    let sized = SizeCalculator::resolve_size(&node, &bounds);
    let commands = SizeResolver::resolve_draw_commands(&sized, &bounds);
    let bitmaps: Vec<&Rect> = commands
        .iter()
        .filter_map(|c| match c {
            DrawCommand::Bitmap(points, r) => {
                assert_eq!(points.len(), 9);
                Some(r)
            },
            _ => None,
        })
        .collect();
    assert_eq!(bitmaps.len(), 3);
    assert_eq!(bitmaps[0].x, 0);
    assert_eq!(bitmaps[1].x - bitmaps[0].x, 4);
    assert_eq!(bitmaps[2].x - bitmaps[1].x, 4);
    assert!(bitmaps.iter().all(|r| r.y == 0 && r.width == 3 && r.height == 3));
}

#[test]
fn overflowing_text_stops_at_bottom() {
    let font = Font::three_by_three();
    // Height 3 fits exactly one line; the wrapped remainder is dropped.
    let resolved = font.calculate_lines("Heyo", &Rect::sized(10, 3));
    assert_eq!(resolved.lines().len(), 1);
}

#[test]
fn glyph_table_holds_exact_points() {
    let font = Font::three_by_three();
    let dash = font.get_glyph(&Ascii(b'-'));
    let expected = Glyph::from_points(vec![
        false, false, false, true, true, true, false, false, false,
    ]);
    assert_eq!(dash, &expected);
    let plus = font.get_glyph(&Ascii(b'+'));
    let expected = Glyph::from_points(vec![
        false, true, false, true, true, true, false, true, false,
    ]);
    assert_eq!(plus, &expected);
}

#[test]
fn four_by_five_lowercase_reuses_four_by_four() {
    // The 4x5 font draws lowercase letters as the 4x4 glyphs under a blank
    // top row.
    let small = Font::four_by_four();
    let tall = Font::four_by_five();
    let small_glyph = small.get_glyph(&Ascii(b'l'));
    let tall_glyph = tall.get_glyph(&Ascii(b'l'));
    let mut expected = vec![false, false, false, false];
    expected.extend((0..16).map(|i| small_glyph.point_at(i)));
    assert_eq!(tall_glyph, &Glyph::from_points(expected));
}
