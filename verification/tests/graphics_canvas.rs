use redpowder::graphics::canvas::{Canvas, MAX_DAMAGE};
use redpowder::graphics::color::Color;
use redpowder::graphics::geometry::{Point, Rect, Size};

const INK: Color = Color(0xFF);

fn lit(buffer: &[u32], width: usize) -> Vec<(usize, usize)> {
    buffer
        .iter()
        .enumerate()
        .filter(|(_, p)| **p != 0)
        .map(|(i, _)| (i % width, i / width))
        .collect()
}

fn block(x: usize, y: usize, w: usize, h: usize) -> Vec<(usize, usize)> {
    let mut out = Vec::new();
    for row in y..y + h {
        for col in x..x + w {
            out.push((col, row));
        }
    }
    out
}

#[test]
fn new_canvas_has_no_damage() {
    let mut buffer = [0u32; 48];
    let canvas = Canvas::new(&mut buffer, 8, 6);
    assert_eq!(canvas.size(), Size::new(8, 6));
    assert!(canvas.damage().is_empty());
    assert_eq!(MAX_DAMAGE, 8);
}

#[test]
fn fill_paints_the_rectangle_and_records_it() {
    let mut buffer = [0u32; 48];
    let mut canvas = Canvas::new(&mut buffer, 8, 6);
    canvas.fill_rect(Rect::new(2, 1, 3, 2), INK);
    assert_eq!(canvas.damage(), &[Rect::new(2, 1, 3, 2)]);
    assert_eq!(lit(&buffer, 8), block(2, 1, 3, 2));
    assert!(buffer.iter().all(|p| *p == 0 || *p == 0xFF));
}

#[test]
fn fill_is_cut_to_the_canvas() {
    let mut buffer = [0u32; 48];
    let mut canvas = Canvas::new(&mut buffer, 8, 6);
    canvas.fill_rect(Rect::new(-2, -1, 4, 3), INK);
    assert_eq!(canvas.damage(), &[Rect::new(0, 0, 2, 2)]);
    canvas.fill_rect(Rect::new(6, 4, 10, 10), INK);
    assert_eq!(canvas.damage(), &[Rect::new(0, 0, 2, 2), Rect::new(6, 4, 2, 2)]);
    let mut expected = block(0, 0, 2, 2);
    expected.extend(block(6, 4, 2, 2));
    expected.sort_by_key(|(x, y)| (*y, *x));
    assert_eq!(lit(&buffer, 8), expected);
}

#[test]
fn fill_outside_the_canvas_changes_nothing() {
    let mut buffer = [0u32; 48];
    let mut canvas = Canvas::new(&mut buffer, 8, 6);
    canvas.fill_rect(Rect::new(100, 100, 5, 5), INK);
    canvas.fill_rect(Rect::new(-5, 0, 5, 5), INK);
    canvas.fill_rect(Rect::new(0, 6, 5, 5), INK);
    canvas.fill_rect(Rect::new(1, 1, 0, 3), INK);
    canvas.fill_rect(Rect::new(1, 1, 3, 0), INK);
    assert!(canvas.damage().is_empty());
    assert!(buffer.iter().all(|p| *p == 0));
}

#[test]
fn fill_skips_pixels_that_the_buffer_lacks() {
    let mut buffer = [0u32; 20];
    let mut canvas = Canvas::new(&mut buffer, 8, 6);
    canvas.fill_rect(Rect::new(2, 1, 3, 4), INK);
    assert_eq!(canvas.damage(), &[Rect::new(2, 1, 3, 4)]);
    assert_eq!(lit(&buffer, 8), vec![(2, 1), (3, 1), (4, 1), (2, 2), (3, 2)]);
}

#[test]
fn damage_that_overlaps_is_merged() {
    let mut buffer = [0u32; 100];
    let mut canvas = Canvas::new(&mut buffer, 10, 10);
    canvas.fill_rect(Rect::new(0, 0, 2, 2), INK);
    canvas.fill_rect(Rect::new(1, 1, 2, 2), INK);
    assert_eq!(canvas.damage(), &[Rect::new(0, 0, 3, 3)]);
    // Rectangles that only touch do not overlap.
    canvas.fill_rect(Rect::new(3, 0, 2, 2), INK);
    assert_eq!(canvas.damage(), &[Rect::new(0, 0, 3, 3), Rect::new(3, 0, 2, 2)]);
    // The first rectangle that overlaps takes the new one in.
    canvas.fill_rect(Rect::new(2, 1, 2, 1), INK);
    assert_eq!(canvas.damage(), &[Rect::new(0, 0, 4, 3), Rect::new(3, 0, 2, 2)]);
}

#[test]
fn damage_beyond_the_limit_collapses_into_one() {
    let mut buffer = [0u32; 400];
    let mut canvas = Canvas::new(&mut buffer, 20, 20);
    for i in 0..8 {
        canvas.fill_rect(Rect::new(2 * i + 1, 2 * i, 1, 1), INK);
    }
    assert_eq!(canvas.damage().len(), 8);
    assert_eq!(canvas.damage()[7], Rect::new(15, 14, 1, 1));
    canvas.fill_rect(Rect::new(18, 3, 1, 1), INK);
    assert_eq!(canvas.damage(), &[Rect::new(1, 0, 18, 15)]);
}

#[test]
fn damage_is_taken_or_cleared() {
    let mut buffer = [0u32; 100];
    let mut canvas = Canvas::new(&mut buffer, 10, 10);
    canvas.fill_rect(Rect::new(0, 0, 2, 2), INK);
    canvas.fill_rect(Rect::new(5, 5, 2, 2), INK);
    let taken = canvas.take_damage();
    assert_eq!(taken, vec![Rect::new(0, 0, 2, 2), Rect::new(5, 5, 2, 2)]);
    assert!(canvas.damage().is_empty());
    canvas.fill_rect(Rect::new(0, 0, 1, 1), INK);
    assert_eq!(canvas.damage().len(), 1);
    canvas.clear_damage();
    assert!(canvas.damage().is_empty());
}

#[test]
fn clip_cuts_fills_and_pixels() {
    let mut buffer = [0u32; 48];
    let mut canvas = Canvas::new(&mut buffer, 8, 6);
    canvas.set_clip(Some(Rect::new(1, 1, 2, 2)));
    canvas.clear(INK);
    assert_eq!(canvas.damage(), &[Rect::new(1, 1, 2, 2)]);
    canvas.put_pixel(0, 0, Color(7));
    canvas.put_pixel(3, 1, Color(7));
    canvas.put_pixel(1, 3, Color(7));
    canvas.put_pixel(2, 2, Color(9));
    canvas.set_clip(None);
    canvas.put_pixel(7, 5, Color(5));
    assert_eq!(canvas.damage(), &[Rect::new(1, 1, 2, 2)]);
    assert_eq!(lit(&buffer, 8), vec![(1, 1), (2, 1), (1, 2), (2, 2), (7, 5)]);
    assert_eq!(buffer[2 * 8 + 2], 9);
    assert_eq!(buffer[5 * 8 + 7], 5);
    assert_eq!(buffer[8 + 1], 0xFF);
}

#[test]
fn clip_outside_the_canvas_hides_everything() {
    let mut buffer = [0u32; 48];
    let mut canvas = Canvas::new(&mut buffer, 8, 6);
    canvas.set_clip(Some(Rect::new(20, 20, 2, 2)));
    canvas.clear(INK);
    canvas.put_pixel(1, 1, INK);
    assert!(canvas.damage().is_empty());
    assert!(buffer.iter().all(|p| *p == 0));
}

#[test]
fn pixels_outside_the_canvas_are_skipped() {
    let mut buffer = [0u32; 48];
    let mut canvas = Canvas::new(&mut buffer, 8, 6);
    canvas.put_pixel(-1, 0, INK);
    canvas.put_pixel(0, -1, INK);
    canvas.put_pixel(8, 0, INK);
    canvas.put_pixel(0, 6, INK);
    canvas.put_pixel(i32::MAX, i32::MAX, INK);
    canvas.put_pixel(i32::MIN, i32::MIN, INK);
    assert!(buffer.iter().all(|p| *p == 0));
    let mut canvas = Canvas::new(&mut buffer, 8, 6);
    canvas.put_pixel(7, 5, INK);
    canvas.put_pixel(0, 0, Color(3));
    assert!(canvas.damage().is_empty());
    assert_eq!(buffer[47], 0xFF);
    assert_eq!(buffer[0], 3);
}

#[test]
fn lines_are_thin_fills() {
    let mut buffer = [0u32; 48];
    let mut canvas = Canvas::new(&mut buffer, 8, 6);
    canvas.hline(1, 2, 4, INK);
    assert_eq!(canvas.damage(), &[Rect::new(1, 2, 4, 1)]);
    canvas.vline(6, -1, 4, INK);
    assert_eq!(canvas.damage(), &[Rect::new(1, 2, 4, 1), Rect::new(6, 0, 1, 3)]);
    assert_eq!(lit(&buffer, 8), vec![(6, 0), (6, 1), (1, 2), (2, 2), (3, 2), (4, 2), (6, 2)]);
}

#[test]
fn stroke_draws_the_four_sides() {
    let mut buffer = [0u32; 36];
    let mut canvas = Canvas::new(&mut buffer, 6, 6);
    canvas.stroke_rect(Rect::new(1, 1, 4, 4), INK, 1);
    // The left side merges with the top, the first side that it touches;
    // the bottom stays a rectangle of its own.
    assert_eq!(canvas.damage(), &[Rect::new(1, 1, 4, 4), Rect::new(1, 4, 4, 1)]);
    let mut expected = Vec::new();
    for y in 1..5 {
        for x in 1..5 {
            if x == 1 || x == 4 || y == 1 || y == 4 {
                expected.push((x, y));
            }
        }
    }
    assert_eq!(lit(&buffer, 6), expected);
}

#[test]
fn blit_copies_the_source_rectangle() {
    let src = [1u32, 2, 3, 4, 5, 6];
    let mut buffer = [0u32; 20];
    let mut canvas = Canvas::new(&mut buffer, 5, 4);
    canvas.blit(&src, Size::new(3, 2), Rect::new(0, 0, 3, 2), Point::new(1, 1));
    assert_eq!(canvas.damage(), &[Rect::new(1, 1, 3, 2)]);
    assert_eq!(
        buffer,
        [0, 0, 0, 0, 0, 0, 1, 2, 3, 0, 0, 4, 5, 6, 0, 0, 0, 0, 0, 0]
    );
}

#[test]
fn blit_of_a_part_of_the_source() {
    let src = [1u32, 2, 3, 4, 5, 6];
    let mut buffer = [0u32; 20];
    let mut canvas = Canvas::new(&mut buffer, 5, 4);
    canvas.blit(&src, Size::new(3, 2), Rect::new(1, 1, 2, 1), Point::new(0, 3));
    assert_eq!(canvas.damage(), &[Rect::new(0, 3, 2, 1)]);
    assert_eq!(&buffer[15..], &[5, 6, 0, 0, 0]);
    assert!(buffer[..15].iter().all(|p| *p == 0));
}

#[test]
fn blit_that_is_cut_starts_at_the_corner_of_the_source() {
    let src = [1u32, 2, 3, 4, 5, 6];
    let mut buffer = [0u32; 20];
    let mut canvas = Canvas::new(&mut buffer, 5, 4);
    canvas.blit(&src, Size::new(3, 2), Rect::new(0, 0, 3, 2), Point::new(-1, 0));
    assert_eq!(canvas.damage(), &[Rect::new(0, 0, 2, 2)]);
    assert_eq!(&buffer[..10], &[1, 2, 0, 0, 0, 4, 5, 0, 0, 0]);
}

#[test]
fn blit_leaves_what_the_source_lacks() {
    let src = [1u32, 2, 3, 4];
    let mut buffer = [9u32; 20];
    let mut canvas = Canvas::new(&mut buffer, 5, 4);
    canvas.blit(&src, Size::new(3, 2), Rect::new(0, 0, 3, 3), Point::new(0, 0));
    assert_eq!(canvas.damage(), &[Rect::new(0, 0, 3, 3)]);
    assert_eq!(&buffer[..15], &[1, 2, 3, 9, 9, 4, 9, 9, 9, 9, 9, 9, 9, 9, 9]);
    let mut canvas = Canvas::new(&mut buffer, 5, 4);
    canvas.blit(&src, Size::new(2, 2), Rect::new(-1, 0, 2, 2), Point::new(0, 0));
    canvas.blit(&src, Size::new(2, 2), Rect::new(0, -1, 2, 2), Point::new(0, 0));
    assert_eq!(&buffer[..5], &[1, 2, 3, 9, 9]);
}

#[test]
fn fill_with_sizes_beyond_31_bits() {
    let mut buffer = [0u32; 48];
    let mut canvas = Canvas::new(&mut buffer, 8, 6);
    // A width that reads as negative puts the right edge left of the left.
    canvas.fill_rect(Rect::new(0, 0, u32::MAX, 1), INK);
    canvas.fill_rect(Rect::new(5, 0, 0x8000_0000, 1), INK);
    canvas.fill_rect(Rect::new(i32::MAX, 0, 5, 1), INK);
    assert!(canvas.damage().is_empty());
    // The widest rectangle that does not wrap is cut to the canvas.
    canvas.fill_rect(Rect::new(-5, 1, 0x7FFF_FFFF, 1), INK);
    assert_eq!(canvas.damage(), &[Rect::new(0, 1, 8, 1)]);
    canvas.fill_rect(Rect::new(i32::MIN, i32::MIN, 0x7FFF_FFFF, 0x7FFF_FFFF), INK);
    canvas.fill_rect(Rect::new(6, 4, 0x7FFF_FFFF, 0x7FFF_FFFF), INK);
    assert_eq!(canvas.damage(), &[Rect::new(0, 1, 8, 1), Rect::new(6, 4, 2, 2)]);
    assert_eq!(
        lit(&buffer, 8),
        vec![
            (0, 1),
            (1, 1),
            (2, 1),
            (3, 1),
            (4, 1),
            (5, 1),
            (6, 1),
            (7, 1),
            (6, 4),
            (7, 4),
            (6, 5),
            (7, 5)
        ]
    );
}

#[test]
fn canvas_wider_than_31_bits_draws_nothing() {
    let mut buffer = [0u32; 48];
    let mut canvas = Canvas::new(&mut buffer, 0x8000_0000, 6);
    canvas.fill_rect(Rect::new(0, 0, 4, 4), INK);
    canvas.put_pixel(1, 1, INK);
    assert!(canvas.damage().is_empty());
    assert!(buffer.iter().all(|p| *p == 0));
}
