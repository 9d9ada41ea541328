use redpowder::graphics::color::{Color, BLACK, ORANGE, WHITE};
use redpowder::graphics::framebuffer::{
    clear_screen, get_framebuffer_info, get_info, write_framebuffer, write_pixels, Fill,
    Framebuffer, FramebufferInfo, PixelWrite, RunWrite, CHUNK_WIDTH,
};
use redpowder::graphics::geometry::{Point, Rect, Size};
use redpowder::syscall::error::SysError;

const INFO: FramebufferInfo =
    FramebufferInfo { width: 100, height: 50, stride: 400, bpp: 32, format: 0 };

fn runs(mut fill: Fill, info: &FramebufferInfo) -> Vec<(usize, u32)> {
    let mut out = Vec::new();
    while let Some(RunWrite { offset, pixels, color }) = fill.next(info) {
        assert_eq!(color, fill.color);
        out.push((offset, pixels));
        assert!(out.len() < 10_000);
    }
    assert!(fill.next(info).is_none());
    out
}

#[test]
fn colors_are_packed_from_their_parts() {
    assert_eq!(Color::rgb(0x12, 0x34, 0x56), Color(0x0012_3456));
    assert_eq!(Color::rgb(255, 255, 255).as_u32(), WHITE);
    assert_eq!(Color::rgb(0, 0, 0).as_u32(), BLACK);
    assert_eq!(Color::rgb(0xFF, 0x8C, 0x00).as_u32(), ORANGE);
    assert_eq!(Color::argb(0xFF, 1, 2, 3), Color(0xFF01_0203));
    assert_eq!(Color::argb(0x80, 0, 0, 0xFF).as_u32(), 0x8000_00FF);
    assert_eq!(Color::from_raw(77).as_u32(), 77);
    assert_eq!(Color(0x1122_3344).to_le_bytes(), [0x44, 0x33, 0x22, 0x11]);
}

#[test]
fn info_computes_offsets_and_sizes() {
    assert_eq!(INFO.pixel_offset(0, 0), 0);
    assert_eq!(INFO.pixel_offset(3, 2), 812);
    assert_eq!(INFO.pixel_offset(99, 49), 49 * 400 + 99 * 4);
    assert_eq!(INFO.checked_pixel_offset(3, 2), Some(812));
    assert_eq!(INFO.size_bytes(), 20_000);
    assert_eq!(INFO.size(), Size::new(100, 50));
    assert_eq!(INFO.bounds(), Rect::new(0, 0, 100, 50));
    let narrow = FramebufferInfo { bpp: 16, stride: 256, ..INFO };
    assert_eq!(narrow.pixel_offset(3, 2), 518);
    let odd = FramebufferInfo { bpp: 15, ..INFO };
    assert_eq!(odd.pixel_offset(3, 2), 803);
}

#[test]
fn offsets_that_do_not_fit_are_refused() {
    let huge = FramebufferInfo {
        width: u32::MAX,
        height: u32::MAX,
        stride: u32::MAX,
        bpp: u32::MAX,
        format: 0,
    };
    assert_eq!(huge.checked_pixel_offset(u32::MAX, u32::MAX), None);
    assert_eq!(
        huge.checked_pixel_offset(0, 2),
        Some(2 * (u32::MAX as usize))
    );
}

#[test]
fn pixel_format_falls_back_to_the_default() {
    for code in 0..=9 {
        assert_eq!(FramebufferInfo { format: code, ..INFO }.pixel_format(), code);
    }
    assert_eq!(FramebufferInfo { format: 10, ..INFO }.pixel_format(), 0);
    assert_eq!(FramebufferInfo { format: u32::MAX, ..INFO }.pixel_format(), 0);
}

#[test]
fn kernel_replies_are_decoded() {
    assert_eq!(get_info(0, INFO), Ok(INFO));
    assert_eq!(get_info(-20, INFO), Err(SysError::NotSupported));
    assert_eq!(get_framebuffer_info(0, INFO), Ok(INFO));
    assert_eq!(clear_screen(0), Ok(()));
    assert_eq!(clear_screen(-20), Err(SysError::NotSupported));
    assert_eq!(write_pixels(4), Ok(4));
    assert_eq!(write_pixels(-21), Err(SysError::BadAddress));
    assert_eq!(write_framebuffer(4096), Ok(4096));
    let fb = Framebuffer::new(0, INFO).unwrap();
    assert_eq!((fb.width(), fb.height()), (100, 50));
    assert_eq!(fb.size(), Size::new(100, 50));
    assert_eq!(fb.bounds(), Rect::new(0, 0, 100, 50));
    assert_eq!(fb.clear(0), Ok(()));
    assert_eq!(fb.clear(-18), Err(SysError::IoError));
    assert_eq!(Framebuffer::new(-20, INFO), Err(SysError::NotSupported));
}

#[test]
fn pixel_is_one_write_of_four_bytes() {
    let fb = Framebuffer { info: INFO };
    assert_eq!(
        fb.put_pixel(3, 2, Color(0x1122_3344)),
        Some(PixelWrite { offset: 812, data: [0x44, 0x33, 0x22, 0x11] })
    );
    assert_eq!(fb.put_pixel(100, 0, Color(1)), None);
    assert_eq!(fb.put_pixel(0, 50, Color(1)), None);
    assert_eq!(
        fb.put_pixel_at(Point::new(99, 49), Color(1)),
        Some(PixelWrite { offset: 49 * 400 + 396, data: [1, 0, 0, 0] })
    );
    assert_eq!(fb.put_pixel_at(Point::new(-1, 0), Color(1)), None);
    assert_eq!(fb.put_pixel_at(Point::new(0, -1), Color(1)), None);
}

#[test]
fn fill_is_written_row_by_row() {
    let fb = Framebuffer { info: INFO };
    assert_eq!(
        runs(fb.fill_rect(10, 5, 3, 2, Color(9)), &INFO),
        vec![(2040, 3), (2440, 3)]
    );
    assert_eq!(runs(fb.hline(0, 49, 100, Color(9)), &INFO), vec![(19_600, 100)]);
    assert_eq!(runs(fb.fill_rect(0, 0, 0, 5, Color(9)), &INFO), vec![]);
    assert_eq!(runs(fb.fill_rect(0, 0, 5, 0, Color(9)), &INFO), vec![]);
}

#[test]
fn fill_is_written_in_runs_of_at_most_1024_pixels() {
    assert_eq!(CHUNK_WIDTH, 1024);
    let wide = FramebufferInfo { width: 4000, height: 10, stride: 16_000, bpp: 32, format: 0 };
    let fb = Framebuffer { info: wide };
    assert_eq!(
        runs(fb.fill_rect(10, 5, 2500, 2, Color(9)), &wide),
        vec![
            (80_040, 1024),
            (84_136, 1024),
            (88_232, 452),
            (96_040, 1024),
            (100_136, 1024),
            (104_232, 452)
        ]
    );
    assert_eq!(runs(fb.fill_rect(0, 0, 1024, 1, Color(9)), &wide), vec![(0, 1024)]);
    assert_eq!(runs(fb.fill_rect(0, 0, 1025, 1, Color(9)), &wide), vec![(0, 1024), (4096, 1)]);
}

#[test]
fn fill_stops_below_the_framebuffer() {
    let fb = Framebuffer { info: INFO };
    assert_eq!(
        runs(fb.fill_rect(0, 48, 2, 10, Color(9)), &INFO),
        vec![(19_200, 2), (19_600, 2)]
    );
    assert_eq!(runs(fb.fill_rect(0, 50, 2, 10, Color(9)), &INFO), vec![]);
    assert_eq!(runs(fb.fill_rect(0, u32::MAX, 2, 10, Color(9)), &INFO), vec![]);
}

#[test]
fn fill_of_a_rectangle_is_cut_to_the_framebuffer() {
    let fb = Framebuffer { info: INFO };
    assert_eq!(
        fb.fill(Rect::new(-5, -5, 10, 10), Color(9)),
        Some(Fill { x: 0, y: 0, width: 5, height: 5, color: Color(9), row: 0, col: 0 })
    );
    assert_eq!(
        fb.fill(Rect::new(98, 49, 10, 10), Color(9)),
        Some(Fill { x: 98, y: 49, width: 2, height: 1, color: Color(9), row: 0, col: 0 })
    );
    assert_eq!(fb.fill(Rect::new(100, 0, 10, 10), Color(9)), None);
    assert_eq!(fb.fill(Rect::new(0, 0, 0, 10), Color(9)), None);
    assert_eq!(runs(fb.fill(Rect::new(98, 49, 10, 10), Color(9)).unwrap(), &INFO), vec![(19_992, 2)]);
}

#[test]
fn vertical_line_is_one_pixel_per_row() {
    let fb = Framebuffer { info: INFO };
    assert_eq!(
        runs(fb.vline(7, 47, 10, Color(9)).unwrap(), &INFO),
        vec![(18_828, 1), (19_228, 1), (19_628, 1)]
    );
    assert_eq!(fb.vline(100, 0, 10, Color(9)), None);
}

#[test]
fn stroke_is_four_fills() {
    let fb = Framebuffer { info: INFO };
    let c = Color(9);
    let sides = fb.stroke_rect(Rect::new(10, 10, 20, 8), c, 2);
    assert_eq!(
        sides,
        [
            Some(Fill { x: 10, y: 10, width: 20, height: 2, color: c, row: 0, col: 0 }),
            Some(Fill { x: 10, y: 16, width: 20, height: 2, color: c, row: 0, col: 0 }),
            Some(Fill { x: 10, y: 10, width: 2, height: 8, color: c, row: 0, col: 0 }),
            Some(Fill { x: 28, y: 10, width: 2, height: 8, color: c, row: 0, col: 0 }),
        ]
    );
    let sides = fb.stroke_rect(Rect::new(95, 45, 20, 8), c, 1);
    assert_eq!(sides[1], None);
    assert_eq!(sides[3], None);
    assert_eq!(
        sides[0],
        Some(Fill { x: 95, y: 45, width: 5, height: 1, color: c, row: 0, col: 0 })
    );
}
