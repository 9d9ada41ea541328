use redpowder::graphics::draw::{
    circle_points, draw_line, draw_rect, fill_circle, line_points, CircleIterator,
    FilledCircleIterator, Line, LineIterator, RectBorderIterator, Span,
};
use redpowder::graphics::geometry::{Point, Rect};

fn line(mut it: LineIterator) -> Vec<(i32, i32)> {
    let mut out = Vec::new();
    while let Some(p) = it.next() {
        out.push((p.x, p.y));
        assert!(out.len() < 10_000);
    }
    assert!(it.next().is_none());
    out
}

fn border(mut it: RectBorderIterator) -> Vec<(i32, i32)> {
    let mut out = Vec::new();
    while let Some(p) = it.next() {
        out.push((p.x, p.y));
        assert!(out.len() < 10_000);
    }
    assert!(it.next().is_none());
    out
}

fn circle(mut it: CircleIterator) -> Vec<(i32, i32)> {
    let mut out = Vec::new();
    while let Some(p) = it.next() {
        out.push((p.x, p.y));
        assert!(out.len() < 10_000);
    }
    assert!(it.next().is_none());
    out
}

fn disk(mut it: FilledCircleIterator) -> Vec<(i32, i32, i32)> {
    let mut out = Vec::new();
    while let Some(Span { x, y, width }) = it.next() {
        out.push((x, y, width));
        assert!(out.len() < 10_000);
    }
    assert!(it.next().is_none());
    out
}

#[test]
fn line_walks_from_start_to_end() {
    assert_eq!(
        line(line_points(0, 0, 5, 2)),
        vec![(0, 0), (1, 0), (2, 1), (3, 1), (4, 2), (5, 2)]
    );
    assert_eq!(
        line(line_points(2, 3, -2, -5)),
        vec![(2, 3), (1, 2), (1, 1), (0, 0), (0, -1), (-1, -2), (-1, -3), (-2, -4), (-2, -5)]
    );
    assert_eq!(line(line_points(0, 0, 0, 3)), vec![(0, 0), (0, 1), (0, 2), (0, 3)]);
    assert_eq!(line(line_points(3, 0, 0, 0)), vec![(3, 0), (2, 0), (1, 0), (0, 0)]);
}

#[test]
fn line_of_one_point() {
    assert_eq!(line(line_points(1, 1, 1, 1)), vec![(1, 1)]);
}

#[test]
fn line_between_two_points() {
    let l = Line { start: Point::new(0, 0), end: Point::new(3, 3) };
    assert_eq!(line(draw_line(l)), vec![(0, 0), (1, 1), (2, 2), (3, 3)]);
    assert_eq!(
        line(LineIterator::new(Point::new(3, 3), Point::new(0, 0))),
        vec![(3, 3), (2, 2), (1, 1), (0, 0)]
    );
}

#[test]
fn line_steps_by_one_pixel_toward_its_end() {
    for (x0, y0, x1, y1) in [(0, 0, 37, 11), (5, -9, -20, 40), (-3, 7, 12, 7), (9, 9, 9, -9)] {
        let points = line(line_points(x0, y0, x1, y1));
        assert_eq!(points.first(), Some(&(x0, y0)));
        assert_eq!(points.last(), Some(&(x1, y1)));
        assert_eq!(points.len() as i32, (x1 - x0).abs().max((y1 - y0).abs()) + 1);
        for pair in points.windows(2) {
            let (dx, dy) = (pair[1].0 - pair[0].0, pair[1].1 - pair[0].1);
            assert!(dx.abs() <= 1 && dy.abs() <= 1 && (dx, dy) != (0, 0));
        }
    }
}

#[test]
fn line_across_the_whole_plane_does_not_overflow() {
    let mut it = line_points(i32::MIN, i32::MIN, i32::MAX, i32::MAX);
    assert_eq!(it.next(), Some(Point::new(i32::MIN, i32::MIN)));
    assert_eq!(it.next(), Some(Point::new(i32::MIN + 1, i32::MIN + 1)));
    let mut it = line_points(i32::MAX, i32::MIN, i32::MIN, i32::MIN + 1);
    assert_eq!(it.next(), Some(Point::new(i32::MAX, i32::MIN)));
    assert_eq!(it.next(), Some(Point::new(i32::MAX - 1, i32::MIN)));
}

#[test]
fn border_goes_around_clockwise() {
    assert_eq!(
        border(draw_rect(Rect::new(1, 2, 4, 3))),
        vec![(1, 2), (2, 2), (3, 2), (4, 2), (4, 3), (4, 4), (3, 4), (2, 4), (1, 4), (1, 3)]
    );
    assert_eq!(
        border(draw_rect(Rect::new(-2, -2, 2, 2))),
        vec![(-2, -2), (-1, -2), (-1, -1), (-2, -1)]
    );
}

#[test]
fn border_of_thin_rectangles() {
    assert_eq!(border(draw_rect(Rect::new(0, 0, 1, 1))), vec![(0, 0)]);
    assert_eq!(
        border(draw_rect(Rect::new(0, 0, 3, 1))),
        vec![(0, 0), (1, 0), (2, 0), (1, 0), (0, 0)]
    );
    assert_eq!(border(RectBorderIterator::new(Rect::new(5, 5, 0, 0))), vec![]);
    assert_eq!(border(draw_rect(Rect::new(5, 5, 0, 3))), vec![(4, 6), (4, 7), (5, 6)]);
}

#[test]
fn circle_is_walked_in_eight_octants() {
    assert_eq!(
        circle(circle_points(0, 0, 1)),
        vec![(0, -1), (1, 0), (1, 0), (0, 1), (0, 1), (-1, 0), (-1, 0), (0, -1)]
    );
    assert_eq!(
        circle(circle_points(10, 10, 2)),
        vec![
            (10, 8),
            (12, 10),
            (12, 10),
            (10, 12),
            (10, 12),
            (8, 10),
            (8, 10),
            (10, 8),
            (11, 8),
            (12, 9),
            (12, 11),
            (11, 12),
            (9, 12),
            (8, 11),
            (8, 9),
            (9, 8)
        ]
    );
    assert_eq!(
        circle(CircleIterator::new(0, 0, 3)),
        vec![
            (0, -3),
            (3, 0),
            (3, 0),
            (0, 3),
            (0, 3),
            (-3, 0),
            (-3, 0),
            (0, -3),
            (1, -3),
            (3, -1),
            (3, 1),
            (1, 3),
            (-1, 3),
            (-3, 1),
            (-3, -1),
            (-1, -3),
            (2, -2),
            (2, -2),
            (2, 2),
            (2, 2),
            (-2, 2),
            (-2, 2),
            (-2, -2),
            (-2, -2)
        ]
    );
}

#[test]
fn circle_without_radius_has_no_points() {
    assert_eq!(circle(circle_points(3, 3, 0)), vec![]);
    assert_eq!(circle(circle_points(3, 3, -5)), vec![]);
    assert_eq!(disk(fill_circle(3, 3, 0)), vec![]);
    assert_eq!(disk(fill_circle(3, 3, -1)), vec![]);
}

#[test]
fn circle_points_lie_near_the_radius() {
    for r in [1, 2, 5, 17, 100] {
        let points = circle(circle_points(0, 0, r));
        assert_eq!(points.len() % 8, 0);
        for (x, y) in points {
            let d2 = (x as i64) * (x as i64) + (y as i64) * (y as i64);
            let r = r as i64;
            assert!(d2 > (r - 1) * (r - 1) && d2 < (r + 1) * (r + 1));
        }
    }
}

#[test]
fn disk_is_filled_with_runs() {
    assert_eq!(disk(fill_circle(0, 0, 1)), vec![(-1, 0, 3), (0, -1, 1), (0, 0, 1)]);
    assert_eq!(
        disk(fill_circle(0, 0, 2)),
        vec![(-2, 0, 5), (-2, -1, 5), (-2, 1, 5), (-1, -2, 3), (-1, -1, 3), (-1, 1, 3)]
    );
    assert_eq!(
        disk(FilledCircleIterator::new(10, 20, 3)),
        vec![
            (7, 20, 7),
            (7, 19, 7),
            (7, 21, 7),
            (9, 17, 3),
            (8, 19, 5),
            (8, 21, 5),
            (9, 18, 3),
            (9, 19, 3),
            (9, 21, 3)
        ]
    );
    assert_eq!(
        disk(fill_circle(0, 0, 4)),
        vec![
            (-4, 0, 9),
            (-4, -1, 9),
            (-4, 1, 9),
            (-1, -4, 3),
            (-3, -1, 7),
            (-3, 1, 7),
            (-3, -2, 7),
            (-3, 2, 7),
            (-2, -3, 5),
            (-2, -2, 5),
            (-2, 2, 5)
        ]
    );
}
