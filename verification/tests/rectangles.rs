use canvas2d::double::Double;
use canvas2d::draw_image::{adjust_source_dest_rects, scaled_extent};
use canvas2d::geometry::{is_rect_valid, rect, Rect, Size2D};

fn d(x: f64) -> Double {
    Double::from_bits(x.to_bits())
}

fn size(width: i32, height: i32) -> Size2D<i32> {
    Size2D { width, height }
}

fn next(state: &mut u64) -> u64 {
    *state = state.wrapping_mul(6364136223846793005).wrapping_add(1442695040888963407);
    let mut z = *state;
    z ^= z >> 33;
    z = z.wrapping_mul(0xff51afd7ed558ccd);
    z ^= z >> 29;
    z
}

fn small(state: &mut u64) -> i32 {
    (next(state) % 41) as i32 - 10
}

#[test]
fn valid_rectangles_have_a_corner_at_or_after_the_origin_and_a_positive_size() {
    assert!(is_rect_valid(rect(0, 0, 1, 1)));
    assert!(is_rect_valid(rect(3, 4, 5, 6)));
    assert!(is_rect_valid(rect(0, 0, i32::MAX, i32::MAX)));
    assert!(!is_rect_valid(rect(-1, 0, 1, 1)));
    assert!(!is_rect_valid(rect(0, -1, 1, 1)));
    assert!(!is_rect_valid(rect(0, 0, 0, 1)));
    assert!(!is_rect_valid(rect(0, 0, 1, 0)));
    assert!(!is_rect_valid(rect(0, 0, -3, 4)));
    assert!(!is_rect_valid(Rect::zero()));
    let mut state = 11u64;
    for _ in 0..5000 {
        let (x, y, w, h) =
            (small(&mut state), small(&mut state), small(&mut state), small(&mut state));
        assert_eq!(is_rect_valid(rect(x, y, w, h)), x >= 0 && y >= 0 && w > 0 && h > 0);
    }
}

#[test]
fn clipping_keeps_the_shared_pixels() {
    assert_eq!(rect(10, 10, 50, 50).clipped_to(rect(0, 0, 40, 40)), rect(10, 10, 30, 30));
    assert_eq!(rect(-5, -5, 10, 10).clipped_to(rect(0, 0, 40, 40)), rect(0, 0, 5, 5));
    assert_eq!(rect(0, 0, 100, 50).clipped_to(rect(0, 0, 100, 50)), rect(0, 0, 100, 50));
    assert_eq!(rect(40, 0, 10, 10).clipped_to(rect(0, 0, 40, 40)), Rect::zero());
    assert_eq!(rect(5, 5, -3, 4).clipped_to(rect(0, 0, 40, 40)), Rect::zero());
    assert_eq!(rect(5, 5, 3, 0).clipped_to(rect(0, 0, 40, 40)), Rect::zero());
    assert_eq!(rect(5, 5, 3, 3).clipped_to(rect(0, 0, 0, 0)), Rect::zero());
    assert_eq!(
        rect(i32::MIN, i32::MIN, i32::MAX, i32::MAX).clipped_to(rect(-10, -10, 20, 20)),
        rect(-10, -10, 9, 9)
    );
    assert_eq!(
        rect(1, 1, i32::MAX, i32::MAX).clipped_to(rect(0, 0, i32::MAX, i32::MAX)),
        rect(1, 1, i32::MAX - 1, i32::MAX - 1)
    );
}

#[test]
fn clipping_agrees_with_the_edges_of_both_rectangles() {
    let mut state = 12u64;
    for _ in 0..20000 {
        let a = rect(small(&mut state), small(&mut state), small(&mut state), small(&mut state));
        let b = rect(small(&mut state), small(&mut state), small(&mut state), small(&mut state));
        let left = a.origin.x.max(b.origin.x);
        let top = a.origin.y.max(b.origin.y);
        let right = (a.origin.x + a.size.width).min(b.origin.x + b.size.width);
        let bottom = (a.origin.y + a.size.height).min(b.origin.y + b.size.height);
        let expected = if right > left && bottom > top {
            rect(left, top, right - left, bottom - top)
        } else {
            Rect::zero()
        };
        assert_eq!(a.clipped_to(b), expected, "{:?} within {:?}", a, b);
    }
}

#[test]
fn an_image_drawn_at_a_corner_keeps_its_size() {
    let r = adjust_source_dest_rects(size(100, 50), d(10.0), d(20.0), None, None, None, None, None, None);
    assert_eq!(r, (rect(0, 0, 100, 50), rect(10, 20, 100, 50)));
}

#[test]
fn an_image_drawn_into_a_rectangle_is_read_whole() {
    for (iw, ih) in [(100, 50), (1, 1), (7, 3000), (40, 40), (i32::MAX, i32::MAX)] {
        let r = adjust_source_dest_rects(
            size(iw, ih),
            d(10.0),
            d(20.0),
            Some(d(40.0)),
            Some(d(30.0)),
            None,
            None,
            None,
            None,
        );
        assert_eq!(r, (rect(0, 0, iw, ih), rect(10, 20, 40, 30)));
    }
}

#[test]
fn a_source_beyond_the_image_shrinks_the_destination() {
    let r = adjust_source_dest_rects(
        size(40, 40),
        d(10.0),
        d(10.0),
        Some(d(50.0)),
        Some(d(50.0)),
        Some(d(0.0)),
        Some(d(0.0)),
        Some(d(25.0)),
        Some(d(25.0)),
    );
    assert_eq!(r, (rect(10, 10, 30, 30), rect(0, 0, 15, 15)));
}

#[test]
fn a_source_within_the_image_is_drawn_as_given() {
    let r = adjust_source_dest_rects(
        size(40, 40),
        d(1.9),
        d(2.1),
        Some(d(10.5)),
        Some(d(20.0)),
        Some(d(-3.7)),
        Some(d(4.2)),
        Some(d(25.9)),
        Some(d(7.0)),
    );
    assert_eq!(r, (rect(1, 2, 10, 20), rect(-3, 4, 25, 7)));
}

#[test]
fn a_source_outside_the_image_leaves_nothing() {
    let r = adjust_source_dest_rects(
        size(40, 40),
        d(50.0),
        d(50.0),
        Some(d(10.0)),
        Some(d(10.0)),
        Some(d(3.0)),
        Some(d(4.0)),
        Some(d(25.0)),
        Some(d(25.0)),
    );
    assert_eq!(r, (Rect::zero(), rect(3, 4, 0, 0)));
    let r = adjust_source_dest_rects(
        size(40, 40),
        d(0.0),
        d(0.0),
        Some(d(0.0)),
        Some(d(-5.0)),
        Some(d(3.0)),
        Some(d(4.0)),
        Some(d(25.0)),
        Some(d(25.0)),
    );
    assert_eq!(r, (Rect::zero(), rect(3, 4, 0, 0)));
    let r = adjust_source_dest_rects(size(0, 0), d(1.0), d(2.0), None, None, None, None, None, None);
    assert_eq!(r, (Rect::zero(), rect(1, 2, 0, 0)));
}

#[test]
fn numbers_beyond_the_pixels_become_the_nearest_pixel() {
    let whole = |sx: f64, sy: f64, sw: f64, sh: f64, dx: f64, dy: f64, dw: f64, dh: f64| {
        adjust_source_dest_rects(
            size(40, 40),
            d(sx),
            d(sy),
            Some(d(sw)),
            Some(d(sh)),
            Some(d(dx)),
            Some(d(dy)),
            Some(d(dw)),
            Some(d(dh)),
        )
    };
    let all = (rect(0, 0, 10, 10), rect(0, 0, 10, 10));
    assert_eq!(whole(0.0, 0.0, 10.0, 10.0, 0.0, 0.0, 10.0, 10.0), all);
    assert_eq!(whole(f64::NAN, 0.0, 10.0, 10.0, 0.0, 0.0, 10.0, 10.0), all);
    assert_eq!(
        whole(0.0, 3e9, 10.0, 10.0, 0.0, 0.0, 10.0, 10.0),
        (Rect::zero(), rect(0, 0, 0, 0))
    );
    assert_eq!(
        whole(0.0, 0.0, f64::INFINITY, 10.0, 0.0, 0.0, 10.0, 10.0),
        (rect(0, 0, 40, 10), rect(0, 0, (10.0 * (40.0 / 2147483647.0)) as i32, 10))
    );
    assert_eq!(
        whole(0.0, 0.0, 10.0, 10.0, f64::NAN, -1e300, 10.0, 10.0),
        (rect(0, 0, 10, 10), rect(0, i32::MIN, 10, 10))
    );
    assert_eq!(
        whole(0.0, 0.0, 10.0, 10.0, 0.0, 0.0, f64::NAN, 1e10),
        (rect(0, 0, 10, 10), rect(0, 0, 0, i32::MAX))
    );
    // clipped to a quarter, a destination of 8e9 pixels becomes one of 2e9
    assert_eq!(
        whole(0.0, 0.0, 160.0, 40.0, 0.0, 0.0, 8e9, 10.0),
        (rect(0, 0, 40, 40), rect(0, 0, 2_000_000_000, 10))
    );
    // nothing is left of the source, and an infinite extent times zero is no number
    assert_eq!(
        whole(50.0, 0.0, 10.0, 10.0, 0.0, 0.0, f64::INFINITY, 10.0),
        (Rect::zero(), rect(0, 0, 0, 0))
    );
}

#[test]
fn the_scaled_extent_is_the_product_as_the_machine_rounds_it() {
    // 49 * (1 / 49) is below 1 in binary64
    assert_eq!(scaled_extent(d(49.0), 1, 49), 0);
    assert_eq!((49.0f64 * (1.0f64 / 49.0f64)) as i32, 0);
    assert_eq!(scaled_extent(d(25.0), 30, 50), 15);
    assert_eq!(scaled_extent(d(-25.0), 30, 50), -15);
    assert_eq!(scaled_extent(d(25.0), 0, 50), 0);
    assert_eq!(scaled_extent(d(25.0), 0, 0), 0);
    assert_eq!(scaled_extent(d(25.0), 0, -4), 0);
    assert_eq!(scaled_extent(d(25.9), 7, 7), 25);
    assert_eq!(scaled_extent(d(f64::NAN), 7, 7), 0);
    assert_eq!(scaled_extent(d(f64::INFINITY), 7, 7), i32::MAX);
    assert_eq!(scaled_extent(d(f64::INFINITY), 0, 7), 0);
    let mut state = 13u64;
    for _ in 0..100000 {
        let full = (next(&mut state) % 5000 + 1) as i32;
        let clipped = (next(&mut state) % (full as u64 + 1)) as i32;
        let extent = match next(&mut state) % 3 {
            0 => (next(&mut state) % 3000) as f64,
            1 => (next(&mut state) % 3_000_000) as f64 / 1000.0 - 1000.0,
            _ => f64::from_bits(next(&mut state)),
        };
        let product = extent * (clipped as f64 / full as f64);
        assert_eq!(scaled_extent(d(extent), clipped, full), product as i32, "{:e} * {} / {}", extent, clipped, full);
    }
}

/// The two rectangles, computed with the numbers of the machine.
fn reference(
    image: Size2D<i32>,
    sx: f64,
    sy: f64,
    sw: Option<f64>,
    sh: Option<f64>,
    dx: Option<f64>,
    dy: Option<f64>,
    dw: Option<f64>,
    dh: Option<f64>,
) -> (Rect<i32>, Rect<i32>) {
    let source_x = if dx.is_some() { sx } else { 0.0 };
    let source_y = if dy.is_some() { sy } else { 0.0 };
    let source_width = if dw.is_some() { sw.unwrap() } else { image.width as f64 };
    let source_height = if dh.is_some() { sh.unwrap() } else { image.height as f64 };
    let dest_x = dx.unwrap_or(sx);
    let dest_y = dy.unwrap_or(sy);
    let dest_width = dw.unwrap_or(sw.unwrap_or(source_width));
    let dest_height = dh.unwrap_or(sh.unwrap_or(source_height));
    let source = rect(source_x as i32, source_y as i32, source_width as i32, source_height as i32);
    let clipped = source.clipped_to(rect(0, 0, image.width, image.height));
    let ratio = |part: i32, all: i32| if all == 0 { 0.0 } else { part as f64 / all as f64 };
    let width_ratio = ratio(clipped.size.width, source.size.width);
    let height_ratio = ratio(clipped.size.height, source.size.height);
    (
        clipped,
        rect(dest_x as i32, dest_y as i32, (dest_width * width_ratio) as i32, (dest_height * height_ratio) as i32),
    )
}

#[test]
fn the_rectangles_are_those_that_the_machine_computes() {
    let mut state = 14u64;
    let mut number = |state: &mut u64| match next(state) % 5 {
        0 => (next(state) % 200) as f64 - 50.0,
        1 => (next(state) % 200_000) as f64 / 1000.0 - 50.0,
        2 => [0.0, -0.0, f64::NAN, f64::INFINITY, -1e12, 1e12, 0.5][(next(state) % 7) as usize],
        3 => f64::from_bits(next(state)),
        _ => (next(state) % 120) as f64,
    };
    for _ in 0..50000 {
        let image = size((next(&mut state) % 100) as i32, (next(&mut state) % 100) as i32);
        let v: Vec<f64> = (0..8).map(|_| number(&mut state)).collect();
        let o = |x: f64| Some(d(x));
        assert_eq!(
            adjust_source_dest_rects(image, d(v[0]), d(v[1]), None, None, None, None, None, None),
            reference(image, v[0], v[1], None, None, None, None, None, None),
            "{:?} {:?}",
            image,
            v
        );
        assert_eq!(
            adjust_source_dest_rects(image, d(v[0]), d(v[1]), o(v[2]), o(v[3]), None, None, None, None),
            reference(image, v[0], v[1], Some(v[2]), Some(v[3]), None, None, None, None),
            "{:?} {:?}",
            image,
            v
        );
        assert_eq!(
            adjust_source_dest_rects(image, d(v[0]), d(v[1]), o(v[2]), o(v[3]), o(v[4]), o(v[5]), o(v[6]), o(v[7])),
            reference(
                image,
                v[0],
                v[1],
                Some(v[2]),
                Some(v[3]),
                Some(v[4]),
                Some(v[5]),
                Some(v[6]),
                Some(v[7])
            ),
            "{:?} {:?}",
            image,
            v
        );
    }
}
