use canvas2d::canvas_msg::{CanvasMsg, ReplyRoute};
use canvas2d::color::RGBA;
use canvas2d::context::{
    CanvasRenderingContext2D, CanvasWindingRule, CanvasRenderingContext2DHelpers, HTMLCanvasElement,
    HTMLImageElementOrHTMLCanvasElementOrCanvasRenderingContext2D, ImageDataReply,
    PendingDrawImage, PendingImageData, StringOrCanvasGradientOrCanvasPattern,
};
use canvas2d::double::Double;
use canvas2d::error::Error;
use canvas2d::geometry::{rect, Point2D, Rect, Size2D};
use canvas2d::image_data::ImageData;
use canvas2d::matrix::Matrix2D;
use canvas2d::single::Single;
use canvas2d::style::{
    CanvasGradient, CanvasGradientStop, CanvasGradientStyle, FillOrStrokeStyle,
    LinearGradientStyle, RadialGradientStyle,
};

fn d(x: f64) -> Double {
    Double::from_bits(x.to_bits())
}

fn s(x: f32) -> Single {
    Single::from_bits(x.to_bits())
}

fn canvas(id: u64, width: i32, height: i32) -> HTMLCanvasElement {
    HTMLCanvasElement { id, size: Size2D { width, height } }
}

fn context() -> CanvasRenderingContext2D {
    CanvasRenderingContext2D::new(canvas(1, 300, 150))
}

fn rect32(x: f32, y: f32, w: f32, h: f32) -> Rect<Single> {
    rect(s(x), s(y), s(w), s(h))
}

fn point32(x: f32, y: f32) -> Point2D<Single> {
    Point2D { x: s(x), y: s(y) }
}

fn matrix(m: [f32; 6]) -> Matrix2D {
    Matrix2D::new(s(m[0]), s(m[1]), s(m[2]), s(m[3]), s(m[4]), s(m[5]))
}

fn commands(context: &mut CanvasRenderingContext2D) -> Vec<CanvasMsg> {
    let mut all = Vec::new();
    loop {
        match context.next_command() {
            Some(msg) => all.push(msg),
            None => return all,
        }
    }
}

fn text(value: StringOrCanvasGradientOrCanvasPattern) -> String {
    match value {
        StringOrCanvasGradientOrCanvasPattern::String(text) => text,
        _ => panic!("no string"),
    }
}

fn color(name: &str) -> StringOrCanvasGradientOrCanvasPattern {
    StringOrCanvasGradientOrCanvasPattern::String(name.to_owned())
}

#[test]
fn a_new_context_has_sent_nothing() {
    let mut c = context();
    assert_eq!(c.canvas(), canvas(1, 300, 150));
    assert!(c.image_smoothing_enabled());
    assert!(c.get_renderer().is_open());
    assert_eq!(c.get_renderer().pending(), 0);
    assert_eq!(c.next_command(), None);
    assert_eq!(text(c.fill_style()), "rgb(0, 0, 0)");
    assert_eq!(text(c.stroke_style()), "rgb(0, 0, 0)");
}

#[test]
fn drawing_calls_become_commands_in_the_order_of_the_calls() {
    let mut c = context();
    assert_eq!(c.begin_path(), Ok(()));
    assert_eq!(c.move_to(d(1.5), d(2.5)), Ok(()));
    assert_eq!(c.line_to(d(3.0), d(-4.0)), Ok(()));
    assert_eq!(c.quadratic_curve_to(d(1.0), d(2.0), d(3.0), d(4.0)), Ok(()));
    assert_eq!(c.bezier_curve_to(d(1.0), d(2.0), d(3.0), d(4.0), d(5.0), d(6.0)), Ok(()));
    assert_eq!(c.arc(d(10.0), d(20.0), d(5.0), d(0.0), d(3.141592653589793), true), Ok(()));
    assert_eq!(c.close_path(), Ok(()));
    assert_eq!(c.fill(CanvasWindingRule::Nonzero), Ok(()));
    assert_eq!(c.fill_rect(d(1.0), d(2.0), d(3.0), d(4.0)), Ok(()));
    assert_eq!(c.clear_rect(d(0.1), d(0.2), d(0.3), d(0.4)), Ok(()));
    assert_eq!(c.stroke_rect(d(-1.0), d(-2.0), d(1e40), d(1e-50)), Ok(()));
    assert_eq!(c.get_renderer().pending(), 11);
    assert_eq!(
        commands(&mut c),
        vec![
            CanvasMsg::BeginPath,
            CanvasMsg::MoveTo(point32(1.5, 2.5)),
            CanvasMsg::LineTo(point32(3.0, -4.0)),
            CanvasMsg::QuadraticCurveTo(point32(1.0, 2.0), point32(3.0, 4.0)),
            CanvasMsg::BezierCurveTo(point32(1.0, 2.0), point32(3.0, 4.0), point32(5.0, 6.0)),
            CanvasMsg::Arc(point32(10.0, 20.0), s(5.0), s(0.0), s(3.141592653589793f64 as f32), true),
            CanvasMsg::ClosePath,
            CanvasMsg::Fill,
            CanvasMsg::FillRect(rect32(1.0, 2.0, 3.0, 4.0)),
            CanvasMsg::ClearRect(rect32(0.1f64 as f32, 0.2f64 as f32, 0.3f64 as f32, 0.4f64 as f32)),
            CanvasMsg::StrokeRect(rect32(-1.0, -2.0, f32::INFINITY, 0.0)),
        ]
    );
    assert_eq!(c.get_renderer().pending(), 0);
}

#[test]
fn recreate_tells_the_worker_the_size() {
    let mut c = context();
    assert_eq!(c.recreate(Size2D { width: 20, height: 10 }), Ok(()));
    assert_eq!(c.canvas(), canvas(1, 20, 10));
    assert_eq!(commands(&mut c), vec![CanvasMsg::Recreate(Size2D { width: 20, height: 10 })]);
}

#[test]
fn each_change_of_the_transform_sends_the_whole_transform() {
    let mut c = context();
    assert_eq!(c.set_transform(d(2.0), d(0.5), d(-1.0), d(3.0), d(10.0), d(20.0)), Ok(()));
    assert_eq!(c.scale(d(4.0), d(0.25)), Ok(()));
    assert_eq!(c.translate(d(1.0), d(2.0)), Ok(()));
    assert_eq!(c.transform(d(1.0), d(2.0), d(3.0), d(4.0), d(5.0), d(6.0)), Ok(()));
    let first = [2.0, 0.5, -1.0, 3.0, 10.0, 20.0];
    let second = [8.0, 2.0, -0.25, 0.75, 10.0, 20.0];
    let third = [8.0, 2.0, -0.25, 0.75, 17.5, 23.5];
    let fourth = [7.5, 3.5, 23.0, 9.0, 56.0, 38.0];
    assert_eq!(
        commands(&mut c),
        vec![
            CanvasMsg::SetTransform(matrix(first)),
            CanvasMsg::SetTransform(matrix(second)),
            CanvasMsg::SetTransform(matrix(third)),
            CanvasMsg::SetTransform(matrix(fourth)),
        ]
    );
}

#[test]
fn the_transform_of_a_new_context_is_the_identity() {
    let mut c = context();
    assert_eq!(c.scale(d(2.0), d(3.0)), Ok(()));
    assert_eq!(commands(&mut c), vec![CanvasMsg::SetTransform(matrix([2.0, 0.0, 0.0, 3.0, 0.0, 0.0]))]);
    assert_eq!(Matrix2D::identity(), matrix([1.0, 0.0, 0.0, 1.0, 0.0, 0.0]));
}

fn next(state: &mut u64) -> u64 {
    *state = state.wrapping_mul(6364136223846793005).wrapping_add(1442695040888963407);
    let mut z = *state;
    z ^= z >> 33;
    z = z.wrapping_mul(0xff51afd7ed558ccd);
    z ^= z >> 29;
    z
}

fn entry(state: &mut u64) -> f32 {
    match next(state) % 6 {
        0 => 0.0,
        1 => 1.0,
        2 => -0.0,
        3 => (next(state) % 2000) as f32 / 16.0 - 60.0,
        4 => f32::from_bits((next(state) as u32 & 0x807f_ffff) | ((100 + (next(state) % 60) as u32) << 23)),
        _ => (next(state) % 2_000_000) as f32 / 977.0 - 1000.0,
    }
}

fn same(a: Matrix2D, b: euclid::default::Transform2D<f32>) -> bool {
    let both = [
        (a.m11, b.m11),
        (a.m12, b.m12),
        (a.m21, b.m21),
        (a.m22, b.m22),
        (a.m31, b.m31),
        (a.m32, b.m32),
    ];
    both.iter().all(|(x, y)| if y.is_nan() { x.is_nan() } else { x.to_bits() == y.to_bits() })
}

#[test]
fn the_matrix_arithmetic_is_that_of_euclid() {
    let mut state = 21u64;
    for _ in 0..50000 {
        let mut m = [0f32; 6];
        let mut n = [0f32; 6];
        for i in 0..6 {
            m[i] = entry(&mut state);
            n[i] = entry(&mut state);
        }
        let (x, y) = (entry(&mut state), entry(&mut state));
        let em = euclid::default::Transform2D::new(m[0], m[1], m[2], m[3], m[4], m[5]);
        let en = euclid::default::Transform2D::new(n[0], n[1], n[2], n[3], n[4], n[5]);
        assert!(same(matrix(m).mul(matrix(n)), en.then(&em)), "{:?} {:?}", m, n);
        assert!(same(matrix(m).scale(s(x), s(y)), em.pre_scale(x, y)), "{:?} {} {}", m, x, y);
        assert!(
            same(matrix(m).translate(s(x), s(y)), em.pre_translate(euclid::default::Vector2D::new(x, y))),
            "{:?} {} {}",
            m,
            x,
            y
        );
    }
}

#[test]
fn a_colour_string_sets_the_style_and_is_sent() {
    let mut c = context();
    assert_eq!(c.set_fill_style(color("red")), Ok(()));
    assert_eq!(c.set_stroke_style(color("#00ff0080")), Ok(()));
    assert_eq!(text(c.fill_style()), "rgb(255, 0, 0)");
    assert_eq!(text(c.stroke_style()), "rgba(0, 255, 0, 0.5)");
    assert_eq!(
        commands(&mut c),
        vec![
            CanvasMsg::SetFillStyle(FillOrStrokeStyle::Color(RGBA {
                red: 255,
                green: 0,
                blue: 0,
                alpha: 255
            })),
            CanvasMsg::SetStrokeStyle(FillOrStrokeStyle::Color(RGBA {
                red: 0,
                green: 255,
                blue: 0,
                alpha: 128
            })),
        ]
    );
}

#[test]
fn a_string_that_is_no_colour_changes_nothing() {
    let mut c = context();
    assert_eq!(c.set_fill_style(color("blue")), Ok(()));
    assert_eq!(c.set_stroke_style(color("rgb(1, 2, 3)")), Ok(()));
    assert_eq!(commands(&mut c).len(), 2);
    assert_eq!(c.set_fill_style(color("not-a-color")), Ok(()));
    assert_eq!(c.set_stroke_style(color("not-a-color")), Ok(()));
    assert_eq!(c.set_fill_style(color("currentcolor")), Ok(()));
    assert_eq!(c.set_fill_style(color("")), Ok(()));
    assert_eq!(c.set_fill_style(StringOrCanvasGradientOrCanvasPattern::CanvasPattern), Ok(()));
    assert_eq!(c.set_stroke_style(StringOrCanvasGradientOrCanvasPattern::CanvasPattern), Ok(()));
    assert_eq!(text(c.fill_style()), "rgb(0, 0, 255)");
    assert_eq!(text(c.stroke_style()), "rgb(1, 2, 3)");
    assert_eq!(c.fill_rect(d(0.0), d(0.0), d(1.0), d(1.0)), Ok(()));
    // the worker is sent the rectangle alone: it fills with the colour it was sent last
    assert_eq!(commands(&mut c), vec![CanvasMsg::FillRect(rect32(0.0, 0.0, 1.0, 1.0))]);
}

#[test]
fn applying_a_parsed_colour() {
    let mut c = context();
    let grey = RGBA { red: 9, green: 9, blue: 9, alpha: 255 };
    assert_eq!(c.apply_fill_color(Err(())), Ok(()));
    assert_eq!(c.apply_stroke_color(Err(())), Ok(()));
    assert_eq!(commands(&mut c), vec![]);
    assert_eq!(c.apply_fill_color(Ok(grey)), Ok(()));
    assert_eq!(text(c.fill_style()), "rgb(9, 9, 9)");
    assert_eq!(text(c.stroke_style()), "rgb(0, 0, 0)");
    assert_eq!(c.apply_stroke_color(Ok(grey)), Ok(()));
    assert_eq!(text(c.stroke_style()), "rgb(9, 9, 9)");
    assert_eq!(
        commands(&mut c),
        vec![
            CanvasMsg::SetFillStyle(FillOrStrokeStyle::Color(grey)),
            CanvasMsg::SetStrokeStyle(FillOrStrokeStyle::Color(grey)),
        ]
    );
}

#[test]
fn a_gradient_is_sent_with_its_stops_and_not_kept() {
    let mut c = context();
    let mut gradient = c.create_linear_gradient(d(0.0), d(0.0), d(1.0), d(1.0)).unwrap();
    let red = RGBA { red: 255, green: 0, blue: 0, alpha: 255 };
    let blue = RGBA { red: 0, green: 0, blue: 255, alpha: 255 };
    gradient.add_color_stop(d(0.0), red);
    gradient.add_color_stop(d(1.0), blue);
    let stops = vec![
        CanvasGradientStop { offset: d(0.0), color: red },
        CanvasGradientStop { offset: d(1.0), color: blue },
    ];
    let style = gradient.to_fill_or_stroke_style();
    assert_eq!(
        style,
        FillOrStrokeStyle::LinearGradient(LinearGradientStyle::new(d(0.0), d(0.0), d(1.0), d(1.0), stops.clone()))
    );
    assert_eq!(c.set_fill_style(StringOrCanvasGradientOrCanvasPattern::CanvasGradient(gradient)), Ok(()));
    let radial = c.create_radial_gradient(d(1.0), d(2.0), d(3.0), d(4.0), d(5.0), d(6.0)).unwrap();
    assert_eq!(c.set_stroke_style(StringOrCanvasGradientOrCanvasPattern::CanvasGradient(radial)), Ok(()));
    assert_eq!(
        commands(&mut c),
        vec![
            CanvasMsg::SetFillStyle(style),
            CanvasMsg::SetStrokeStyle(FillOrStrokeStyle::RadialGradient(RadialGradientStyle::new(
                d(1.0),
                d(2.0),
                d(3.0),
                d(4.0),
                d(5.0),
                d(6.0),
                vec![]
            ))),
        ]
    );
    assert_eq!(text(c.fill_style()), "rgb(0, 0, 0)");
    assert_eq!(text(c.stroke_style()), "rgb(0, 0, 0)");
}

#[test]
fn gradients_take_finite_numbers_only() {
    let c = context();
    let made = c.create_linear_gradient(d(0.0), d(0.0), d(1.0), d(1.0)).unwrap();
    assert_eq!(
        made,
        CanvasGradient::new(CanvasGradientStyle::Linear(LinearGradientStyle::new(
            d(0.0),
            d(0.0),
            d(1.0),
            d(1.0),
            vec![]
        )))
    );
    assert_eq!(
        c.create_linear_gradient(d(0.0), d(0.0), d(f64::NAN), d(1.0)),
        Err(Error::TypeError(
            "One of the arguments of createLinearGradient() is not a finite floating-point value."
                .to_owned()
        ))
    );
    assert!(c.create_linear_gradient(d(f64::INFINITY), d(0.0), d(0.0), d(1.0)).is_err());
    assert!(c.create_linear_gradient(d(0.0), d(f64::NEG_INFINITY), d(0.0), d(1.0)).is_err());
    assert!(c.create_linear_gradient(d(0.0), d(0.0), d(0.0), d(f64::NAN)).is_err());
    assert!(c.create_radial_gradient(d(0.0), d(0.0), d(1.0), d(0.0), d(0.0), d(2.0)).is_ok());
    for i in 0..6 {
        let mut v = [1.0f64; 6];
        v[i] = if i % 2 == 0 { f64::NAN } else { f64::INFINITY };
        assert_eq!(
            c.create_radial_gradient(d(v[0]), d(v[1]), d(v[2]), d(v[3]), d(v[4]), d(v[5])),
            Err(Error::TypeError(
                "One of the arguments of createRadialGradient() is not a finite floating-point value."
                    .to_owned()
            ))
        );
    }
}

#[test]
fn smoothing_can_be_switched() {
    let mut c = context();
    c.set_image_smoothing_enabled(false);
    assert!(!c.image_smoothing_enabled());
    c.set_image_smoothing_enabled(true);
    assert!(c.image_smoothing_enabled());
    assert_eq!(commands(&mut c), vec![]);
}

#[test]
fn an_image_of_the_same_canvas_is_drawn_by_one_command() {
    let mut c = CanvasRenderingContext2D::new(canvas(1, 100, 50));
    let image = HTMLImageElementOrHTMLCanvasElementOrCanvasRenderingContext2D::HTMLCanvasElement(canvas(1, 100, 50));
    assert_eq!(c.draw_image(image, d(10.0), d(20.0)), Ok(None));
    assert_eq!(
        commands(&mut c),
        vec![CanvasMsg::DrawImageSelf(
            Size2D { width: 100, height: 50 },
            rect(10, 20, 100, 50),
            rect(0, 0, 100, 50),
            true
        )]
    );
}

#[test]
fn an_image_of_another_canvas_is_read_and_then_drawn() {
    let mut c = context();
    c.set_image_smoothing_enabled(false);
    let other = CanvasRenderingContext2D::new(canvas(2, 40, 40));
    let image = HTMLImageElementOrHTMLCanvasElementOrCanvasRenderingContext2D::CanvasRenderingContext2D(&other);
    let pending = c
        .draw_image__(image, d(10.0), d(10.0), d(50.0), d(50.0), d(0.0), d(0.0), d(25.0), d(25.0))
        .unwrap()
        .unwrap();
    assert_eq!(
        pending,
        PendingDrawImage {
            source: canvas(2, 40, 40),
            route: ReplyRoute { id: 0 },
            dest_rect: rect(0, 0, 15, 15),
            source_rect: rect(10, 10, 30, 30),
            smoothing_enabled: false,
        }
    );
    assert_eq!(
        pending.request(),
        CanvasMsg::GetImageData(rect(10, 10, 30, 30), Size2D { width: 40, height: 40 }, ReplyRoute { id: 0 })
    );
    // nothing goes to the context's own worker before the pixels are there
    assert_eq!(commands(&mut c), vec![]);
    c.set_image_smoothing_enabled(true);
    let stray = ImageDataReply { route: ReplyRoute { id: 7 }, data: vec![9; 4] };
    assert_eq!(c.finish_draw_image(pending, stray), Ok(Some(pending)));
    assert_eq!(commands(&mut c), vec![]);
    let reply = ImageDataReply { route: ReplyRoute { id: 0 }, data: vec![1, 2, 3, 4] };
    assert_eq!(c.finish_draw_image(pending, reply), Ok(None));
    assert_eq!(
        commands(&mut c),
        vec![CanvasMsg::DrawImage(
            vec![1, 2, 3, 4],
            Size2D { width: 40, height: 40 },
            rect(0, 0, 15, 15),
            rect(10, 10, 30, 30),
            false
        )]
    );
}

#[test]
fn draw_image_with_a_destination_rectangle() {
    let mut c = context();
    let image = HTMLImageElementOrHTMLCanvasElementOrCanvasRenderingContext2D::HTMLCanvasElement(canvas(2, 64, 48));
    let pending = c.draw_image_(image, d(10.0), d(20.0), d(40.0), d(30.0)).unwrap().unwrap();
    assert_eq!(pending.source_rect, rect(0, 0, 64, 48));
    assert_eq!(pending.dest_rect, rect(10, 20, 40, 30));
    let image = HTMLImageElementOrHTMLCanvasElementOrCanvasRenderingContext2D::HTMLCanvasElement(canvas(3, 100, 50));
    let second = c.draw_image(image, d(10.0), d(20.0)).unwrap().unwrap();
    assert_eq!(second.source_rect, rect(0, 0, 100, 50));
    assert_eq!(second.dest_rect, rect(10, 20, 100, 50));
    // every read has a route of its own
    assert_eq!(pending.route, ReplyRoute { id: 0 });
    assert_eq!(second.route, ReplyRoute { id: 1 });
}

#[test]
fn rectangles_that_cannot_be_drawn_fail_and_send_nothing() {
    let mut c = context();
    let own = HTMLImageElementOrHTMLCanvasElementOrCanvasRenderingContext2D::HTMLCanvasElement(canvas(1, 300, 150));
    assert_eq!(c.draw_image(own, d(-1.0), d(0.0)), Err(Error::IndexSize));
    let own = HTMLImageElementOrHTMLCanvasElementOrCanvasRenderingContext2D::HTMLCanvasElement(canvas(1, 300, 150));
    assert_eq!(c.draw_image_(own, d(0.0), d(0.0), d(0.0), d(10.0)), Err(Error::IndexSize));
    let own = HTMLImageElementOrHTMLCanvasElementOrCanvasRenderingContext2D::HTMLCanvasElement(canvas(1, 300, 150));
    assert_eq!(c.draw_image_(own, d(0.0), d(0.0), d(10.0), d(-10.0)), Err(Error::IndexSize));
    let other = HTMLImageElementOrHTMLCanvasElementOrCanvasRenderingContext2D::HTMLCanvasElement(canvas(2, 40, 40));
    assert_eq!(
        c.draw_image__(other, d(40.0), d(0.0), d(5.0), d(5.0), d(0.0), d(0.0), d(5.0), d(5.0)),
        Err(Error::IndexSize)
    );
    let other = HTMLImageElementOrHTMLCanvasElementOrCanvasRenderingContext2D::HTMLCanvasElement(canvas(2, 40, 40));
    assert_eq!(
        c.draw_image__(other, d(-3.0), d(0.0), d(2.0), d(5.0), d(0.0), d(0.0), d(5.0), d(5.0)),
        Err(Error::IndexSize)
    );
    // one pixel of 49 is left, and 49 * (1 / 49) is below 1
    let other = HTMLImageElementOrHTMLCanvasElementOrCanvasRenderingContext2D::HTMLCanvasElement(canvas(2, 1, 1));
    assert_eq!(
        c.draw_image__(other, d(0.0), d(0.0), d(49.0), d(49.0), d(0.0), d(0.0), d(49.0), d(49.0)),
        Err(Error::IndexSize)
    );
    assert_eq!(commands(&mut c), vec![]);
    // no route was taken by the calls that failed
    let other = HTMLImageElementOrHTMLCanvasElementOrCanvasRenderingContext2D::HTMLCanvasElement(canvas(2, 40, 40));
    assert_eq!(c.draw_image(other, d(0.0), d(0.0)).unwrap().unwrap().route, ReplyRoute { id: 0 });
}

#[test]
fn a_canvas_without_pixels_draws_nothing() {
    let mut c = context();
    for (w, h) in [(0, 10), (10, 0), (0, 0)] {
        let empty = HTMLImageElementOrHTMLCanvasElementOrCanvasRenderingContext2D::HTMLCanvasElement(canvas(2, w, h));
        assert_eq!(c.draw_image(empty, d(5.0), d(0.0)), Ok(None));
        let empty = HTMLImageElementOrHTMLCanvasElementOrCanvasRenderingContext2D::HTMLCanvasElement(canvas(1, w, h));
        assert_eq!(c.draw_image_(empty, d(1.0), d(2.0), d(3.0), d(4.0)), Ok(None));
    }
    assert_eq!(commands(&mut c), vec![]);
}

#[test]
fn an_image_element_is_not_drawn() {
    let mut c = context();
    let unknown = || Err(Error::TypeError("Unknown type".to_owned()));
    assert_eq!(
        c.draw_image(HTMLImageElementOrHTMLCanvasElementOrCanvasRenderingContext2D::HTMLImageElement, d(0.0), d(0.0)),
        unknown()
    );
    assert_eq!(
        c.draw_image_(
            HTMLImageElementOrHTMLCanvasElementOrCanvasRenderingContext2D::HTMLImageElement,
            d(0.0),
            d(0.0),
            d(1.0),
            d(1.0)
        ),
        unknown()
    );
    assert_eq!(
        c.draw_image__(
            HTMLImageElementOrHTMLCanvasElementOrCanvasRenderingContext2D::HTMLImageElement,
            d(0.0),
            d(0.0),
            d(1.0),
            d(1.0),
            d(0.0),
            d(0.0),
            d(1.0),
            d(1.0)
        ),
        unknown()
    );
    assert_eq!(commands(&mut c), vec![]);
}

#[test]
fn creating_image_data() {
    let c = context();
    assert_eq!(c.create_image_data(d(0.0), d(10.0)).err(), Some(Error::IndexSize));
    assert_eq!(c.create_image_data(d(10.0), d(-0.0)).err(), Some(Error::IndexSize));
    let image = c.create_image_data(d(5.0), d(5.0)).unwrap();
    assert_eq!((image.width(), image.height()), (5, 5));
    assert_eq!(image.get_data_array(), vec![0u8; 100]);
    let image = c.create_image_data(d(-3.9), d(2.5)).unwrap();
    assert_eq!((image.width(), image.height()), (3, 2));
    assert_eq!(image.get_data_array(), vec![0u8; 24]);
    let image = c.create_image_data(d(0.5), d(7.0)).unwrap();
    assert_eq!((image.width(), image.height()), (0, 7));
    assert_eq!(image.get_data_array(), vec![]);
    let full = ImageData::new(2, 1, Some(vec![1, 2, 3, 4, 5, 6, 7, 8]));
    let copy = c.create_image_data_(&full).unwrap();
    assert_eq!((copy.width(), copy.height()), (2, 1));
    assert_eq!(copy.get_data_array(), vec![0u8; 8]);
}

#[test]
fn image_data_is_made_of_the_bytes_it_is_given() {
    let image = ImageData::new(1, 2, Some(vec![1, 2, 3, 4, 5, 6, 7, 8]));
    assert_eq!(image.get_data_array(), vec![1, 2, 3, 4, 5, 6, 7, 8]);
    assert_eq!(image.byte_length(), 8);
    assert_eq!(image.get_size(), Size2D { width: 1, height: 2 });
    let short = ImageData::new(1, 2, Some(vec![1, 2, 3]));
    assert_eq!(short.get_data_array(), vec![1, 2, 3, 0, 0, 0, 0, 0]);
    let long = ImageData::new(1, 1, Some(vec![1, 2, 3, 4, 5, 6]));
    assert_eq!(long.get_data_array(), vec![1, 2, 3, 4]);
    let none = ImageData::new(0, 3, Some(vec![1, 2, 3, 4, 5, 6]));
    assert_eq!(none.get_data_array(), vec![]);
}

#[test]
fn reading_pixels_is_a_request_and_an_answer() {
    let mut c = context();
    assert_eq!(c.get_image_data(d(1.0), d(2.0), d(0.0), d(4.0)), Err(Error::IndexSize));
    assert_eq!(c.get_image_data(d(1.0), d(2.0), d(3.0), d(-0.0)), Err(Error::IndexSize));
    assert_eq!(commands(&mut c), vec![]);
    let pending = c.get_image_data(d(1.7), d(2.2), d(2.9), d(1.0)).unwrap();
    assert_eq!(pending, PendingImageData { route: ReplyRoute { id: 0 }, width: 2, height: 1 });
    assert_eq!(
        commands(&mut c),
        vec![CanvasMsg::GetImageData(rect(1, 2, 2, 1), Size2D { width: 300, height: 150 }, ReplyRoute { id: 0 })]
    );
    let stray = ImageDataReply { route: ReplyRoute { id: 1 }, data: vec![0; 8] };
    assert_eq!(pending.receive(stray).err(), Some(pending));
    let reply = ImageDataReply { route: ReplyRoute { id: 0 }, data: vec![1, 2, 3, 4, 5, 6, 7, 8] };
    let image = pending.receive(reply).ok().unwrap();
    assert_eq!((image.width(), image.height()), (2, 1));
    assert_eq!(image.get_data_array(), vec![1, 2, 3, 4, 5, 6, 7, 8]);
    // a rectangle of negative extent is asked for as it is, and the block has its magnitude
    let pending = c.get_image_data(d(5.0), d(5.0), d(-2.0), d(-3.0)).unwrap();
    assert_eq!(pending, PendingImageData { route: ReplyRoute { id: 1 }, width: 2, height: 3 });
    assert_eq!(
        commands(&mut c),
        vec![CanvasMsg::GetImageData(rect(5, 5, -2, -3), Size2D { width: 300, height: 150 }, ReplyRoute { id: 1 })]
    );
    let image = pending.receive(ImageDataReply { route: ReplyRoute { id: 1 }, data: vec![] }).ok().unwrap();
    assert_eq!(image.get_data_array(), vec![0u8; 24]);
}

#[test]
fn putting_pixels_sends_the_whole_block() {
    let mut c = context();
    let image = ImageData::new(2, 1, Some(vec![1, 2, 3, 4, 5, 6, 7, 8]));
    assert_eq!(c.put_image_data(&image, d(3.9), d(-4.9)), Ok(()));
    assert_eq!(c.put_image_data_(&image, d(3.0), d(4.0), d(1.5), d(0.0), d(1.0), d(-1.0)), Ok(()));
    assert_eq!(
        commands(&mut c),
        vec![
            CanvasMsg::PutImageData(vec![1, 2, 3, 4, 5, 6, 7, 8], rect(3, -4, 2, 1), None),
            CanvasMsg::PutImageData(vec![1, 2, 3, 4, 5, 6, 7, 8], rect(3, 4, 2, 1), Some(rect(1, 0, 1, -1))),
        ]
    );
}

#[test]
fn what_was_put_comes_back_from_a_worker_that_returns_it() {
    let mut c = context();
    let bytes: Vec<u8> = (0..48).collect();
    let image = ImageData::new(4, 3, Some(bytes.clone()));
    assert_eq!(c.put_image_data(&image, d(0.0), d(0.0)), Ok(()));
    let sent = match c.next_command() {
        Some(CanvasMsg::PutImageData(data, r, None)) => {
            assert_eq!(r, rect(0, 0, 4, 3));
            data
        }
        other => panic!("{:?}", other),
    };
    let pending = c.get_image_data(d(0.0), d(0.0), d(4.0), d(3.0)).unwrap();
    let route = match c.next_command() {
        Some(CanvasMsg::GetImageData(r, _, route)) => {
            assert_eq!(r, rect(0, 0, 4, 3));
            route
        }
        other => panic!("{:?}", other),
    };
    let back = pending.receive(ImageDataReply { route, data: sent }).ok().unwrap();
    assert_eq!(back.get_data_array(), bytes);
    assert_eq!(back.get_data_array(), image.get_data_array());
}

#[test]
fn close_is_the_last_command() {
    let mut c = context();
    assert_eq!(c.fill(CanvasWindingRule::Nonzero), Ok(()));
    assert_eq!(c.close(), Ok(()));
    assert!(!c.get_renderer().is_open());
    assert_eq!(c.close(), Err(Error::Disconnected));
    assert_eq!(c.fill(CanvasWindingRule::Nonzero), Err(Error::Disconnected));
    assert_eq!(c.fill_rect(d(0.0), d(0.0), d(1.0), d(1.0)), Err(Error::Disconnected));
    assert_eq!(c.scale(d(2.0), d(2.0)), Err(Error::Disconnected));
    assert_eq!(c.set_fill_style(color("red")), Err(Error::Disconnected));
    assert_eq!(c.recreate(Size2D { width: 1, height: 1 }), Err(Error::Disconnected));
    assert_eq!(c.get_image_data(d(0.0), d(0.0), d(1.0), d(1.0)), Err(Error::Disconnected));
    let own = HTMLImageElementOrHTMLCanvasElementOrCanvasRenderingContext2D::HTMLCanvasElement(canvas(1, 300, 150));
    assert_eq!(c.draw_image(own, d(0.0), d(0.0)), Err(Error::Disconnected));
    // a string that is no colour sends nothing, and so does not fail
    assert_eq!(c.set_fill_style(color("not-a-color")), Ok(()));
    assert_eq!(text(c.fill_style()), "rgb(0, 0, 0)");
    assert_eq!(c.canvas(), canvas(1, 300, 150));
    assert_eq!(commands(&mut c), vec![CanvasMsg::Fill, CanvasMsg::Close]);
}

#[test]
fn nothing_is_sent_to_a_worker_that_is_gone() {
    let mut c = context();
    assert_eq!(c.begin_path(), Ok(()));
    c.renderer_lost();
    assert!(!c.get_renderer().is_open());
    assert_eq!(c.fill(CanvasWindingRule::Nonzero), Err(Error::Disconnected));
    assert_eq!(c.set_transform(d(1.0), d(0.0), d(0.0), d(1.0), d(5.0), d(5.0)), Err(Error::Disconnected));
    assert_eq!(c.close(), Err(Error::Disconnected));
    let image = ImageData::new(1, 1, None);
    assert_eq!(c.put_image_data(&image, d(0.0), d(0.0)), Err(Error::Disconnected));
    let pending = PendingDrawImage {
        source: canvas(2, 4, 4),
        route: ReplyRoute { id: 3 },
        dest_rect: rect(0, 0, 1, 1),
        source_rect: rect(0, 0, 1, 1),
        smoothing_enabled: true,
    };
    let reply = ImageDataReply { route: ReplyRoute { id: 3 }, data: vec![0; 4] };
    assert_eq!(c.finish_draw_image(pending, reply), Err(Error::Disconnected));
    assert_eq!(commands(&mut c), vec![CanvasMsg::BeginPath]);
}
