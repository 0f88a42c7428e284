//! The drawing context of a canvas: the state that scripts set, and the commands that their
//! calls send to the rendering worker.
//!
//! The context never touches pixels. Every drawing call becomes a command on the channel to the
//! worker, in the order of the calls. Where pixels are read, the call is in two parts: the first
//! sends the request and names the route of the answer, the second takes the answer.

use vstd::prelude::*;
use crate::canvas_msg::{CanvasMsg, CanvasMsgView, CommandChannel, CommandChannelView, ReplyRoute};
use crate::color::{parse_color, spec_parse_color, RGBA};
use crate::double::Double;
use crate::draw_image::spec_adjust_source_dest_rects;
use crate::error::Error;
use crate::geometry::{
    is_rect_valid, rect, spec_is_rect_valid, spec_rect, Point2D, Rect, Size2D,
};
use crate::image_data::{spec_buffer, ImageData, ImageDataView};
use crate::matrix::Matrix2D;
use crate::single::Single;
use crate::style::{
    CanvasGradient, CanvasGradientStyle, CanvasGradientStyleView, CanvasGradientView,
    FillOrStrokeStyle, FillOrStrokeStyleView, LinearGradientStyle, LinearGradientStyleView,
    RadialGradientStyle, RadialGradientStyleView,
};

verus! {

/// What a context knows of a canvas element: which one it is, and its size in pixels.
#[derive(Clone, Copy, Debug, PartialEq, Eq, Structural)]
pub struct HTMLCanvasElement {
    pub id: u64,
    pub size: Size2D<i32>,
}

impl HTMLCanvasElement {
    /// A canvas of no width or no height has nothing to draw from.
    pub open spec fn spec_is_valid(self) -> bool {
        self.size.height != 0 && self.size.width != 0
    }

    #[verifier::when_used_as_spec(spec_is_valid)]
    pub fn is_valid(self) -> (r: bool)
        ensures
            r == self.spec_is_valid(),
    {
        self.size.height != 0 && self.size.width != 0
    }

    pub fn get_size(self) -> (r: Size2D<i32>)
        ensures
            r == self.size,
    {
        self.size
    }
}

/// What `drawImage` can be given as its image.
pub enum HTMLImageElementOrHTMLCanvasElementOrCanvasRenderingContext2D<'a> {
    HTMLImageElement,
    HTMLCanvasElement(HTMLCanvasElement),
    CanvasRenderingContext2D(&'a CanvasRenderingContext2D),
}

/// What a fill or stroke style can be set to, and what is read back.
#[derive(Debug, PartialEq, Eq)]
pub enum StringOrCanvasGradientOrCanvasPattern {
    String(String),
    CanvasGradient(CanvasGradient),
    CanvasPattern,
}

/// The rule by which a path with crossings is filled.
#[derive(Clone, Copy, Debug, PartialEq, Eq, Structural)]
pub enum CanvasWindingRule {
    Nonzero,
    Evenodd,
}

/// What a rendering worker answers to a read of pixels.
#[derive(Debug, PartialEq, Eq)]
pub struct ImageDataReply {
    pub route: ReplyRoute,
    pub data: Vec<u8>,
}

/// A read of pixels that was asked for by `get_image_data` and is not answered yet.
#[derive(Clone, Copy, Debug, PartialEq, Eq, Structural)]
pub struct PendingImageData {
    pub route: ReplyRoute,
    pub width: u32,
    pub height: u32,
}

/// A `drawImage` from another canvas that waits for the pixels of that canvas.
#[derive(Clone, Copy, Debug, PartialEq, Eq, Structural)]
pub struct PendingDrawImage {
    /// The canvas to read from.
    pub source: HTMLCanvasElement,
    pub route: ReplyRoute,
    pub dest_rect: Rect<i32>,
    pub source_rect: Rect<i32>,
    pub smoothing_enabled: bool,
}

pub struct CanvasRenderingContext2D {
    renderer: CommandChannel,
    canvas: HTMLCanvasElement,
    image_smoothing_enabled: bool,
    stroke_color: RGBA,
    fill_color: RGBA,
    transform: Matrix2D,
    next_route: u64,
}

pub struct CanvasRenderingContext2DView {
    pub renderer: CommandChannelView,
    pub canvas: HTMLCanvasElement,
    pub image_smoothing_enabled: bool,
    pub stroke_color: RGBA,
    pub fill_color: RGBA,
    pub transform: Matrix2D,
    /// The number of the route of the next read.
    pub next_route: u64,
}

impl View for CanvasRenderingContext2D {
    type V = CanvasRenderingContext2DView;

    closed spec fn view(&self) -> CanvasRenderingContext2DView {
        CanvasRenderingContext2DView {
            renderer: self.renderer@,
            canvas: self.canvas,
            image_smoothing_enabled: self.image_smoothing_enabled,
            stroke_color: self.stroke_color,
            fill_color: self.fill_color,
            transform: self.transform,
            next_route: self.next_route,
        }
    }
}

/// The rectangle of four binary64 numbers, each rounded to binary32.
pub open spec fn spec_rect32(x: Double, y: Double, width: Double, height: Double) -> Rect<Single> {
    spec_rect(
        Single::spec_from_double(x),
        Single::spec_from_double(y),
        Single::spec_from_double(width),
        Single::spec_from_double(height),
    )
}

/// The point of two binary64 numbers, each rounded to binary32.
pub open spec fn spec_point32(x: Double, y: Double) -> Point2D<Single> {
    Point2D { x: Single::spec_from_double(x), y: Single::spec_from_double(y) }
}

/// The matrix of six binary64 numbers, each rounded to binary32.
pub open spec fn spec_matrix32(
    a: Double,
    b: Double,
    c: Double,
    d: Double,
    e: Double,
    f: Double,
) -> Matrix2D {
    Matrix2D::spec_new(
        Single::spec_from_double(a),
        Single::spec_from_double(b),
        Single::spec_from_double(c),
        Single::spec_from_double(d),
        Single::spec_from_double(e),
        Single::spec_from_double(f),
    )
}

/// The number of the route after `route`.
pub open spec fn spec_next_route(route: u64) -> u64 {
    if route == u64::MAX {
        0
    } else {
        (route + 1) as u64
    }
}

/// The rectangle of a read or a write of pixels: each of the four numbers is made an `i32`.
pub open spec fn spec_pixel_rect(x: Double, y: Double, width: Double, height: Double) -> Rect<i32> {
    spec_rect(x.spec_to_i32(), y.spec_to_i32(), width.spec_to_i32(), height.spec_to_i32())
}

/// Whether none of the numbers is NaN or an infinity.
pub open spec fn are_finite(numbers: Seq<Double>) -> bool {
    forall|i: int| 0 <= i < numbers.len() ==> (#[trigger] numbers[i]).spec_is_finite()
}

impl CanvasRenderingContext2DView {
    /// A context as it is made for a canvas.
    pub open spec fn initial(canvas: HTMLCanvasElement) -> CanvasRenderingContext2DView {
        CanvasRenderingContext2DView {
            renderer: CommandChannelView { pending: Seq::empty(), open: true },
            canvas,
            image_smoothing_enabled: true,
            stroke_color: RGBA::spec_black(),
            fill_color: RGBA::spec_black(),
            transform: Matrix2D::spec_identity(),
            next_route: 0,
        }
    }

    /// The context after `msg` was sent to its worker.
    pub open spec fn sent(self, msg: CanvasMsgView) -> CanvasRenderingContext2DView {
        CanvasRenderingContext2DView { renderer: self.renderer.sent(msg), ..self }
    }

    /// How a call ends that changes the context to `changed` and sends `msg`: so where the
    /// channel is open; else it fails with `Disconnected` and changes nothing.
    pub open spec fn ends(
        self,
        changed: CanvasRenderingContext2DView,
        msg: CanvasMsgView,
        after: CanvasRenderingContext2DView,
        result: Result<(), Error>,
    ) -> bool {
        if self.renderer.open {
            result is Ok && after == changed.sent(msg)
        } else {
            result == Err::<(), Error>(Error::Disconnected) && after == self
        }
    }

    /// How a call ends that sends `msg` and changes nothing else.
    pub open spec fn issues(
        self,
        msg: CanvasMsgView,
        after: CanvasRenderingContext2DView,
        result: Result<(), Error>,
    ) -> bool {
        self.ends(self, msg, after, result)
    }

    /// The context with another transform.
    pub open spec fn with_transform(self, transform: Matrix2D) -> CanvasRenderingContext2DView {
        CanvasRenderingContext2DView { transform, ..self }
    }

    /// How a call ends that sets the transform to `transform`: the worker is sent the new
    /// transform whole.
    pub open spec fn transforms(
        self,
        transform: Matrix2D,
        after: CanvasRenderingContext2DView,
        result: Result<(), Error>,
    ) -> bool {
        self.ends(self.with_transform(transform), CanvasMsgView::SetTransform(transform), after, result)
    }

    /// How setting the fill style to a string ends, given what the string was read as. A
    /// string that is a colour sets the fill colour and is sent to the worker. Another one
    /// changes nothing and sends nothing, and the call succeeds.
    pub open spec fn fill_color_set(
        self,
        parsed: Result<RGBA, ()>,
        after: CanvasRenderingContext2DView,
        result: Result<(), Error>,
    ) -> bool {
        match parsed {
            Ok(rgba) => self.ends(
                CanvasRenderingContext2DView { fill_color: rgba, ..self },
                CanvasMsgView::SetFillStyle(FillOrStrokeStyleView::Color(rgba)),
                after,
                result,
            ),
            Err(_) => result is Ok && after == self,
        }
    }

    /// As `fill_color_set`, for the stroke style.
    pub open spec fn stroke_color_set(
        self,
        parsed: Result<RGBA, ()>,
        after: CanvasRenderingContext2DView,
        result: Result<(), Error>,
    ) -> bool {
        match parsed {
            Ok(rgba) => self.ends(
                CanvasRenderingContext2DView { stroke_color: rgba, ..self },
                CanvasMsgView::SetStrokeStyle(FillOrStrokeStyleView::Color(rgba)),
                after,
                result,
            ),
            Err(_) => result is Ok && after == self,
        }
    }

    /// The context after it gave out the route of a read.
    pub open spec fn route_taken(self) -> CanvasRenderingContext2DView {
        CanvasRenderingContext2DView { next_route: spec_next_route(self.next_route), ..self }
    }

    /// How drawing from a canvas ends.
    ///
    /// From a canvas that is not valid nothing is drawn, and the call succeeds. Else the two
    /// rectangles are those of `spec_adjust_source_dest_rects`, and where one of them cannot
    /// be drawn the call fails with `IndexSize`. Neither case sends a command.
    ///
    /// From the context's own canvas one command `DrawImageSelf` is sent. From another canvas
    /// nothing is sent yet: the call takes a route and returns the read that is to be made of
    /// that canvas.
    pub open spec fn draws(
        self,
        canvas: HTMLCanvasElement,
        sx: Double,
        sy: Double,
        sw: Option<Double>,
        sh: Option<Double>,
        dx: Option<Double>,
        dy: Option<Double>,
        dw: Option<Double>,
        dh: Option<Double>,
        after: CanvasRenderingContext2DView,
        result: Result<Option<PendingDrawImage>, Error>,
    ) -> bool {
        if !canvas.spec_is_valid() {
            result == Ok::<Option<PendingDrawImage>, Error>(None) && after == self
        } else {
            let (source_rect, dest_rect) = spec_adjust_source_dest_rects(
                canvas.size,
                sx,
                sy,
                sw,
                sh,
                dx,
                dy,
                dw,
                dh,
            );
            if !spec_is_rect_valid(source_rect) || !spec_is_rect_valid(dest_rect) {
                result == Err::<Option<PendingDrawImage>, Error>(Error::IndexSize) && after == self
            } else if canvas.id == self.canvas.id {
                if self.renderer.open {
                    result == Ok::<Option<PendingDrawImage>, Error>(None) && after == self.sent(
                        CanvasMsgView::DrawImageSelf(
                            canvas.size,
                            dest_rect,
                            source_rect,
                            self.image_smoothing_enabled,
                        ),
                    )
                } else {
                    result == Err::<Option<PendingDrawImage>, Error>(Error::Disconnected) && after
                        == self
                }
            } else {
                result == Ok::<Option<PendingDrawImage>, Error>(
                    Some(
                        PendingDrawImage {
                            source: canvas,
                            route: ReplyRoute { id: self.next_route },
                            dest_rect,
                            source_rect,
                            smoothing_enabled: self.image_smoothing_enabled,
                        },
                    ),
                ) && after == self.route_taken()
            }
        }
    }
}

impl PendingDrawImage {
    /// The command that asks the worker of the source canvas for the pixels.
    pub open spec fn spec_request(self) -> CanvasMsgView {
        CanvasMsgView::GetImageData(self.source_rect, self.source.size, self.route)
    }

    pub fn request(self) -> (r: CanvasMsg)
        ensures
            r@ == self.spec_request(),
    {
        CanvasMsg::GetImageData(self.source_rect, self.source.size, self.route)
    }

    /// The command that draws the pixels once they are there.
    pub open spec fn spec_command(self, data: Seq<u8>) -> CanvasMsgView {
        CanvasMsgView::DrawImage(
            data,
            self.source.size,
            self.dest_rect,
            self.source_rect,
            self.smoothing_enabled,
        )
    }
}

impl PendingImageData {
    /// Takes an answer. One that came on the route of this read makes the block of pixels, of
    /// the width and height that the read was asked with. One that came on another route is
    /// not taken, and the read goes on waiting.
    pub fn receive(self, reply: ImageDataReply) -> (r: Result<ImageData, PendingImageData>)
        requires
            4 * self.width * self.height <= usize::MAX,
        ensures
            match r {
                Ok(image) => reply.route == self.route && image@ == (ImageDataView {
                    width: self.width,
                    height: self.height,
                    data: spec_buffer(self.width, self.height, Some(reply.data@)),
                }),
                Err(pending) => reply.route != self.route && pending == self,
            },
    {
        if reply.route.id == self.route.id {
            Ok(ImageData::new(self.width, self.height, Some(reply.data)))
        } else {
            Err(self)
        }
    }
}

/// Narrows a rectangle to binary32.
pub fn rect32(x: Double, y: Double, width: Double, height: Double) -> (r: Rect<Single>)
    ensures
        r == spec_rect32(x, y, width, height),
{
    rect(
        Single::from_double(x),
        Single::from_double(y),
        Single::from_double(width),
        Single::from_double(height),
    )
}

/// Narrows a point to binary32.
pub fn point32(x: Double, y: Double) -> (r: Point2D<Single>)
    ensures
        r == spec_point32(x, y),
{
    Point2D { x: Single::from_double(x), y: Single::from_double(y) }
}

/// Narrows a matrix to binary32.
pub fn matrix32(a: Double, b: Double, c: Double, d: Double, e: Double, f: Double) -> (r: Matrix2D)
    ensures
        r == spec_matrix32(a, b, c, d, e, f),
{
    Matrix2D::new(
        Single::from_double(a),
        Single::from_double(b),
        Single::from_double(c),
        Single::from_double(d),
        Single::from_double(e),
        Single::from_double(f),
    )
}

/// Access to the channel of a context.
pub trait CanvasRenderingContext2DHelpers {
    spec fn spec_renderer(&self) -> CommandChannelView;

    /// The channel to the rendering worker.
    fn get_renderer(&self) -> (r: &CommandChannel)
        ensures
            r@ == self.spec_renderer(),
    ;
}

impl CanvasRenderingContext2DHelpers for CanvasRenderingContext2D {
    open spec fn spec_renderer(&self) -> CommandChannelView {
        self@.renderer
    }

    fn get_renderer(&self) -> (r: &CommandChannel) {
        &self.renderer
    }
}

impl CanvasRenderingContext2D {
    fn new_inherited(canvas: HTMLCanvasElement) -> (r: CanvasRenderingContext2D)
        ensures
            r@ == CanvasRenderingContext2DView::initial(canvas),
    {
        CanvasRenderingContext2D {
            renderer: CommandChannel::new(),
            canvas,
            image_smoothing_enabled: true,
            stroke_color: RGBA::black(),
            fill_color: RGBA::black(),
            transform: Matrix2D::identity(),
            next_route: 0,
        }
    }

    /// The context of a canvas: its channel is open and empty, its transform is the identity,
    /// its colours are opaque black, and it smooths images.
    pub fn new(canvas: HTMLCanvasElement) -> (r: CanvasRenderingContext2D)
        ensures
            r@ == CanvasRenderingContext2DView::initial(canvas),
    {
        CanvasRenderingContext2D::new_inherited(canvas)
    }

    /// Sends a command on the channel.
    fn send(&mut self, msg: CanvasMsg) -> (r: Result<(), Error>)
        ensures
            old(self)@.issues(msg@, final(self)@, r),
    {
        self.renderer.send(msg)
    }

    /// Tells the worker that the canvas has another size.
    pub fn recreate(&mut self, size: Size2D<i32>) -> (r: Result<(), Error>)
        ensures
            old(self)@.ends(
                CanvasRenderingContext2DView {
                    canvas: HTMLCanvasElement { id: old(self)@.canvas.id, size },
                    ..old(self)@
                },
                CanvasMsgView::Recreate(size),
                final(self)@,
                r,
            ),
    {
        if !self.renderer.is_open() {
            return Err(Error::Disconnected);
        }
        self.canvas = HTMLCanvasElement { id: self.canvas.id, size };
        self.send(CanvasMsg::Recreate(size))
    }

    /// Sends the transform to the worker.
    fn update_transform(&mut self) -> (r: Result<(), Error>)
        ensures
            old(self)@.issues(CanvasMsgView::SetTransform(old(self)@.transform), final(self)@, r),
    {
        self.send(CanvasMsg::SetTransform(self.transform))
    }

    /// Sets the transform and sends it to the worker.
    fn replace_transform(&mut self, transform: Matrix2D) -> (r: Result<(), Error>)
        ensures
            old(self)@.transforms(transform, final(self)@, r),
    {
        if !self.renderer.is_open() {
            return Err(Error::Disconnected);
        }
        self.transform = transform;
        self.update_transform()
    }

    /// The canvas that the context draws on.
    pub fn canvas(&self) -> (r: HTMLCanvasElement)
        ensures
            r == self@.canvas,
    {
        self.canvas
    }

    /// Scales what is drawn from now on by `x` and `y` along the axes.
    pub fn scale(&mut self, x: Double, y: Double) -> (r: Result<(), Error>)
        ensures
            old(self)@.transforms(
                old(self)@.transform.spec_scale(
                    Single::spec_from_double(x),
                    Single::spec_from_double(y),
                ),
                final(self)@,
                r,
            ),
    {
        let transform = self.transform.scale(Single::from_double(x), Single::from_double(y));
        self.replace_transform(transform)
    }

    /// Moves what is drawn from now on by `(x, y)`.
    pub fn translate(&mut self, x: Double, y: Double) -> (r: Result<(), Error>)
        ensures
            old(self)@.transforms(
                old(self)@.transform.spec_translate(
                    Single::spec_from_double(x),
                    Single::spec_from_double(y),
                ),
                final(self)@,
                r,
            ),
    {
        let transform = self.transform.translate(Single::from_double(x), Single::from_double(y));
        self.replace_transform(transform)
    }

    /// Applies the matrix of the six numbers before the transform that is there.
    pub fn transform(&mut self, a: Double, b: Double, c: Double, d: Double, e: Double, f: Double) -> (r:
        Result<(), Error>)
        ensures
            old(self)@.transforms(
                old(self)@.transform.spec_mul(spec_matrix32(a, b, c, d, e, f)),
                final(self)@,
                r,
            ),
    {
        let transform = self.transform.mul(matrix32(a, b, c, d, e, f));
        self.replace_transform(transform)
    }

    /// Puts the matrix of the six numbers in the place of the transform.
    pub fn set_transform(
        &mut self,
        a: Double,
        b: Double,
        c: Double,
        d: Double,
        e: Double,
        f: Double,
    ) -> (r: Result<(), Error>)
        ensures
            old(self)@.transforms(spec_matrix32(a, b, c, d, e, f), final(self)@, r),
    {
        self.replace_transform(matrix32(a, b, c, d, e, f))
    }

    /// Fills a rectangle with the fill style.
    pub fn fill_rect(&mut self, x: Double, y: Double, width: Double, height: Double) -> (r: Result<
        (),
        Error,
    >)
        ensures
            old(self)@.issues(
                CanvasMsgView::FillRect(spec_rect32(x, y, width, height)),
                final(self)@,
                r,
            ),
    {
        self.send(CanvasMsg::FillRect(rect32(x, y, width, height)))
    }

    /// Clears a rectangle to transparent black.
    pub fn clear_rect(&mut self, x: Double, y: Double, width: Double, height: Double) -> (r: Result<
        (),
        Error,
    >)
        ensures
            old(self)@.issues(
                CanvasMsgView::ClearRect(spec_rect32(x, y, width, height)),
                final(self)@,
                r,
            ),
    {
        self.send(CanvasMsg::ClearRect(rect32(x, y, width, height)))
    }

    /// Strokes the outline of a rectangle with the stroke style.
    pub fn stroke_rect(&mut self, x: Double, y: Double, width: Double, height: Double) -> (r: Result<
        (),
        Error,
    >)
        ensures
            old(self)@.issues(
                CanvasMsgView::StrokeRect(spec_rect32(x, y, width, height)),
                final(self)@,
                r,
            ),
    {
        self.send(CanvasMsg::StrokeRect(rect32(x, y, width, height)))
    }

    /// Starts a new path.
    pub fn begin_path(&mut self) -> (r: Result<(), Error>)
        ensures
            old(self)@.issues(CanvasMsgView::BeginPath, final(self)@, r),
    {
        self.send(CanvasMsg::BeginPath)
    }

    /// Closes the current part of the path.
    pub fn close_path(&mut self) -> (r: Result<(), Error>)
        ensures
            old(self)@.issues(CanvasMsgView::ClosePath, final(self)@, r),
    {
        self.send(CanvasMsg::ClosePath)
    }

    /// Fills the path. The rule is taken and not sent: the command carries none.
    pub fn fill(&mut self, _rule: CanvasWindingRule) -> (r: Result<(), Error>)
        ensures
            old(self)@.issues(CanvasMsgView::Fill, final(self)@, r),
    {
        self.send(CanvasMsg::Fill)
    }

    /// Starts a new part of the path at `(x, y)`.
    pub fn move_to(&mut self, x: Double, y: Double) -> (r: Result<(), Error>)
        ensures
            old(self)@.issues(CanvasMsgView::MoveTo(spec_point32(x, y)), final(self)@, r),
    {
        self.send(CanvasMsg::MoveTo(point32(x, y)))
    }

    /// Adds a line to `(x, y)` to the path.
    pub fn line_to(&mut self, x: Double, y: Double) -> (r: Result<(), Error>)
        ensures
            old(self)@.issues(CanvasMsgView::LineTo(spec_point32(x, y)), final(self)@, r),
    {
        self.send(CanvasMsg::LineTo(point32(x, y)))
    }

    /// Adds a quadratic curve to `(x, y)` with the control point `(cpx, cpy)`.
    pub fn quadratic_curve_to(&mut self, cpx: Double, cpy: Double, x: Double, y: Double) -> (r:
        Result<(), Error>)
        ensures
            old(self)@.issues(
                CanvasMsgView::QuadraticCurveTo(spec_point32(cpx, cpy), spec_point32(x, y)),
                final(self)@,
                r,
            ),
    {
        self.send(CanvasMsg::QuadraticCurveTo(point32(cpx, cpy), point32(x, y)))
    }

    /// Adds a cubic curve to `(x, y)` with the control points `(cp1x, cp1y)` and
    /// `(cp2x, cp2y)`.
    pub fn bezier_curve_to(
        &mut self,
        cp1x: Double,
        cp1y: Double,
        cp2x: Double,
        cp2y: Double,
        x: Double,
        y: Double,
    ) -> (r: Result<(), Error>)
        ensures
            old(self)@.issues(
                CanvasMsgView::BezierCurveTo(
                    spec_point32(cp1x, cp1y),
                    spec_point32(cp2x, cp2y),
                    spec_point32(x, y),
                ),
                final(self)@,
                r,
            ),
    {
        self.send(
            CanvasMsg::BezierCurveTo(point32(cp1x, cp1y), point32(cp2x, cp2y), point32(x, y)),
        )
    }

    /// Adds an arc of the circle of radius `r` round `(x, y)`, from the angle `start` to the
    /// angle `end`.
    pub fn arc(&mut self, x: Double, y: Double, r: Double, start: Double, end: Double, ccw: bool) -> (result:
        Result<(), Error>)
        ensures
            old(self)@.issues(
                CanvasMsgView::Arc(
                    spec_point32(x, y),
                    Single::spec_from_double(r),
                    Single::spec_from_double(start),
                    Single::spec_from_double(end),
                    ccw,
                ),
                final(self)@,
                result,
            ),
    {
        self.send(
            CanvasMsg::Arc(
                point32(x, y),
                Single::from_double(r),
                Single::from_double(start),
                Single::from_double(end),
                ccw,
            ),
        )
    }

    /// Whether images are smoothed when they are scaled.
    pub fn image_smoothing_enabled(&self) -> (r: bool)
        ensures
            r == self@.image_smoothing_enabled,
    {
        self.image_smoothing_enabled
    }

    /// Sets whether images are smoothed when they are scaled. The worker learns of it with
    /// the next image.
    pub fn set_image_smoothing_enabled(&mut self, value: bool)
        ensures
            final(self)@ == (CanvasRenderingContext2DView {
                image_smoothing_enabled: value,
                ..old(self)@
            }),
    {
        self.image_smoothing_enabled = value;
    }

    /// The two rectangles of drawing from `canvas`: the source cut down to the canvas, and the
    /// destination.
    pub fn adjust_source_dest_rects(
        &self,
        canvas: HTMLCanvasElement,
        sx: Double,
        sy: Double,
        sw: Option<Double>,
        sh: Option<Double>,
        dx: Option<Double>,
        dy: Option<Double>,
        dw: Option<Double>,
        dh: Option<Double>,
    ) -> (r: (Rect<i32>, Rect<i32>))
        requires
            dw is Some ==> sw is Some,
            dh is Some ==> sh is Some,
        ensures
            r == spec_adjust_source_dest_rects(canvas.size, sx, sy, sw, sh, dx, dy, dw, dh),
    {
        crate::draw_image::adjust_source_dest_rects(canvas.get_size(), sx, sy, sw, sh, dx, dy, dw, dh)
    }

    /// Draws from a canvas. See `draws` for what comes of it. A call that gives `dw` gives
    /// `sw`, and one that gives `dh` gives `sh`.
    pub fn draw_html_canvas_element(
        &mut self,
        canvas: HTMLCanvasElement,
        sx: Double,
        sy: Double,
        sw: Option<Double>,
        sh: Option<Double>,
        dx: Option<Double>,
        dy: Option<Double>,
        dw: Option<Double>,
        dh: Option<Double>,
    ) -> (r: Result<Option<PendingDrawImage>, Error>)
        requires
            dw is Some ==> sw is Some,
            dh is Some ==> sh is Some,
        ensures
            old(self)@.draws(canvas, sx, sy, sw, sh, dx, dy, dw, dh, final(self)@, r),
    {
        if !canvas.is_valid() {
            return Ok(None);
        }
        let (source_rect, dest_rect) = self.adjust_source_dest_rects(
            canvas,
            sx,
            sy,
            sw,
            sh,
            dx,
            dy,
            dw,
            dh,
        );
        if !is_rect_valid(source_rect) || !is_rect_valid(dest_rect) {
            return Err(Error::IndexSize);
        }
        let smoothing_enabled = self.image_smoothing_enabled;
        let canvas_size = canvas.get_size();
        if self.canvas.id == canvas.id {
            match self.send(
                CanvasMsg::DrawImageSelf(canvas_size, dest_rect, source_rect, smoothing_enabled),
            ) {
                Ok(()) => Ok(None),
                Err(e) => Err(Error::Disconnected),
            }
        } else {
            let route = self.take_route();
            Ok(
                Some(
                    PendingDrawImage {
                        source: canvas,
                        route,
                        dest_rect,
                        source_rect,
                        smoothing_enabled,
                    },
                ),
            )
        }
    }

    /// Gives out the route of a read.
    fn take_route(&mut self) -> (r: ReplyRoute)
        ensures
            r == (ReplyRoute { id: old(self)@.next_route }),
            final(self)@ == old(self)@.route_taken(),
    {
        let route = ReplyRoute { id: self.next_route };
        self.next_route = if self.next_route == u64::MAX {
            0
        } else {
            self.next_route + 1
        };
        route
    }

    /// Takes the answer to the read of a pending `drawImage`. With the answer on the route of
    /// the read, the pixels are sent to the worker to be drawn. An answer on another route is
    /// not taken, and the drawing goes on waiting.
    pub fn finish_draw_image(&mut self, pending: PendingDrawImage, reply: ImageDataReply) -> (r:
        Result<Option<PendingDrawImage>, Error>)
        ensures
            reply.route != pending.route ==> r == Ok::<Option<PendingDrawImage>, Error>(
                Some(pending),
            ) && final(self)@ == old(self)@,
            reply.route == pending.route ==> if old(self)@.renderer.open {
                r == Ok::<Option<PendingDrawImage>, Error>(None) && final(self)@ == old(self)@.sent(
                    pending.spec_command(reply.data@),
                )
            } else {
                r == Err::<Option<PendingDrawImage>, Error>(Error::Disconnected) && final(self)@
                    == old(self)@
            },
    {
        if reply.route.id != pending.route.id {
            return Ok(Some(pending));
        }
        match self.send(
            CanvasMsg::DrawImage(
                reply.data,
                pending.source.size,
                pending.dest_rect,
                pending.source_rect,
                pending.smoothing_enabled,
            ),
        ) {
            Ok(()) => Ok(None),
            Err(e) => Err(Error::Disconnected),
        }
    }
    /// Draws an image at `(dx, dy)` in its own size.
    pub fn draw_image(
        &mut self,
        image: HTMLImageElementOrHTMLCanvasElementOrCanvasRenderingContext2D,
        dx: Double,
        dy: Double,
    ) -> (r: Result<Option<PendingDrawImage>, Error>)
        ensures
            old(self)@.draws_image(
                image,
                dx,
                dy,
                None,
                None,
                None,
                None,
                None,
                None,
                final(self)@,
                r,
            ),
    {
        match image_canvas(image) {
            Some(canvas) => self.draw_html_canvas_element(
                canvas,
                dx,
                dy,
                None,
                None,
                None,
                None,
                None,
                None,
            ),
            None => Err(Error::TypeError("Unknown type".to_owned())),
        }
    }

    /// Draws an image into the rectangle `(dx, dy, dw, dh)`.
    pub fn draw_image_(
        &mut self,
        image: HTMLImageElementOrHTMLCanvasElementOrCanvasRenderingContext2D,
        dx: Double,
        dy: Double,
        dw: Double,
        dh: Double,
    ) -> (r: Result<Option<PendingDrawImage>, Error>)
        ensures
            old(self)@.draws_image(
                image,
                dx,
                dy,
                Some(dw),
                Some(dh),
                None,
                None,
                None,
                None,
                final(self)@,
                r,
            ),
    {
        match image_canvas(image) {
            Some(canvas) => self.draw_html_canvas_element(
                canvas,
                dx,
                dy,
                Some(dw),
                Some(dh),
                None,
                None,
                None,
                None,
            ),
            None => Err(Error::TypeError("Unknown type".to_owned())),
        }
    }

    /// Draws the part `(sx, sy, sw, sh)` of an image into the rectangle `(dx, dy, dw, dh)`.
    pub fn draw_image__(
        &mut self,
        image: HTMLImageElementOrHTMLCanvasElementOrCanvasRenderingContext2D,
        sx: Double,
        sy: Double,
        sw: Double,
        sh: Double,
        dx: Double,
        dy: Double,
        dw: Double,
        dh: Double,
    ) -> (r: Result<Option<PendingDrawImage>, Error>)
        ensures
            old(self)@.draws_image(
                image,
                sx,
                sy,
                Some(sw),
                Some(sh),
                Some(dx),
                Some(dy),
                Some(dw),
                Some(dh),
                final(self)@,
                r,
            ),
    {
        match image_canvas(image) {
            Some(canvas) => self.draw_html_canvas_element(
                canvas,
                sx,
                sy,
                Some(sw),
                Some(sh),
                Some(dx),
                Some(dy),
                Some(dw),
                Some(dh),
            ),
            None => Err(Error::TypeError("Unknown type".to_owned())),
        }
    }

    /// The stroke colour as CSS text.
    pub fn stroke_style(&self) -> (r: StringOrCanvasGradientOrCanvasPattern)
        ensures
            r matches StringOrCanvasGradientOrCanvasPattern::String(text) && text@
                == self@.stroke_color.spec_to_css(),
    {
        StringOrCanvasGradientOrCanvasPattern::String(self.stroke_color.to_css())
    }

    /// The fill colour as CSS text.
    pub fn fill_style(&self) -> (r: StringOrCanvasGradientOrCanvasPattern)
        ensures
            r matches StringOrCanvasGradientOrCanvasPattern::String(text) && text@
                == self@.fill_color.spec_to_css(),
    {
        StringOrCanvasGradientOrCanvasPattern::String(self.fill_color.to_css())
    }

    /// Sets the stroke colour to what a style string was read as, if it was read as a colour.
    pub fn apply_stroke_color(&mut self, parsed: Result<RGBA, ()>) -> (r: Result<(), Error>)
        ensures
            old(self)@.stroke_color_set(parsed, final(self)@, r),
    {
        match parsed {
            Ok(rgba) => {
                if !self.renderer.is_open() {
                    return Err(Error::Disconnected);
                }
                self.stroke_color = rgba;
                self.send(CanvasMsg::SetStrokeStyle(FillOrStrokeStyle::Color(rgba)))
            },
            Err(_) => Ok(()),
        }
    }

    /// Sets the fill colour to what a style string was read as, if it was read as a colour.
    pub fn apply_fill_color(&mut self, parsed: Result<RGBA, ()>) -> (r: Result<(), Error>)
        ensures
            old(self)@.fill_color_set(parsed, final(self)@, r),
    {
        match parsed {
            Ok(rgba) => {
                if !self.renderer.is_open() {
                    return Err(Error::Disconnected);
                }
                self.fill_color = rgba;
                self.send(CanvasMsg::SetFillStyle(FillOrStrokeStyle::Color(rgba)))
            },
            Err(_) => Ok(()),
        }
    }

    /// Sets the stroke style. A string is read as a CSS colour; one that is none changes
    /// nothing. A gradient is sent to the worker with its stops. A pattern changes nothing.
    pub fn set_stroke_style(&mut self, value: StringOrCanvasGradientOrCanvasPattern) -> (r: Result<
        (),
        Error,
    >)
        ensures
            match value {
                StringOrCanvasGradientOrCanvasPattern::String(text) => old(self)@.stroke_color_set(
                    spec_parse_color(text@),
                    final(self)@,
                    r,
                ),
                StringOrCanvasGradientOrCanvasPattern::CanvasGradient(gradient) => old(
                    self,
                )@.issues(
                    CanvasMsgView::SetStrokeStyle(gradient@.to_fill_or_stroke_style()),
                    final(self)@,
                    r,
                ),
                StringOrCanvasGradientOrCanvasPattern::CanvasPattern => r is Ok && final(self)@
                    == old(self)@,
            },
    {
        match value {
            StringOrCanvasGradientOrCanvasPattern::String(text) => {
                let parsed = parse_color(text.as_str());
                self.apply_stroke_color(parsed)
            },
            StringOrCanvasGradientOrCanvasPattern::CanvasGradient(gradient) => self.send(
                CanvasMsg::SetStrokeStyle(gradient.to_fill_or_stroke_style()),
            ),
            StringOrCanvasGradientOrCanvasPattern::CanvasPattern => Ok(()),
        }
    }

    /// Sets the fill style. A string is read as a CSS colour; one that is none changes nothing.
    /// A gradient is sent to the worker with its stops. A pattern changes nothing.
    pub fn set_fill_style(&mut self, value: StringOrCanvasGradientOrCanvasPattern) -> (r: Result<
        (),
        Error,
    >)
        ensures
            match value {
                StringOrCanvasGradientOrCanvasPattern::String(text) => old(self)@.fill_color_set(
                    spec_parse_color(text@),
                    final(self)@,
                    r,
                ),
                StringOrCanvasGradientOrCanvasPattern::CanvasGradient(gradient) => old(
                    self,
                )@.issues(
                    CanvasMsgView::SetFillStyle(gradient@.to_fill_or_stroke_style()),
                    final(self)@,
                    r,
                ),
                StringOrCanvasGradientOrCanvasPattern::CanvasPattern => r is Ok && final(self)@
                    == old(self)@,
            },
    {
        match value {
            StringOrCanvasGradientOrCanvasPattern::String(text) => {
                let parsed = parse_color(text.as_str());
                self.apply_fill_color(parsed)
            },
            StringOrCanvasGradientOrCanvasPattern::CanvasGradient(gradient) => self.send(
                CanvasMsg::SetFillStyle(gradient.to_fill_or_stroke_style()),
            ),
            StringOrCanvasGradientOrCanvasPattern::CanvasPattern => Ok(()),
        }
    }

    /// A block of zeros, as wide and as high as the magnitudes of `sw` and `sh` in whole
    /// pixels. A width or a height of zero fails with `IndexSize`. Else the bytes of the block
    /// must be countable.
    pub fn create_image_data(&self, sw: Double, sh: Double) -> (r: Result<ImageData, Error>)
        requires
            !sw.spec_is_zero() && !sh.spec_is_zero() ==> spec_block_fits(sw, sh),
        ensures
            match r {
                Ok(image) => !sw.spec_is_zero() && !sh.spec_is_zero() && image@ == (ImageDataView {
                    width: spec_block_extent(sw),
                    height: spec_block_extent(sh),
                    data: spec_buffer(spec_block_extent(sw), spec_block_extent(sh), None),
                }),
                Err(e) => (sw.spec_is_zero() || sh.spec_is_zero()) && e == Error::IndexSize,
            },
    {
        if sw.is_zero() || sh.is_zero() {
            return Err(Error::IndexSize);
        }
        Ok(ImageData::new(sw.abs().to_u32(), sh.abs().to_u32(), None))
    }

    /// A block of zeros of the size of another block.
    pub fn create_image_data_(&self, imagedata: &ImageData) -> (r: Result<ImageData, Error>)
        ensures
            r matches Ok(image) && image@ == (ImageDataView {
                width: imagedata@.width,
                height: imagedata@.height,
                data: spec_buffer(imagedata@.width, imagedata@.height, None),
            }),
    {
        let _ = imagedata.byte_length();
        Ok(ImageData::new(imagedata.width(), imagedata.height(), None))
    }

    /// Asks the worker for the pixels of a rectangle of the canvas. A width or a height of
    /// zero fails with `IndexSize`, and nothing is sent. Else the worker is sent the rectangle
    /// as it was given, of negative width or height too. The block that
    /// `PendingImageData::receive` makes of the answer is as wide and as high as the magnitudes
    /// of `sw` and `sh`.
    pub fn get_image_data(&mut self, sx: Double, sy: Double, sw: Double, sh: Double) -> (r: Result<
        PendingImageData,
        Error,
    >)
        ensures
            if sw.spec_is_zero() || sh.spec_is_zero() {
                r == Err::<PendingImageData, Error>(Error::IndexSize) && final(self)@ == old(self)@
            } else if old(self)@.renderer.open {
                r == Ok::<PendingImageData, Error>(
                    PendingImageData {
                        route: ReplyRoute { id: old(self)@.next_route },
                        width: spec_block_extent(sw),
                        height: spec_block_extent(sh),
                    },
                ) && final(self)@ == old(self)@.route_taken().sent(
                    CanvasMsgView::GetImageData(
                        spec_pixel_rect(sx, sy, sw, sh),
                        old(self)@.canvas.size,
                        ReplyRoute { id: old(self)@.next_route },
                    ),
                )
            } else {
                r == Err::<PendingImageData, Error>(Error::Disconnected) && final(self)@ == old(
                    self,
                )@
            },
    {
        if sw.is_zero() || sh.is_zero() {
            return Err(Error::IndexSize);
        }
        if !self.renderer.is_open() {
            return Err(Error::Disconnected);
        }
        let read = rect(sx.to_i32(), sy.to_i32(), sw.to_i32(), sh.to_i32());
        let route = self.take_route();
        let canvas_size = self.canvas.get_size();
        match self.send(CanvasMsg::GetImageData(read, canvas_size, route)) {
            Ok(()) => Ok(
                PendingImageData { route, width: sw.abs().to_u32(), height: sh.abs().to_u32() },
            ),
            Err(e) => Err(Error::Disconnected),
        }
    }

    /// Sends a block of pixels to the worker, to be put at `(dx, dy)`. The width and the
    /// height of the block must be `i32` numbers.
    pub fn put_image_data(&mut self, imagedata: &ImageData, dx: Double, dy: Double) -> (r: Result<
        (),
        Error,
    >)
        requires
            imagedata@.width <= i32::MAX,
            imagedata@.height <= i32::MAX,
        ensures
            old(self)@.issues(spec_put(imagedata@, dx, dy, None), final(self)@, r),
    {
        let data = imagedata.get_data_array();
        let size = imagedata.get_size();
        let origin = Point2D { x: dx.to_i32(), y: dy.to_i32() };
        self.send(CanvasMsg::PutImageData(data, Rect { origin, size }, None))
    }

    /// As `put_image_data`, with the part of the block that is to change. The whole block is
    /// sent, and the worker takes the part.
    pub fn put_image_data_(
        &mut self,
        imagedata: &ImageData,
        dx: Double,
        dy: Double,
        dirty_x: Double,
        dirty_y: Double,
        dirty_width: Double,
        dirty_height: Double,
    ) -> (r: Result<(), Error>)
        requires
            imagedata@.width <= i32::MAX,
            imagedata@.height <= i32::MAX,
        ensures
            old(self)@.issues(
                spec_put(
                    imagedata@,
                    dx,
                    dy,
                    Some(spec_pixel_rect(dirty_x, dirty_y, dirty_width, dirty_height)),
                ),
                final(self)@,
                r,
            ),
    {
        let data = imagedata.get_data_array();
        let size = imagedata.get_size();
        let origin = Point2D { x: dx.to_i32(), y: dy.to_i32() };
        let dirty = rect(
            dirty_x.to_i32(),
            dirty_y.to_i32(),
            dirty_width.to_i32(),
            dirty_height.to_i32(),
        );
        self.send(CanvasMsg::PutImageData(data, Rect { origin, size }, Some(dirty)))
    }

    /// A gradient along a line, without stops. Four finite numbers give one; with a NaN or an
    /// infinity among them the call fails with a `TypeError`.
    pub fn create_linear_gradient(&self, x0: Double, y0: Double, x1: Double, y1: Double) -> (r:
        Result<CanvasGradient, Error>)
        ensures
            are_finite(seq![x0, y0, x1, y1]) ==> (r matches Ok(gradient) && gradient@
                == (CanvasGradientView {
                style: CanvasGradientStyleView::Linear(
                    LinearGradientStyleView { x0, y0, x1, y1, stops: Seq::empty() },
                ),
                stops: Seq::empty(),
            })),
            !are_finite(seq![x0, y0, x1, y1]) ==> (r matches Err(Error::TypeError(text)) && text@
                == "One of the arguments of createLinearGradient() is not a finite floating-point value."@),
    {
        if !(x0.is_finite() && y0.is_finite() && x1.is_finite() && y1.is_finite()) {
            assert(!are_finite(seq![x0, y0, x1, y1])) by {
                let numbers = seq![x0, y0, x1, y1];
                assert(numbers[0] == x0 && numbers[1] == y0 && numbers[2] == x1 && numbers[3]
                    == y1);
            }
            return Err(
                Error::TypeError(
                    "One of the arguments of createLinearGradient() is not a finite floating-point value.".to_owned(),
                ),
            );
        }
        Ok(
            CanvasGradient::new(
                CanvasGradientStyle::Linear(LinearGradientStyle::new(x0, y0, x1, y1, Vec::new())),
            ),
        )
    }

    /// A gradient between two circles, without stops. Six finite numbers give one; with a NaN
    /// or an infinity among them the call fails with a `TypeError`.
    pub fn create_radial_gradient(
        &self,
        x0: Double,
        y0: Double,
        r0: Double,
        x1: Double,
        y1: Double,
        r1: Double,
    ) -> (r: Result<CanvasGradient, Error>)
        ensures
            are_finite(seq![x0, y0, r0, x1, y1, r1]) ==> (r matches Ok(gradient) && gradient@
                == (CanvasGradientView {
                style: CanvasGradientStyleView::Radial(
                    RadialGradientStyleView { x0, y0, r0, x1, y1, r1, stops: Seq::empty() },
                ),
                stops: Seq::empty(),
            })),
            !are_finite(seq![x0, y0, r0, x1, y1, r1]) ==> (r matches Err(Error::TypeError(text))
                && text@
                == "One of the arguments of createRadialGradient() is not a finite floating-point value."@),
    {
        if !(x0.is_finite() && y0.is_finite() && r0.is_finite() && x1.is_finite() && y1.is_finite()
            && r1.is_finite()) {
            assert(!are_finite(seq![x0, y0, r0, x1, y1, r1])) by {
                let numbers = seq![x0, y0, r0, x1, y1, r1];
                assert(numbers[0] == x0 && numbers[1] == y0 && numbers[2] == r0 && numbers[3]
                    == x1 && numbers[4] == y1 && numbers[5] == r1);
            }
            return Err(
                Error::TypeError(
                    "One of the arguments of createRadialGradient() is not a finite floating-point value.".to_owned(),
                ),
            );
        }
        Ok(
            CanvasGradient::new(
                CanvasGradientStyle::Radial(
                    RadialGradientStyle::new(x0, y0, r0, x1, y1, r1, Vec::new()),
                ),
            ),
        )
    }

    /// Ends the context: `Close` is sent to the worker, and the channel takes no command after
    /// it. On a context that was closed, or whose worker is gone, the call fails with
    /// `Disconnected` and sends nothing.
    pub fn close(&mut self) -> (r: Result<(), Error>)
        ensures
            old(self)@.issues(CanvasMsgView::Close, final(self)@, r),
    {
        self.send(CanvasMsg::Close)
    }

    /// Takes the oldest command that was sent and that the worker has not got yet: the
    /// commands come out in the order in which the calls sent them.
    pub fn next_command(&mut self) -> (r: Option<CanvasMsg>)
        ensures
            match r {
                Some(msg) => old(self)@.renderer.pending.len() > 0 && msg@ == old(
                    self,
                )@.renderer.pending[0] && final(self)@ == (CanvasRenderingContext2DView {
                    renderer: CommandChannelView {
                        pending: old(self)@.renderer.pending.drop_first(),
                        ..old(self)@.renderer
                    },
                    ..old(self)@
                }),
                None => old(self)@.renderer.pending.len() == 0 && final(self)@ == old(self)@,
            },
    {
        self.renderer.receive()
    }

    /// Records that the rendering worker is gone. Every call that sends a command fails from
    /// now on.
    pub fn renderer_lost(&mut self)
        ensures
            final(self)@ == (CanvasRenderingContext2DView {
                renderer: CommandChannelView { open: false, ..old(self)@.renderer },
                ..old(self)@
            }),
    {
        self.renderer.disconnect();
    }
}

/// The canvas that an image stands for: the canvas element itself, or the canvas of a context.
/// An image element stands for none.
pub open spec fn spec_image_canvas(
    image: HTMLImageElementOrHTMLCanvasElementOrCanvasRenderingContext2D,
) -> Option<HTMLCanvasElement> {
    match image {
        HTMLImageElementOrHTMLCanvasElementOrCanvasRenderingContext2D::HTMLImageElement => None,
        HTMLImageElementOrHTMLCanvasElementOrCanvasRenderingContext2D::HTMLCanvasElement(
            canvas,
        ) => Some(canvas),
        HTMLImageElementOrHTMLCanvasElementOrCanvasRenderingContext2D::CanvasRenderingContext2D(
            context,
        ) => Some(context@.canvas),
    }
}

pub fn image_canvas(image: HTMLImageElementOrHTMLCanvasElementOrCanvasRenderingContext2D) -> (r:
    Option<HTMLCanvasElement>)
    ensures
        r == spec_image_canvas(image),
{
    match image {
        HTMLImageElementOrHTMLCanvasElementOrCanvasRenderingContext2D::HTMLImageElement => None,
        HTMLImageElementOrHTMLCanvasElementOrCanvasRenderingContext2D::HTMLCanvasElement(
            canvas,
        ) => Some(canvas),
        HTMLImageElementOrHTMLCanvasElementOrCanvasRenderingContext2D::CanvasRenderingContext2D(
            context,
        ) => Some(context.canvas()),
    }
}

/// The width or the height of a block of pixels that is asked for with the number `extent`:
/// its magnitude, made a `u32`.
pub open spec fn spec_block_extent(extent: Double) -> u32 {
    extent.spec_abs().spec_to_u32()
}

/// Whether the bytes of a block of pixels as wide and as high as the magnitudes of two numbers
/// can be counted.
pub open spec fn spec_block_fits(sw: Double, sh: Double) -> bool {
    4 * spec_block_extent(sw) * spec_block_extent(sh) <= usize::MAX
}

/// The command that puts a block of pixels at `(dx, dy)`: all its bytes, the rectangle of its
/// size at that corner, and the part that is to change.
pub open spec fn spec_put(
    imagedata: ImageDataView,
    dx: Double,
    dy: Double,
    dirty: Option<Rect<i32>>,
) -> CanvasMsgView {
    CanvasMsgView::PutImageData(
        imagedata.data,
        spec_rect(
            dx.spec_to_i32(),
            dy.spec_to_i32(),
            imagedata.width as i32,
            imagedata.height as i32,
        ),
        dirty,
    )
}

impl CanvasRenderingContext2DView {
    /// How drawing an image ends: as drawing from the canvas that the image stands for; for
    /// an image that stands for none, with a `TypeError` and no change.
    pub open spec fn draws_image(
        self,
        image: HTMLImageElementOrHTMLCanvasElementOrCanvasRenderingContext2D,
        sx: Double,
        sy: Double,
        sw: Option<Double>,
        sh: Option<Double>,
        dx: Option<Double>,
        dy: Option<Double>,
        dw: Option<Double>,
        dh: Option<Double>,
        after: CanvasRenderingContext2DView,
        result: Result<Option<PendingDrawImage>, Error>,
    ) -> bool {
        match spec_image_canvas(image) {
            Some(canvas) => self.draws(canvas, sx, sy, sw, sh, dx, dy, dw, dh, after, result),
            None => result matches Err(Error::TypeError(text)) && text@ == "Unknown type"@ && after
                == self,
        }
    }
}

/// The worker gets the transform that comes of a call, not the change that the call asked
/// for. After the transform was set on a context whose channel is open, and then scaled, the
/// last command on the channel carries the matrix that was set, scaled; the command before it
/// carries the matrix that was set; and the context holds the same transform as the last
/// command.
pub proof fn lemma_set_transform_then_scale(
    before: CanvasRenderingContext2DView,
    set: CanvasRenderingContext2DView,
    scaled: CanvasRenderingContext2DView,
    m: Matrix2D,
    x: Single,
    y: Single,
    first: Result<(), Error>,
    second: Result<(), Error>,
)
    requires
        before.renderer.open,
        before.transforms(m, set, first),
        set.transforms(set.transform.spec_scale(x, y), scaled, second),
    ensures
        first is Ok,
        second is Ok,
        scaled.transform == m.spec_scale(x, y),
        scaled.renderer.pending.len() == before.renderer.pending.len() + 2,
        scaled.renderer.pending[before.renderer.pending.len() as int]
            == CanvasMsgView::SetTransform(m),
        scaled.renderer.pending.last() == CanvasMsgView::SetTransform(m.spec_scale(x, y)),
        scaled.renderer.pending.subrange(0, before.renderer.pending.len() as int)
            == before.renderer.pending,
{
    assert(scaled.renderer.pending.subrange(0, before.renderer.pending.len() as int)
        =~= before.renderer.pending);
}

/// A call that fails leaves no trace, and a call that succeeds adds its one command behind
/// what was sent before: whatever a call that ends by `ends` was to send, the commands that
/// were pending stay where they were, in their order.
pub proof fn lemma_commands_stay_in_order(
    before: CanvasRenderingContext2DView,
    changed: CanvasRenderingContext2DView,
    msg: CanvasMsgView,
    after: CanvasRenderingContext2DView,
    result: Result<(), Error>,
)
    requires
        before.ends(changed, msg, after, result),
        changed.renderer == before.renderer,
    ensures
        result is Err ==> after == before,
        result is Ok ==> after.renderer.pending == before.renderer.pending.push(msg),
        after.renderer.pending.len() >= before.renderer.pending.len(),
        after.renderer.pending.subrange(0, before.renderer.pending.len() as int)
            == before.renderer.pending,
{
    assert(after.renderer.pending.subrange(0, before.renderer.pending.len() as int)
        =~= before.renderer.pending);
}

/// After `close` nothing is sent: on a context that was closed while its channel was open,
/// every call that ends by `ends` fails with `Disconnected`, and `Close` stays the last
/// command.
pub proof fn lemma_closed_for_good(
    before: CanvasRenderingContext2DView,
    closed: CanvasRenderingContext2DView,
    changed: CanvasRenderingContext2DView,
    msg: CanvasMsgView,
    after: CanvasRenderingContext2DView,
    first: Result<(), Error>,
    second: Result<(), Error>,
)
    requires
        before.renderer.open,
        before.issues(CanvasMsgView::Close, closed, first),
        closed.ends(changed, msg, after, second),
    ensures
        first is Ok,
        second == Err::<(), Error>(Error::Disconnected),
        after == closed,
        after.renderer.pending.last() == CanvasMsgView::Close,
        after.renderer.pending.drop_last() == before.renderer.pending,
{
    assert(after.renderer.pending.drop_last() =~= before.renderer.pending);
}

/// Two reads that follow each other are answered on different routes.
pub proof fn lemma_routes_differ(context: CanvasRenderingContext2DView)
    ensures
        context.route_taken().next_route != context.next_route,
{
}

/// What was put comes back, if the worker returns it: the block that is made of the bytes of
/// a `PutImageData` command, for a read of the size of the block that was put, holds the
/// bytes of that block.
pub proof fn lemma_put_then_get(imagedata: ImageDataView, dx: Double, dy: Double)
    requires
        imagedata.data.len() == 4 * imagedata.width * imagedata.height,
    ensures
        spec_put(imagedata, dx, dy, None) matches CanvasMsgView::PutImageData(data, _, _)
            && spec_buffer(imagedata.width, imagedata.height, Some(data)) == imagedata.data,
{
    assert(spec_buffer(imagedata.width, imagedata.height, Some(imagedata.data))
        =~= imagedata.data);
}

} // verus!
