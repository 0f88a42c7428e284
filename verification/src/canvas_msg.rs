//! The commands that a drawing context sends to its rendering worker, and the channel that
//! carries them in the order in which they were sent.

use vstd::prelude::*;
use crate::error::Error;
use crate::geometry::{Point2D, Rect, Size2D};
use crate::matrix::Matrix2D;
use crate::single::Single;
use crate::style::{FillOrStrokeStyle, FillOrStrokeStyleView};

verus! {

/// The route on which a rendering worker answers one read of pixels.
#[derive(Clone, Copy, Debug, PartialEq, Eq, Structural)]
pub struct ReplyRoute {
    pub id: u64,
}

#[derive(Clone, Debug, PartialEq, Eq)]
pub enum CanvasMsg {
    /// Start again with a surface of this size.
    Recreate(Size2D<i32>),
    SetTransform(Matrix2D),
    FillRect(Rect<Single>),
    ClearRect(Rect<Single>),
    StrokeRect(Rect<Single>),
    BeginPath,
    ClosePath,
    Fill,
    MoveTo(Point2D<Single>),
    LineTo(Point2D<Single>),
    /// The control point and the end point.
    QuadraticCurveTo(Point2D<Single>, Point2D<Single>),
    /// The two control points and the end point.
    BezierCurveTo(Point2D<Single>, Point2D<Single>, Point2D<Single>),
    /// The centre, the radius, the two angles, and whether the arc runs counterclockwise.
    Arc(Point2D<Single>, Single, Single, Single, bool),
    SetFillStyle(FillOrStrokeStyle),
    SetStrokeStyle(FillOrStrokeStyle),
    /// The pixels of an image, the size of the canvas they were read from, the destination and
    /// the source rectangle, and whether to smooth.
    DrawImage(Vec<u8>, Size2D<i32>, Rect<i32>, Rect<i32>, bool),
    /// As `DrawImage`, for an image that is the worker's own surface.
    DrawImageSelf(Size2D<i32>, Rect<i32>, Rect<i32>, bool),
    /// The rectangle to read, the size of the canvas, and where to answer.
    GetImageData(Rect<i32>, Size2D<i32>, ReplyRoute),
    /// The pixels, the rectangle they go to, and the part of it that is to change, if not all.
    PutImageData(Vec<u8>, Rect<i32>, Option<Rect<i32>>),
    /// The last command of a context.
    Close,
}

pub enum CanvasMsgView {
    Recreate(Size2D<i32>),
    SetTransform(Matrix2D),
    FillRect(Rect<Single>),
    ClearRect(Rect<Single>),
    StrokeRect(Rect<Single>),
    BeginPath,
    ClosePath,
    Fill,
    MoveTo(Point2D<Single>),
    LineTo(Point2D<Single>),
    QuadraticCurveTo(Point2D<Single>, Point2D<Single>),
    BezierCurveTo(Point2D<Single>, Point2D<Single>, Point2D<Single>),
    Arc(Point2D<Single>, Single, Single, Single, bool),
    SetFillStyle(FillOrStrokeStyleView),
    SetStrokeStyle(FillOrStrokeStyleView),
    DrawImage(Seq<u8>, Size2D<i32>, Rect<i32>, Rect<i32>, bool),
    DrawImageSelf(Size2D<i32>, Rect<i32>, Rect<i32>, bool),
    GetImageData(Rect<i32>, Size2D<i32>, ReplyRoute),
    PutImageData(Seq<u8>, Rect<i32>, Option<Rect<i32>>),
    Close,
}

impl View for CanvasMsg {
    type V = CanvasMsgView;

    open spec fn view(&self) -> CanvasMsgView {
        match self {
            CanvasMsg::Recreate(size) => CanvasMsgView::Recreate(*size),
            CanvasMsg::SetTransform(m) => CanvasMsgView::SetTransform(*m),
            CanvasMsg::FillRect(r) => CanvasMsgView::FillRect(*r),
            CanvasMsg::ClearRect(r) => CanvasMsgView::ClearRect(*r),
            CanvasMsg::StrokeRect(r) => CanvasMsgView::StrokeRect(*r),
            CanvasMsg::BeginPath => CanvasMsgView::BeginPath,
            CanvasMsg::ClosePath => CanvasMsgView::ClosePath,
            CanvasMsg::Fill => CanvasMsgView::Fill,
            CanvasMsg::MoveTo(p) => CanvasMsgView::MoveTo(*p),
            CanvasMsg::LineTo(p) => CanvasMsgView::LineTo(*p),
            CanvasMsg::QuadraticCurveTo(c, p) => CanvasMsgView::QuadraticCurveTo(*c, *p),
            CanvasMsg::BezierCurveTo(c1, c2, p) => CanvasMsgView::BezierCurveTo(*c1, *c2, *p),
            CanvasMsg::Arc(c, r, start, end, ccw) => CanvasMsgView::Arc(*c, *r, *start, *end, *ccw),
            CanvasMsg::SetFillStyle(s) => CanvasMsgView::SetFillStyle(s@),
            CanvasMsg::SetStrokeStyle(s) => CanvasMsgView::SetStrokeStyle(s@),
            CanvasMsg::DrawImage(data, size, dest, source, smooth) => CanvasMsgView::DrawImage(
                data@,
                *size,
                *dest,
                *source,
                *smooth,
            ),
            CanvasMsg::DrawImageSelf(size, dest, source, smooth) => CanvasMsgView::DrawImageSelf(
                *size,
                *dest,
                *source,
                *smooth,
            ),
            CanvasMsg::GetImageData(r, size, route) => CanvasMsgView::GetImageData(*r, *size, *route),
            CanvasMsg::PutImageData(data, r, dirty) => CanvasMsgView::PutImageData(data@, *r, *dirty),
            CanvasMsg::Close => CanvasMsgView::Close,
        }
    }
}

/// The sending end of the channel to a rendering worker, with the commands that the worker has
/// not taken yet. The channel is open until the worker is gone or `Close` was sent.
pub struct CommandChannel {
    queue: Vec<CanvasMsg>,
    open: bool,
}

pub struct CommandChannelView {
    /// The commands sent and not yet taken, the oldest first.
    pub pending: Seq<CanvasMsgView>,
    pub open: bool,
}

impl CommandChannelView {
    /// The channel after `msg` was sent on it, where it was open.
    pub open spec fn sent(self, msg: CanvasMsgView) -> CommandChannelView {
        CommandChannelView { pending: self.pending.push(msg), open: !(msg is Close) }
    }

    /// How a send ends: on an open channel the command is the last of the pending ones, and
    /// `Close` shuts the channel; on another one the send fails with `Disconnected` and
    /// changes nothing.
    pub open spec fn send_ends(
        self,
        msg: CanvasMsgView,
        after: CommandChannelView,
        result: Result<(), Error>,
    ) -> bool {
        if self.open {
            result is Ok && after == self.sent(msg)
        } else {
            result == Err::<(), Error>(Error::Disconnected) && after == self
        }
    }
}

impl View for CommandChannel {
    type V = CommandChannelView;

    closed spec fn view(&self) -> CommandChannelView {
        CommandChannelView { pending: Seq::new(self.queue@.len(), |i: int| self.queue@[i]@), open: self.open }
    }
}

impl CommandChannel {
    /// An open channel on which nothing was sent.
    pub fn new() -> (r: CommandChannel)
        ensures
            r@ == (CommandChannelView { pending: Seq::empty(), open: true }),
    {
        let r = CommandChannel { queue: Vec::new(), open: true };
        assert(r@.pending =~= Seq::empty());
        r
    }

    pub fn is_open(&self) -> (r: bool)
        ensures
            r == self@.open,
    {
        self.open
    }

    /// The number of commands that the worker has not taken yet.
    pub fn pending(&self) -> (r: usize)
        ensures
            r == self@.pending.len(),
    {
        self.queue.len()
    }

    /// Sends a command. It does not wait for the worker.
    pub fn send(&mut self, msg: CanvasMsg) -> (r: Result<(), Error>)
        ensures
            old(self)@.send_ends(msg@, final(self)@, r),
    {
        if !self.open {
            return Err(Error::Disconnected);
        }
        let ghost before = self@;
        if let CanvasMsg::Close = msg {
            self.open = false;
        }
        self.queue.push(msg);
        assert(self@.pending =~= before.pending.push(msg@));
        Ok(())
    }

    /// The worker's side: takes the oldest command that was sent and not yet taken.
    pub fn receive(&mut self) -> (r: Option<CanvasMsg>)
        ensures
            final(self)@.open == old(self)@.open,
            match r {
                Some(msg) => old(self)@.pending.len() > 0 && msg@ == old(self)@.pending[0]
                    && final(self)@.pending == old(self)@.pending.drop_first(),
                None => old(self)@.pending.len() == 0 && final(self)@ == old(self)@,
            },
    {
        if self.queue.len() == 0 {
            None
        } else {
            let ghost before = self@;
            let msg = self.queue.remove(0);
            assert(self@.pending =~= before.pending.drop_first());
            Some(msg)
        }
    }

    /// Records that the worker is gone. What was sent and not taken stays where it is.
    pub fn disconnect(&mut self)
        ensures
            final(self)@ == (CommandChannelView { open: false, ..old(self)@ }),
    {
        self.open = false;
        assert(self@.pending =~= old(self)@.pending);
    }
}

/// A channel hands out the commands in the order in which they were sent: after two sends on
/// an open channel that held `n` commands, the first of the two is at place `n` and the second
/// at place `n + 1`, behind all that were there.
pub proof fn lemma_channel_keeps_order(
    channel: CommandChannelView,
    first: CanvasMsgView,
    second: CanvasMsgView,
)
    requires
        channel.open,
        !(first is Close),
    ensures
        ({
            let after = channel.sent(first).sent(second);
            let n = channel.pending.len() as int;
            &&& after.pending.len() == n + 2
            &&& after.pending[n] == first
            &&& after.pending[n + 1] == second
            &&& after.pending.subrange(0, n) == channel.pending
        }),
{
    let after = channel.sent(first).sent(second);
    assert(after.pending.subrange(0, channel.pending.len() as int) =~= channel.pending);
}

/// Nothing follows `Close`: once it was sent, every send fails and leaves the channel as it
/// is, with `Close` the last command on it.
pub proof fn lemma_nothing_follows_close(
    channel: CommandChannelView,
    msg: CanvasMsgView,
    after: CommandChannelView,
    result: Result<(), Error>,
)
    requires
        channel.open,
        channel.sent(CanvasMsgView::Close).send_ends(msg, after, result),
    ensures
        result == Err::<(), Error>(Error::Disconnected),
        after == channel.sent(CanvasMsgView::Close),
        after.pending.last() == CanvasMsgView::Close,
        !after.open,
{
}

} // verus!
