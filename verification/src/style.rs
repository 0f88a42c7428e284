//! What a shape is filled or stroked with: a colour or a gradient.

use vstd::prelude::*;
use crate::color::RGBA;
use crate::double::Double;

verus! {

/// A colour at a place along a gradient.
#[derive(Clone, Copy, Debug, PartialEq, Eq, Structural)]
pub struct CanvasGradientStop {
    pub offset: Double,
    pub color: RGBA,
}

/// A gradient along the line from `(x0, y0)` to `(x1, y1)`.
#[derive(Clone, Debug, PartialEq, Eq)]
pub struct LinearGradientStyle {
    pub x0: Double,
    pub y0: Double,
    pub x1: Double,
    pub y1: Double,
    pub stops: Vec<CanvasGradientStop>,
}

pub struct LinearGradientStyleView {
    pub x0: Double,
    pub y0: Double,
    pub x1: Double,
    pub y1: Double,
    pub stops: Seq<CanvasGradientStop>,
}

/// A gradient between the circle of radius `r0` round `(x0, y0)` and the circle of radius `r1`
/// round `(x1, y1)`.
#[derive(Clone, Debug, PartialEq, Eq)]
pub struct RadialGradientStyle {
    pub x0: Double,
    pub y0: Double,
    pub r0: Double,
    pub x1: Double,
    pub y1: Double,
    pub r1: Double,
    pub stops: Vec<CanvasGradientStop>,
}

pub struct RadialGradientStyleView {
    pub x0: Double,
    pub y0: Double,
    pub r0: Double,
    pub x1: Double,
    pub y1: Double,
    pub r1: Double,
    pub stops: Seq<CanvasGradientStop>,
}

/// A style as the rendering worker takes it.
#[derive(Clone, Debug, PartialEq, Eq)]
pub enum FillOrStrokeStyle {
    Color(RGBA),
    LinearGradient(LinearGradientStyle),
    RadialGradient(RadialGradientStyle),
}

pub enum FillOrStrokeStyleView {
    Color(RGBA),
    LinearGradient(LinearGradientStyleView),
    RadialGradient(RadialGradientStyleView),
}

impl View for LinearGradientStyle {
    type V = LinearGradientStyleView;

    open spec fn view(&self) -> LinearGradientStyleView {
        LinearGradientStyleView {
            x0: self.x0,
            y0: self.y0,
            x1: self.x1,
            y1: self.y1,
            stops: self.stops@,
        }
    }
}

impl View for RadialGradientStyle {
    type V = RadialGradientStyleView;

    open spec fn view(&self) -> RadialGradientStyleView {
        RadialGradientStyleView {
            x0: self.x0,
            y0: self.y0,
            r0: self.r0,
            x1: self.x1,
            y1: self.y1,
            r1: self.r1,
            stops: self.stops@,
        }
    }
}

impl View for FillOrStrokeStyle {
    type V = FillOrStrokeStyleView;

    open spec fn view(&self) -> FillOrStrokeStyleView {
        match self {
            FillOrStrokeStyle::Color(c) => FillOrStrokeStyleView::Color(*c),
            FillOrStrokeStyle::LinearGradient(g) => FillOrStrokeStyleView::LinearGradient(g@),
            FillOrStrokeStyle::RadialGradient(g) => FillOrStrokeStyleView::RadialGradient(g@),
        }
    }
}

impl LinearGradientStyle {
    pub fn new(x0: Double, y0: Double, x1: Double, y1: Double, stops: Vec<CanvasGradientStop>) -> (r:
        LinearGradientStyle)
        ensures
            r@ == (LinearGradientStyleView { x0, y0, x1, y1, stops: stops@ }),
    {
        LinearGradientStyle { x0, y0, x1, y1, stops }
    }
}

impl RadialGradientStyle {
    pub fn new(
        x0: Double,
        y0: Double,
        r0: Double,
        x1: Double,
        y1: Double,
        r1: Double,
        stops: Vec<CanvasGradientStop>,
    ) -> (r: RadialGradientStyle)
        ensures
            r@ == (RadialGradientStyleView { x0, y0, r0, x1, y1, r1, stops: stops@ }),
    {
        RadialGradientStyle { x0, y0, r0, x1, y1, r1, stops }
    }
}

/// The geometry of a gradient. It is made without stops.
#[derive(Clone, Debug, PartialEq, Eq)]
pub enum CanvasGradientStyle {
    Linear(LinearGradientStyle),
    Radial(RadialGradientStyle),
}

pub enum CanvasGradientStyleView {
    Linear(LinearGradientStyleView),
    Radial(RadialGradientStyleView),
}

impl View for CanvasGradientStyle {
    type V = CanvasGradientStyleView;

    open spec fn view(&self) -> CanvasGradientStyleView {
        match self {
            CanvasGradientStyle::Linear(g) => CanvasGradientStyleView::Linear(g@),
            CanvasGradientStyle::Radial(g) => CanvasGradientStyleView::Radial(g@),
        }
    }
}

/// A gradient that a script builds: its geometry, and the stops in the order in which they
/// were added.
#[derive(Debug, PartialEq, Eq)]
pub struct CanvasGradient {
    pub style: CanvasGradientStyle,
    pub stops: Vec<CanvasGradientStop>,
}

pub struct CanvasGradientView {
    pub style: CanvasGradientStyleView,
    pub stops: Seq<CanvasGradientStop>,
}

impl View for CanvasGradient {
    type V = CanvasGradientView;

    open spec fn view(&self) -> CanvasGradientView {
        CanvasGradientView { style: self.style@, stops: self.stops@ }
    }
}

impl CanvasGradientView {
    /// The gradient as the rendering worker takes it: its geometry with its stops.
    pub open spec fn to_fill_or_stroke_style(self) -> FillOrStrokeStyleView {
        match self.style {
            CanvasGradientStyleView::Linear(g) => FillOrStrokeStyleView::LinearGradient(
                LinearGradientStyleView { stops: self.stops, ..g },
            ),
            CanvasGradientStyleView::Radial(g) => FillOrStrokeStyleView::RadialGradient(
                RadialGradientStyleView { stops: self.stops, ..g },
            ),
        }
    }
}

impl CanvasGradient {
    /// A gradient of the given geometry that has no stop yet.
    pub fn new(style: CanvasGradientStyle) -> (r: CanvasGradient)
        ensures
            r@ == (CanvasGradientView { style: style@, stops: Seq::empty() }),
    {
        CanvasGradient { style, stops: Vec::new() }
    }

    /// Adds a stop behind those that the gradient has.
    pub fn add_color_stop(&mut self, offset: Double, color: RGBA)
        ensures
            final(self)@ == (CanvasGradientView {
                stops: old(self)@.stops.push(CanvasGradientStop { offset, color }),
                ..old(self)@
            }),
    {
        self.stops.push(CanvasGradientStop { offset, color });
    }

    pub fn to_fill_or_stroke_style(&self) -> (r: FillOrStrokeStyle)
        ensures
            r@ == self@.to_fill_or_stroke_style(),
    {
        let stops = copy_stops(&self.stops);
        match &self.style {
            CanvasGradientStyle::Linear(g) => FillOrStrokeStyle::LinearGradient(
                LinearGradientStyle::new(g.x0, g.y0, g.x1, g.y1, stops),
            ),
            CanvasGradientStyle::Radial(g) => FillOrStrokeStyle::RadialGradient(
                RadialGradientStyle::new(g.x0, g.y0, g.r0, g.x1, g.y1, g.r1, stops),
            ),
        }
    }
}

/// A copy of a list of stops.
pub fn copy_stops(stops: &Vec<CanvasGradientStop>) -> (r: Vec<CanvasGradientStop>)
    ensures
        r@ == stops@,
{
    let mut copy: Vec<CanvasGradientStop> = Vec::new();
    let mut i: usize = 0;
    while i < stops.len()
        invariant
            i <= stops.len(),
            copy@ == stops@.take(i as int),
        decreases stops.len() - i,
    {
        copy.push(stops[i]);
        i = i + 1;
        assert(stops@.take(i as int) == stops@.take(i - 1).push(stops@[i - 1]));
    }
    assert(stops@.take(stops.len() as int) == stops@);
    copy
}

} // verus!
