//! Points, sizes and rectangles, and the two operations on pixel rectangles that drawing an
//! image needs: clipping one rectangle to another, and the test for a rectangle that can be drawn.

use vstd::prelude::*;

verus! {

#[derive(Clone, Copy, Debug, PartialEq, Eq, Structural)]
pub struct Point2D<T> {
    pub x: T,
    pub y: T,
}

#[derive(Clone, Copy, Debug, PartialEq, Eq, Structural)]
pub struct Size2D<T> {
    pub width: T,
    pub height: T,
}

/// A rectangle, by its top left corner and its size.
#[derive(Clone, Copy, Debug, PartialEq, Eq, Structural)]
pub struct Rect<T> {
    pub origin: Point2D<T>,
    pub size: Size2D<T>,
}

pub open spec fn spec_rect<T>(x: T, y: T, width: T, height: T) -> Rect<T> {
    Rect { origin: Point2D { x, y }, size: Size2D { width, height } }
}

/// The rectangle with the corner `(x, y)` and the size `width` by `height`.
#[verifier::when_used_as_spec(spec_rect)]
pub fn rect<T>(x: T, y: T, width: T, height: T) -> (r: Rect<T>)
    ensures
        r == spec_rect(x, y, width, height),
{
    Rect { origin: Point2D { x, y }, size: Size2D { width, height } }
}

pub open spec fn max_int(a: int, b: int) -> int {
    if a >= b {
        a
    } else {
        b
    }
}

pub open spec fn min_int(a: int, b: int) -> int {
    if a <= b {
        a
    } else {
        b
    }
}

/// A rectangle of `i64` numbers: the left and the top edge, the width and the height.
pub type Extent = (i64, i64, i64, i64);

/// The pixels that two rectangles share: the rectangle between the greater of the two left and
/// top edges and the lesser of the two right and bottom edges, or `None` where that has no
/// positive width and height. A rectangle whose width or height is not positive holds no pixel.
pub open spec fn spec_overlap(a: Extent, b: Extent) -> Option<(int, int, int, int)> {
    let left = max_int(a.0 as int, b.0 as int);
    let top = max_int(a.1 as int, b.1 as int);
    let right = min_int(a.0 + a.2, b.0 + b.2);
    let bottom = min_int(a.1 + a.3, b.1 + b.3);
    if right > left && bottom > top {
        Some((left, top, right - left, bottom - top))
    } else {
        None
    }
}

/// Whether the four numbers of a rectangle are `i32` numbers.
pub open spec fn is_narrow(a: Extent) -> bool {
    &&& i32::MIN <= a.0 <= i32::MAX
    &&& i32::MIN <= a.1 <= i32::MAX
    &&& i32::MIN <= a.2 <= i32::MAX
    &&& i32::MIN <= a.3 <= i32::MAX
}

/// Calls `Rect::intersection` of euclid on rectangles of `i64`, in which no edge of the two
/// overflows. Claimed of it: the result is the rectangle between the greater of the two left
/// and top edges and the lesser of the two right and bottom edges, and `None` where that
/// rectangle has no positive width and height.
#[verifier::external_body]
fn overlap(a: Extent, b: Extent) -> (r: Option<Extent>)
    requires
        is_narrow(a),
        is_narrow(b),
    ensures
        spec_overlap(a, b) == match r {
            Some(c) => Some((c.0 as int, c.1 as int, c.2 as int, c.3 as int)),
            None => None,
        },
{
    let a: euclid::default::Rect<i64> = euclid::rect(a.0, a.1, a.2, a.3);
    let b: euclid::default::Rect<i64> = euclid::rect(b.0, b.1, b.2, b.3);
    match a.intersection(&b) {
        Some(c) => Some((c.origin.x, c.origin.y, c.size.width, c.size.height)),
        None => None,
    }
}

impl Rect<i32> {
    /// The rectangle of no extent at the origin.
    pub open spec fn spec_zero() -> Rect<i32> {
        spec_rect(0, 0, 0, 0)
    }

    #[verifier::when_used_as_spec(spec_zero)]
    pub fn zero() -> (r: Rect<i32>)
        ensures
            r == Rect::<i32>::spec_zero(),
    {
        rect(0, 0, 0, 0)
    }

    pub open spec fn spec_extent(self) -> Extent {
        (
            self.origin.x as i64,
            self.origin.y as i64,
            self.size.width as i64,
            self.size.height as i64,
        )
    }

    /// The pixels that two rectangles share, or `None` where they share none.
    pub open spec fn spec_intersection(self, other: Rect<i32>) -> Option<Rect<i32>> {
        match spec_overlap(self.spec_extent(), other.spec_extent()) {
            Some(c) => Some(spec_rect(c.0 as i32, c.1 as i32, c.2 as i32, c.3 as i32)),
            None => None,
        }
    }

    /// What is left of a rectangle within `bounds`: their intersection, or the zero rectangle
    /// where they do not meet.
    pub open spec fn spec_clipped_to(self, bounds: Rect<i32>) -> Rect<i32> {
        match self.spec_intersection(bounds) {
            Some(r) => r,
            None => Rect::<i32>::spec_zero(),
        }
    }

    #[verifier::when_used_as_spec(spec_intersection)]
    pub fn intersection(self, other: Rect<i32>) -> (r: Option<Rect<i32>>)
        ensures
            r == self.spec_intersection(other),
    {
        let a: Extent = (
            self.origin.x as i64,
            self.origin.y as i64,
            self.size.width as i64,
            self.size.height as i64,
        );
        let b: Extent = (
            other.origin.x as i64,
            other.origin.y as i64,
            other.size.width as i64,
            other.size.height as i64,
        );
        match overlap(a, b) {
            Some(c) => Some(rect(c.0 as i32, c.1 as i32, c.2 as i32, c.3 as i32)),
            None => None,
        }
    }

    #[verifier::when_used_as_spec(spec_clipped_to)]
    pub fn clipped_to(self, bounds: Rect<i32>) -> (r: Rect<i32>)
        ensures
            r == self.spec_clipped_to(bounds),
    {
        match self.intersection(bounds) {
            Some(r) => r,
            None => Rect::zero(),
        }
    }
}

/// A rectangle can be drawn where its corner is not negative and its width and height are
/// positive.
pub open spec fn spec_is_rect_valid(rect: Rect<i32>) -> bool {
    rect.origin.x >= 0 && rect.origin.y >= 0 && rect.size.width > 0 && rect.size.height > 0
}

#[verifier::when_used_as_spec(spec_is_rect_valid)]
pub fn is_rect_valid(rect: Rect<i32>) -> (r: bool)
    ensures
        r == spec_is_rect_valid(rect),
        r <==> rect.origin.x >= 0 && rect.origin.y >= 0 && rect.size.width > 0 && rect.size.height
            > 0,
{
    rect.origin.x >= 0 && rect.origin.y >= 0 && rect.size.width > 0 && rect.size.height > 0
}

} // verus!
