//! The rectangles of a `drawImage` call: which part of the image is read, and which part of the
//! canvas it is drawn to.
//!
//! A call gives a destination corner, or a destination rectangle, or a source and a destination
//! rectangle. What it leaves out is filled in: the source is the whole image, and the
//! destination is as large as the source. The source rectangle is cut down to the image, and
//! the destination rectangle shrinks by the same ratio along each axis.

use vstd::prelude::*;
use crate::double::Double;
use crate::geometry::{rect, spec_rect, Rect, Size2D};

verus! {

/// The part of an extent of `full` pixels that is left after clipping to `clipped` pixels, as
/// a ratio. Where nothing is left the ratio is zero, also for an extent of no pixels.
pub open spec fn spec_extent_ratio(clipped: i32, full: i32) -> Double {
    if 0 < clipped <= full {
        Double::spec_ratio(clipped as nat, full as nat)
    } else {
        Double::spec_zero(false)
    }
}

/// An extent of the destination, scaled by the ratio that clipping left of the source, in whole
/// pixels. The product is computed in binary64 and then made an `i32`.
pub open spec fn spec_scaled_extent(extent: Double, clipped: i32, full: i32) -> i32 {
    extent.spec_mul(spec_extent_ratio(clipped, full)).spec_to_i32()
}

pub fn scaled_extent(extent: Double, clipped: i32, full: i32) -> (r: i32)
    ensures
        r == spec_scaled_extent(extent, clipped, full),
{
    let ratio = if 0 < clipped && clipped <= full {
        Double::ratio(clipped as u32, full as u32)
    } else {
        Double::zero(false)
    };
    extent.mul(ratio).to_i32()
}

/// The first of two numbers that is there.
pub open spec fn spec_or(first: Option<Double>, second: Double) -> Double {
    match first {
        Some(d) => d,
        None => second,
    }
}

/// The source rectangle of a `drawImage` call on an image of `image_size`, before it is cut
/// down to the image.
///
/// The call gave `sx` and `sy`, and all or none of the two numbers of each other pair. The
/// source starts at `(sx, sy)` where `dx` and `dy` are there, and at the origin where they are
/// not: the first two numbers are then the destination corner. It is as large as `sw` by `sh`
/// where `dw` and `dh` are there, and as large as the image where they are not. Each number is
/// made an `i32`.
pub open spec fn spec_source_rect(
    image_size: Size2D<i32>,
    sx: Double,
    sy: Double,
    sw: Option<Double>,
    sh: Option<Double>,
    dx: Option<Double>,
    dy: Option<Double>,
    dw: Option<Double>,
    dh: Option<Double>,
) -> Rect<i32> {
    spec_rect(
        if dx is Some {
            sx.spec_to_i32()
        } else {
            0i32
        },
        if dy is Some {
            sy.spec_to_i32()
        } else {
            0i32
        },
        if dw is Some {
            sw->0.spec_to_i32()
        } else {
            image_size.width
        },
        if dh is Some {
            sh->0.spec_to_i32()
        } else {
            image_size.height
        },
    )
}

/// The source rectangle cut down to the image, and the destination rectangle, of a
/// `drawImage` call on an image of `image_size`.
///
/// The source rectangle is that of `spec_source_rect`, cut down to the image. The destination
/// has the corner `(dx, dy)`, or `(sx, sy)` where these are left out, made `i32` numbers. It is
/// as large as `dw` by `dh`, or as `sw` by `sh` where these are left out, or as the image where
/// those are left out too; this width and height are scaled as `spec_scaled_extent` says, by
/// what the cut left of the width and the height of the source.
pub open spec fn spec_adjust_source_dest_rects(
    image_size: Size2D<i32>,
    sx: Double,
    sy: Double,
    sw: Option<Double>,
    sh: Option<Double>,
    dx: Option<Double>,
    dy: Option<Double>,
    dw: Option<Double>,
    dh: Option<Double>,
) -> (Rect<i32>, Rect<i32>) {
    let source = spec_source_rect(image_size, sx, sy, sw, sh, dx, dy, dw, dh);
    let clipped = source.spec_clipped_to(spec_rect(0, 0, image_size.width, image_size.height));
    let dest_width = spec_or(dw, spec_or(sw, Double::spec_from_i32(image_size.width)));
    let dest_height = spec_or(dh, spec_or(sh, Double::spec_from_i32(image_size.height)));
    (
        clipped,
        spec_rect(
            spec_or(dx, sx).spec_to_i32(),
            spec_or(dy, sy).spec_to_i32(),
            spec_scaled_extent(dest_width, clipped.size.width, source.size.width),
            spec_scaled_extent(dest_height, clipped.size.height, source.size.height),
        ),
    )
}

/// See `spec_adjust_source_dest_rects`. A call that gives `dw` gives `sw`, and one that gives
/// `dh` gives `sh`.
pub fn adjust_source_dest_rects(
    image_size: Size2D<i32>,
    sx: Double,
    sy: Double,
    sw: Option<Double>,
    sh: Option<Double>,
    dx: Option<Double>,
    dy: Option<Double>,
    dw: Option<Double>,
    dh: Option<Double>,
) -> (r: (Rect<i32>, Rect<i32>))
    requires
        dw is Some ==> sw is Some,
        dh is Some ==> sh is Some,
    ensures
        r == spec_adjust_source_dest_rects(image_size, sx, sy, sw, sh, dx, dy, dw, dh),
{
    let source_x = match dx {
        Some(_) => sx.to_i32(),
        None => 0,
    };
    let source_y = match dy {
        Some(_) => sy.to_i32(),
        None => 0,
    };
    let source_width = match (dw, sw) {
        (Some(_), Some(w)) => w.to_i32(),
        _ => image_size.width,
    };
    let source_height = match (dh, sh) {
        (Some(_), Some(h)) => h.to_i32(),
        _ => image_size.height,
    };
    let dest_x = (match dx {
        Some(x) => x,
        None => sx,
    }).to_i32();
    let dest_y = (match dy {
        Some(y) => y,
        None => sy,
    }).to_i32();
    let dest_width = match (dw, sw) {
        (Some(w), _) => w,
        (None, Some(w)) => w,
        (None, None) => Double::from_i32(image_size.width),
    };
    let dest_height = match (dh, sh) {
        (Some(h), _) => h,
        (None, Some(h)) => h,
        (None, None) => Double::from_i32(image_size.height),
    };
    let source = rect(source_x, source_y, source_width, source_height);
    let clipped = source.clipped_to(rect(0, 0, image_size.width, image_size.height));
    let width = scaled_extent(dest_width, clipped.size.width, source.size.width);
    let height = scaled_extent(dest_height, clipped.size.height, source.size.height);
    (clipped, rect(dest_x, dest_y, width, height))
}

/// An extent of which clipping left all is left as it is.
pub proof fn lemma_unclipped_extent(extent: Double, full: i32)
    requires
        full > 0,
    ensures
        spec_scaled_extent(extent, full, full) == extent.spec_to_i32(),
{
    Double::lemma_ratio_of_whole(full as nat);
    if !extent.spec_is_nan() {
        extent.lemma_mul_one();
    }
}

/// A call that gives the destination corner alone draws the whole image in its own size: on
/// an image of positive width and height the source is the whole image, and the destination
/// has the corner that was given and the size of the image.
pub proof fn lemma_draw_at_corner(image_size: Size2D<i32>, dx: Double, dy: Double)
    requires
        image_size.width > 0,
        image_size.height > 0,
    ensures
        spec_adjust_source_dest_rects(image_size, dx, dy, None, None, None, None, None, None) == (
            spec_rect(0, 0, image_size.width, image_size.height),
            spec_rect(dx.spec_to_i32(), dy.spec_to_i32(), image_size.width, image_size.height),
        ),
{
    let width = Double::spec_from_i32(image_size.width);
    let height = Double::spec_from_i32(image_size.height);
    Double::lemma_from_i32_to_i32(image_size.width);
    Double::lemma_from_i32_to_i32(image_size.height);
    lemma_unclipped_extent(width, image_size.width);
    lemma_unclipped_extent(height, image_size.height);
}

/// A call that gives the destination rectangle alone draws the whole image into it: on an
/// image of positive width and height the source is the whole image, and the destination is
/// the rectangle that was given, in whole pixels.
pub proof fn lemma_draw_into_rect(
    image_size: Size2D<i32>,
    dx: Double,
    dy: Double,
    dw: Double,
    dh: Double,
)
    requires
        image_size.width > 0,
        image_size.height > 0,
    ensures
        spec_adjust_source_dest_rects(
            image_size,
            dx,
            dy,
            Some(dw),
            Some(dh),
            None,
            None,
            None,
            None,
        ) == (
            spec_rect(0, 0, image_size.width, image_size.height),
            spec_rect(dx.spec_to_i32(), dy.spec_to_i32(), dw.spec_to_i32(), dh.spec_to_i32()),
        ),
{
    lemma_unclipped_extent(dw, image_size.width);
    lemma_unclipped_extent(dh, image_size.height);
}

/// A call that gives both rectangles, with a source that lies within the image, reads and
/// draws exactly what was given, in whole pixels.
pub proof fn lemma_draw_part(
    image_size: Size2D<i32>,
    sx: Double,
    sy: Double,
    sw: Double,
    sh: Double,
    dx: Double,
    dy: Double,
    dw: Double,
    dh: Double,
)
    requires
        0 <= sx.spec_to_i32(),
        0 <= sy.spec_to_i32(),
        0 < sw.spec_to_i32(),
        0 < sh.spec_to_i32(),
        sx.spec_to_i32() + sw.spec_to_i32() <= image_size.width,
        sy.spec_to_i32() + sh.spec_to_i32() <= image_size.height,
    ensures
        spec_adjust_source_dest_rects(
            image_size,
            sx,
            sy,
            Some(sw),
            Some(sh),
            Some(dx),
            Some(dy),
            Some(dw),
            Some(dh),
        ) == (
            spec_rect(sx.spec_to_i32(), sy.spec_to_i32(), sw.spec_to_i32(), sh.spec_to_i32()),
            spec_rect(dx.spec_to_i32(), dy.spec_to_i32(), dw.spec_to_i32(), dh.spec_to_i32()),
        ),
{
    lemma_unclipped_extent(dw, sw.spec_to_i32());
    lemma_unclipped_extent(dh, sh.spec_to_i32());
}

/// Whatever a call gives, the source rectangle that comes out lies within the image.
pub proof fn lemma_source_within_image(
    image_size: Size2D<i32>,
    sx: Double,
    sy: Double,
    sw: Option<Double>,
    sh: Option<Double>,
    dx: Option<Double>,
    dy: Option<Double>,
    dw: Option<Double>,
    dh: Option<Double>,
)
    ensures
        ({
            let source = spec_adjust_source_dest_rects(
                image_size,
                sx,
                sy,
                sw,
                sh,
                dx,
                dy,
                dw,
                dh,
            ).0;
            &&& 0 <= source.origin.x
            &&& 0 <= source.origin.y
            &&& 0 <= source.size.width
            &&& 0 <= source.size.height
            &&& source.size.width > 0 ==> source.origin.x + source.size.width <= image_size.width
            &&& source.size.height > 0 ==> source.origin.y + source.size.height
                <= image_size.height
        }),
{
}

/// Where clipping leaves nothing of the source, the destination has no extent, and so cannot
/// be drawn.
pub proof fn lemma_nothing_left(extent: Double, full: i32)
    ensures
        spec_scaled_extent(extent, 0, full) == 0,
{
    let zero = Double::spec_zero(false);
    assert(zero.biased_exponent() == 0 && zero.fraction() == 0);
    let product = extent.spec_mul(zero);
    if !extent.spec_is_nan() && !extent.spec_is_infinite() {
        assert(product == Double::spec_zero(extent.negative()));
        assert(product.biased_exponent() == 0 && product.fraction() == 0);
        assert(product.significand() == 0);
        vstd::arithmetic::power2::lemma_pow2_pos(1074);
        vstd::arithmetic::div_mod::lemma_div_of0(vstd::arithmetic::power2::pow2(1074) as int);
    }
}

} // verus!
