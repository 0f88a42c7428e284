//! A block of pixels: four bytes for each, red, green, blue and alpha, row after row without
//! padding.

use vstd::prelude::*;
use crate::geometry::Size2D;

verus! {

pub struct ImageData {
    width: u32,
    height: u32,
    data: Vec<u8>,
}

pub struct ImageDataView {
    pub width: u32,
    pub height: u32,
    pub data: Seq<u8>,
}

/// The bytes that a worker handed over, if it handed any.
pub open spec fn bytes_of(data: Option<Vec<u8>>) -> Option<Seq<u8>> {
    match data {
        Some(bytes) => Some(bytes@),
        None => None,
    }
}

/// The buffer of a block of `width` by `height` pixels that is made from `data`: as many of
/// the bytes of `data` as there are and as the block holds, and zeros behind them.
pub open spec fn spec_buffer(width: u32, height: u32, data: Option<Seq<u8>>) -> Seq<u8> {
    Seq::new(
        (4 * width * height) as nat,
        |i: int|
            match data {
                Some(bytes) => if i < bytes.len() {
                    bytes[i]
                } else {
                    0u8
                },
                None => 0u8,
            },
    )
}

impl View for ImageData {
    type V = ImageDataView;

    closed spec fn view(&self) -> ImageDataView {
        ImageDataView { width: self.width, height: self.height, data: self.data@ }
    }
}

impl ImageData {
    #[verifier::type_invariant]
    spec fn buffer_fits(self) -> bool {
        self.data@.len() == 4 * self.width * self.height
    }

    /// A block of `width` by `height` pixels, of zeros or of the bytes of `data`.
    pub fn new(width: u32, height: u32, data: Option<Vec<u8>>) -> (r: ImageData)
        requires
            4 * width * height <= usize::MAX,
        ensures
            r@ == (ImageDataView {
                width,
                height,
                data: spec_buffer(width, height, bytes_of(data)),
            }),
    {
        assert(width as int * height as int * 4 == 4 * width * height) by (nonlinear_arith);
        assert(width as int * height as int <= 4 * width * height) by (nonlinear_arith);
        let length: usize = width as usize * height as usize * 4;
        let ghost wanted = spec_buffer(width, height, bytes_of(data));
        let mut buffer: Vec<u8> = Vec::new();
        let mut i: usize = 0;
        while i < length
            invariant
                i <= length,
                length == 4 * width * height,
                buffer@ == wanted.take(i as int),
                wanted == spec_buffer(width, height, bytes_of(data)),
            decreases length - i,
        {
            let byte: u8 = match &data {
                Some(bytes) => if i < bytes.len() {
                    bytes[i]
                } else {
                    0
                },
                None => 0,
            };
            buffer.push(byte);
            i = i + 1;
            assert(wanted.take(i as int) == wanted.take(i - 1).push(wanted[i - 1]));
        }
        assert(wanted.take(length as int) == wanted);
        ImageData { width, height, data: buffer }
    }

    pub fn width(&self) -> (r: u32)
        ensures
            r == self@.width,
    {
        self.width
    }

    pub fn height(&self) -> (r: u32)
        ensures
            r == self@.height,
    {
        self.height
    }

    /// The number of bytes of the block: four for each pixel.
    pub fn byte_length(&self) -> (r: usize)
        ensures
            r == 4 * self@.width * self@.height,
            r == self@.data.len(),
    {
        proof {
            use_type_invariant(self);
        }
        self.data.len()
    }

    /// The size in pixels.
    pub fn get_size(&self) -> (r: Size2D<i32>)
        requires
            self@.width <= i32::MAX,
            self@.height <= i32::MAX,
        ensures
            r == (Size2D { width: self@.width as i32, height: self@.height as i32 }),
    {
        Size2D { width: self.width as i32, height: self.height as i32 }
    }

    /// A copy of the bytes. There are four for each pixel.
    pub fn get_data_array(&self) -> (r: Vec<u8>)
        ensures
            r@ == self@.data,
            r@.len() == 4 * self@.width * self@.height,
    {
        proof {
            use_type_invariant(self);
        }
        let copy = self.data.clone();
        assert(copy@ =~= self.data@);
        copy
    }
}

} // verus!
