//! The pixel buffer that a render returns: `width * height` RGBA quadruples
//! in row-major order.

use vstd::prelude::*;
use crate::error::PipelineError;
use crate::layout::{
    addressable, buffer_len, byte_len, in_bounds, lemma_index_in_range, pixel_count, pixel_index,
    pixel_offset,
};

verus! {

/// One pixel: four channels of 0 to 255 each.
#[derive(Debug, Clone, Copy, PartialEq, Eq, Structural)]
pub struct Rgba8 {
    pub r: u8,
    pub g: u8,
    pub b: u8,
    pub a: u8,
}

impl Rgba8 {
    /// The colour of a point that never escaped: black, fully opaque.
    pub open spec fn opaque_black() -> Rgba8 {
        Rgba8 { r: 0, g: 0, b: 0, a: 255 }
    }

    /// Whether this pixel is black and fully opaque.
    pub fn is_opaque_black(&self) -> (black: bool)
        ensures
            black == (*self == Rgba8::opaque_black()),
    {
        self.r == 0 && self.g == 0 && self.b == 0 && self.a == 255
    }
}

/// The quadruple that starts at byte `4 * index` of `bytes`.
pub open spec fn quad_at(bytes: Seq<u8>, index: int) -> Rgba8 {
    Rgba8 {
        r: bytes[4 * index],
        g: bytes[4 * index + 1],
        b: bytes[4 * index + 2],
        a: bytes[4 * index + 3],
    }
}

/// A fully populated image: its dimensions and its bytes, always
/// `width * height * 4` of them.
#[derive(Debug)]
pub struct PixelBuffer {
    width: u32,
    height: u32,
    data: Vec<u8>,
}

impl View for PixelBuffer {
    type V = Seq<Rgba8>;

    /// The pixels, row by row from the top left.
    open spec fn view(&self) -> Seq<Rgba8> {
        Seq::new(
            pixel_count(self.spec_width(), self.spec_height()) as nat,
            |i: int| quad_at(self.bytes(), i),
        )
    }
}

impl PixelBuffer {
    /// The image is addressable and holds four bytes for each of its pixels.
    #[verifier::type_invariant]
    spec fn shape(self) -> bool {
        addressable(self.width, self.height) && self.data@.len() == byte_len(
            self.width,
            self.height,
        )
    }

    /// Pixels per row.
    pub closed spec fn spec_width(&self) -> u32 {
        self.width
    }

    /// Number of rows.
    pub closed spec fn spec_height(&self) -> u32 {
        self.height
    }

    /// The raw bytes, four per pixel.
    pub closed spec fn bytes(&self) -> Seq<u8> {
        self.data@
    }

    /// Takes the bytes read back from the device as the image of the given
    /// dimensions. They are accepted exactly when the image is addressable
    /// and there are `width * height * 4` of them; a read-back of any other
    /// size is a failed frame.
    pub fn from_bytes(width: u32, height: u32, bytes: Vec<u8>) -> (result: Result<
        PixelBuffer,
        PipelineError,
    >)
        ensures
            result is Ok <==> addressable(width, height) && bytes@.len() == byte_len(
                width,
                height,
            ),
            result matches Ok(buffer) ==> buffer.spec_width() == width && buffer.spec_height()
                == height && buffer.bytes() == bytes@,
            result matches Err(e) ==> e == PipelineError::GpuExecutionError,
    {
        let given: usize = bytes.len();
        match buffer_len(width, height) {
            Some(len) => {
                if given == len {
                    Ok(PixelBuffer { width, height, data: bytes })
                } else {
                    Err(PipelineError::GpuExecutionError)
                }
            },
            None => Err(PipelineError::GpuExecutionError),
        }
    }

    /// An image of the given dimensions with every byte zero: what is shown
    /// before the first frame. `None` where the image is not addressable.
    pub fn blank(width: u32, height: u32) -> (result: Option<PixelBuffer>)
        ensures
            result is Some <==> addressable(width, height),
            result matches Some(buffer) ==> buffer.spec_width() == width && buffer.spec_height()
                == height && buffer.bytes().len() == byte_len(width, height),
            result matches Some(buffer) ==> forall|i: int|
                0 <= i < buffer.bytes().len() ==> buffer.bytes()[i] == 0,
    {
        match buffer_len(width, height) {
            Some(len) => {
                let data: Vec<u8> = vec![0u8; len];
                Some(PixelBuffer { width, height, data })
            },
            None => None,
        }
    }

    /// Pixels per row.
    #[verifier::when_used_as_spec(spec_width)]
    pub fn width(&self) -> (w: u32)
        ensures
            w == self.spec_width(),
    {
        self.width
    }

    /// Number of rows.
    #[verifier::when_used_as_spec(spec_height)]
    pub fn height(&self) -> (h: u32)
        ensures
            h == self.spec_height(),
    {
        self.height
    }

    /// The bytes in the layout that the display takes: always
    /// `width * height * 4` of them.
    pub fn as_bytes(&self) -> (bytes: &[u8])
        ensures
            bytes@ == self.bytes(),
            bytes@.len() == byte_len(self.spec_width(), self.spec_height()),
            addressable(self.spec_width(), self.spec_height()),
    {
        proof {
            use_type_invariant(self);
        }
        self.data.as_slice()
    }

    /// Hands the bytes over to the caller.
    pub fn into_bytes(self) -> (bytes: Vec<u8>)
        ensures
            bytes@ == self.bytes(),
            bytes@.len() == byte_len(self.spec_width(), self.spec_height()),
    {
        proof {
            use_type_invariant(&self);
        }
        self.data
    }

    /// The pixel at column `x` of row `y`, or `None` outside the image.
    pub fn pixel(&self, x: u32, y: u32) -> (pixel: Option<Rgba8>)
        ensures
            pixel == (if in_bounds(self.spec_width(), self.spec_height(), x, y) {
                Some(self@[pixel_index(self.spec_width(), x, y)])
            } else {
                None
            }),
    {
        proof {
            use_type_invariant(self);
        }
        match pixel_offset(self.width, self.height, x, y) {
            Some(offset) => {
                proof {
                    lemma_index_in_range(self.width, self.height, x, y);
                }
                Some(
                    Rgba8 {
                        r: self.data[offset],
                        g: self.data[offset + 1],
                        b: self.data[offset + 2],
                        a: self.data[offset + 3],
                    },
                )
            },
            None => None,
        }
    }
}

} // verus!
