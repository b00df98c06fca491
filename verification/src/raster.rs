//! Hands a pixel buffer to the `image` crate, whose `RgbaImage` is what the
//! display takes.

use vstd::prelude::*;
use image::{ImageBuffer, Rgba, RgbaImage};
use crate::layout::{addressable, byte_len, byte_offset, lemma_index_in_range};
use crate::pixels::{PixelBuffer, Rgba8};

verus! {

/// An `image::RgbaImage`, held where only the functions below reach it. What
/// it holds is spoken of through `container_dimensions` and
/// `container_samples`.
#[verifier::external_body]
pub struct RgbaContainer {
    image: RgbaImage,
}

/// Width and height of the image, as `ImageBuffer::dimensions` reports them.
pub uninterp spec fn container_dimensions(container: RgbaContainer) -> (u32, u32);

/// The samples of the image in the order of its underlying container, as
/// `ImageBuffer::as_raw` hands them out: row-major, four per pixel.
pub uninterp spec fn container_samples(container: RgbaContainer) -> Seq<u8>;

/// `ImageBuffer::new`: an image of the given dimensions whose container holds
/// `width * height * 4` samples. The outside function multiplies
/// four by the width and then by the height and panics where either product
/// is beyond `usize`, which the precondition rules out.
#[verifier::external_body]
fn new_container(width: u32, height: u32) -> (image: RgbaContainer)
    requires
        addressable(width, height),
    ensures
        container_dimensions(image) == (width, height),
        container_samples(image).len() == byte_len(width, height),
{
    RgbaContainer { image: ImageBuffer::new(width, height) }
}

/// `ImageBuffer::put_pixel`: overwrites the four samples of pixel `(x, y)`,
/// which start at `(y * width + x) * 4`, and nothing else. The outside
/// function panics outside the image, which the precondition rules out.
#[verifier::external_body]
fn put_pixel(image: &mut RgbaContainer, x: u32, y: u32, pixel: Rgba8)
    requires
        x < container_dimensions(*old(image)).0,
        y < container_dimensions(*old(image)).1,
    ensures
        container_dimensions(*final(image)) == container_dimensions(*old(image)),
        container_samples(*final(image)) == container_samples(*old(image)).update(
            byte_offset(container_dimensions(*old(image)).0, x, y),
            pixel.r,
        ).update(byte_offset(container_dimensions(*old(image)).0, x, y) + 1, pixel.g).update(
            byte_offset(container_dimensions(*old(image)).0, x, y) + 2,
            pixel.b,
        ).update(byte_offset(container_dimensions(*old(image)).0, x, y) + 3, pixel.a),
{
    image.image.put_pixel(x, y, Rgba([pixel.r, pixel.g, pixel.b, pixel.a]))
}

/// `ImageBuffer::dimensions`: width and height of the image.
#[verifier::external_body]
fn dimensions_of(image: &RgbaContainer) -> (size: (u32, u32))
    ensures
        size == container_dimensions(*image),
{
    image.image.dimensions()
}

/// `ImageBuffer::into_raw`: the underlying container with all its samples.
#[verifier::external_body]
fn into_samples(image: RgbaContainer) -> (samples: Vec<u8>)
    ensures
        samples@ == container_samples(image),
{
    image.image.into_raw()
}

/// The image that the display takes: an `RgbaImage` that holds exactly
/// `width * height * 4` samples.
pub struct Raster {
    inner: RgbaContainer,
}

impl Raster {
    /// The image holds four samples for each of its pixels.
    #[verifier::type_invariant]
    spec fn shape(self) -> bool {
        container_samples(self.inner).len() == byte_len(
            container_dimensions(self.inner).0,
            container_dimensions(self.inner).1,
        )
    }

    /// Width and height of the image.
    pub closed spec fn spec_dimensions(&self) -> (u32, u32) {
        container_dimensions(self.inner)
    }

    /// The samples of the image, row-major and four per pixel.
    pub closed spec fn samples(&self) -> Seq<u8> {
        container_samples(self.inner)
    }

    /// Width and height of the image.
    pub fn dimensions(&self) -> (size: (u32, u32))
        ensures
            size == self.spec_dimensions(),
    {
        dimensions_of(&self.inner)
    }

    /// Gives up the image for its samples, row-major and four per pixel:
    /// always `width * height * 4` of them.
    pub fn into_bytes(self) -> (bytes: Vec<u8>)
        ensures
            bytes@ == self.samples(),
            bytes@.len() == byte_len(self.spec_dimensions().0, self.spec_dimensions().1),
    {
        proof {
            use_type_invariant(&self);
        }
        into_samples(self.inner)
    }
}

impl PixelBuffer {
    /// Copies the buffer pixel by pixel into an `RgbaImage` of the same
    /// dimensions: pixel `(x, y)` of the image is the four bytes that start
    /// at `(y * width + x) * 4`, so the image's samples are this buffer's
    /// bytes.
    pub fn to_image(&self) -> (image: Raster)
        ensures
            image.spec_dimensions() == (self.spec_width(), self.spec_height()),
            image.samples() == self.bytes(),
    {
        let width: u32 = self.width();
        let height: u32 = self.height();
        let bytes = self.as_bytes();
        let mut image = new_container(width, height);
        let mut offset: usize = 0;
        let mut y: u32 = 0;
        while y < height
            invariant
                y <= height,
                bytes@ == self.bytes(),
                bytes@.len() == byte_len(width, height),
                offset == byte_offset(width, 0, y),
                container_dimensions(image) == (width, height),
                container_samples(image).len() == byte_len(width, height),
                forall|i: int| 0 <= i < offset ==> container_samples(image)[i] == bytes@[i],
            decreases height - y,
        {
            let mut x: u32 = 0;
            while x < width
                invariant
                    x <= width,
                    y < height,
                    bytes@ == self.bytes(),
                    bytes@.len() == byte_len(width, height),
                    offset == byte_offset(width, x, y),
                    container_dimensions(image) == (width, height),
                    container_samples(image).len() == byte_len(width, height),
                    forall|i: int| 0 <= i < offset ==> container_samples(image)[i] == bytes@[i],
                decreases width - x,
            {
                proof {
                    lemma_index_in_range(width, height, x, y);
                }
                let pixel = Rgba8 {
                    r: bytes[offset],
                    g: bytes[offset + 1],
                    b: bytes[offset + 2],
                    a: bytes[offset + 3],
                };
                put_pixel(&mut image, x, y, pixel);
                offset = offset + 4;
                x = x + 1;
            }
            proof {
                assert((y as int + 1) * width as int == y as int * width as int + width as int)
                    by (nonlinear_arith);
            }
            y = y + 1;
        }
        proof {
            assert(height as int * width as int == width as int * height as int)
                by (nonlinear_arith);
            assert(container_samples(image) =~= self.bytes());
        }
        Raster { inner: image }
    }
}

} // verus!
