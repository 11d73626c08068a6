//! A texture: decoded pixels and the parameters by which they are sampled.
//!
//! The pixels are 8-bit RGB, row after row and without padding. They come
//! from the caller as bytes, or from a decoded image of the `image` crate,
//! which converts what it decoded to 8-bit RGB. An image of floating-point
//! samples is not taken: its conversion fails on a sample that is no number.

use vstd::prelude::*;

verus! {

/// The number of bytes of one pixel.
pub const PIXEL_BYTES: usize = 3;

/// How a texture is read outside the unit square.
#[derive(Clone, Copy, Debug, PartialEq, Eq, Structural)]
pub enum WrapMode {
    Repeat,
    MirroredRepeat,
    ClampToEdge,
}

/// How a texture is read between its pixels.
#[derive(Clone, Copy, Debug, PartialEq, Eq, Structural)]
pub enum Filter {
    Nearest,
    Linear,
}

/// The sampling parameters of a texture.
#[derive(Clone, Copy, Debug, PartialEq, Eq, Structural)]
pub struct Sampling {
    /// The wrap mode along the horizontal axis.
    pub wrap_s: WrapMode,
    /// The wrap mode along the vertical axis.
    pub wrap_t: WrapMode,
    /// The filter where the texture is drawn smaller than it is.
    pub min_filter: Filter,
    /// The filter where the texture is drawn larger than it is.
    pub mag_filter: Filter,
}

impl Default for Sampling {
    /// Repeating in both directions, linear in both filters.
    fn default() -> (sampling: Sampling)
        ensures
            sampling == (Sampling {
                wrap_s: WrapMode::Repeat,
                wrap_t: WrapMode::Repeat,
                min_filter: Filter::Linear,
                mag_filter: Filter::Linear,
            }),
    {
        Sampling {
            wrap_s: WrapMode::Repeat,
            wrap_t: WrapMode::Repeat,
            min_filter: Filter::Linear,
            mag_filter: Filter::Linear,
        }
    }
}

/// Why a texture cannot be made.
#[derive(Clone, Copy, Debug, PartialEq, Eq, Structural)]
pub enum TextureError {
    /// The width or the height is more than the driver's signed 32-bit size
    /// can state, or the pixels are more bytes than one allocation can hold.
    TooLarge,
    /// The bytes are not three for each pixel.
    SizeMismatch,
    /// The image holds floating-point samples.
    FloatSamples,
}

/// The mathematical value of a [`Texture`].
pub struct TextureView {
    pub width: u32,
    pub height: u32,
    pub pixels: Seq<u8>,
    pub sampling: Sampling,
}

/// The number of bytes of the pixels of a texture of this size.
pub open spec fn pixel_bytes(width: u32, height: u32) -> int {
    PIXEL_BYTES * width * height
}

/// Whether the driver can state this size and one allocation can hold its
/// pixels: no allocation is of more than `isize::MAX` bytes.
pub open spec fn size_ok(width: u32, height: u32) -> bool {
    width <= i32::MAX && height <= i32::MAX && pixel_bytes(width, height) <= isize::MAX
}

/// Whether a value is a texture: its size can be stated, and its pixels are
/// tightly packed.
pub open spec fn texture_ok(texture: TextureView) -> bool {
    size_ok(texture.width, texture.height) && texture.pixels.len() == pixel_bytes(
        texture.width,
        texture.height,
    )
}

/// A decoded image of the `image` crate. Nothing of its inside is known
/// here.
#[verifier::external_type_specification]
#[verifier::external_body]
pub struct ExDynamicImage(image::DynamicImage);

/// The width and the height of a decoded image, in pixels.
pub uninterp spec fn image_dimensions(image: image::DynamicImage) -> (u32, u32);

/// The pixels of a decoded image, converted to 8-bit RGB: three bytes for
/// each pixel, row after row from the top, each row from the left.
pub uninterp spec fn image_rgb8(image: image::DynamicImage) -> Seq<u8>;

/// `image::DynamicImage::width`: the width of the image.
pub assume_specification[ image::DynamicImage::width ](image: &image::DynamicImage) -> (width:
    u32)
    ensures
        width == image_dimensions(*image).0,
;

/// `image::DynamicImage::height`: the height of the image.
pub assume_specification[ image::DynamicImage::height ](image: &image::DynamicImage) -> (height:
    u32)
    ensures
        height == image_dimensions(*image).1,
;

/// Whether a decoded image is one of the two variants of
/// `image::DynamicImage` that hold floating-point samples.
pub uninterp spec fn image_has_float_samples(image: image::DynamicImage) -> bool;

/// The variants of the enum `image::DynamicImage`, told apart: whether the
/// image is `ImageRgb32F` or `ImageRgba32F`.
#[verifier::external_body]
fn has_float_samples(image: &image::DynamicImage) -> (float: bool)
    ensures
        float == image_has_float_samples(*image),
{
    match image {
        image::DynamicImage::ImageRgb32F(_) => true,
        image::DynamicImage::ImageRgba32F(_) => true,
        _ => false,
    }
}

/// `image::DynamicImage::to_rgb8`, and `ImageBuffer::into_raw` on what it
/// returns: a fresh buffer of the image's pixels as 8-bit RGB. The buffer is
/// made for the image's own width and height, with exactly three bytes for
/// each pixel. Making it panics where those are more bytes than one
/// allocation can hold, and converting a floating-point sample that is no
/// number panics too: neither image is admitted.
#[verifier::external_body]
fn rgb8_bytes(image: &image::DynamicImage) -> (bytes: Vec<u8>)
    requires
        !image_has_float_samples(*image),
        pixel_bytes(image_dimensions(*image).0, image_dimensions(*image).1) <= isize::MAX,
    ensures
        bytes@ == image_rgb8(*image),
        bytes@.len() == pixel_bytes(image_dimensions(*image).0, image_dimensions(*image).1),
{
    image.to_rgb8().into_raw()
}

/// A texture.
#[derive(Debug)]
pub struct Texture {
    width: u32,
    height: u32,
    pixels: Vec<u8>,
    sampling: Sampling,
}

impl View for Texture {
    type V = TextureView;

    closed spec fn view(&self) -> TextureView {
        TextureView {
            width: self.width,
            height: self.height,
            pixels: self.pixels@,
            sampling: self.sampling,
        }
    }
}

/// Whether the pixels of a texture of this size are no more bytes than one
/// allocation can hold, given that the driver can state the size.
fn fits_memory(width: u32, height: u32) -> (fits: bool)
    requires
        width <= i32::MAX,
        height <= i32::MAX,
    ensures
        fits == (pixel_bytes(width, height) <= isize::MAX),
{
    assert(PIXEL_BYTES * width * height <= 3 * 0x7fff_ffff * 0x7fff_ffff) by (nonlinear_arith)
        requires
            width <= 0x7fff_ffff,
            height <= 0x7fff_ffff,
    ;
    let bytes: u64 = PIXEL_BYTES as u64 * width as u64 * height as u64;
    bytes <= isize::MAX as u64
}

impl Texture {
    #[verifier::type_invariant]
    spec fn valid(self) -> bool {
        texture_ok(self@)
    }

    /// Makes a texture of tightly packed 8-bit RGB pixels.
    pub fn new(width: u32, height: u32, pixels: Vec<u8>, sampling: Sampling) -> (made: Result<
        Texture,
        TextureError,
    >)
        ensures
            match made {
                Ok(texture) => texture@ == (TextureView {
                    width,
                    height,
                    pixels: pixels@,
                    sampling,
                }) && texture_ok(texture@),
                Err(TextureError::TooLarge) => !size_ok(width, height),
                Err(TextureError::SizeMismatch) => size_ok(width, height) && pixels@.len()
                    != pixel_bytes(width, height),
                Err(TextureError::FloatSamples) => false,
            },
    {
        if width > i32::MAX as u32 || height > i32::MAX as u32 {
            return Err(TextureError::TooLarge);
        }
        if !fits_memory(width, height) {
            return Err(TextureError::TooLarge);
        }
        assert(PIXEL_BYTES * width * height == PIXEL_BYTES * (width * height)) by (nonlinear_arith);
        assert(0 <= width * height <= PIXEL_BYTES * (width * height)) by (nonlinear_arith);
        let expected: usize = PIXEL_BYTES * (width as usize * height as usize);
        if pixels.len() != expected {
            return Err(TextureError::SizeMismatch);
        }
        Ok(Texture { width, height, pixels, sampling })
    }

    /// Makes a texture of a decoded image of integer samples, whatever its
    /// pixel format: the image is converted to 8-bit RGB. An image of
    /// floating-point samples is refused, whatever its size.
    pub fn from_image(image: &image::DynamicImage, sampling: Sampling) -> (made: Result<
        Texture,
        TextureError,
    >)
        ensures
            match made {
                Ok(texture) => !image_has_float_samples(*image) && texture@ == (TextureView {
                    width: image_dimensions(*image).0,
                    height: image_dimensions(*image).1,
                    pixels: image_rgb8(*image),
                    sampling,
                }) && texture_ok(texture@),
                Err(TextureError::FloatSamples) => image_has_float_samples(*image),
                Err(TextureError::TooLarge) => !image_has_float_samples(*image) && !size_ok(
                    image_dimensions(*image).0,
                    image_dimensions(*image).1,
                ),
                Err(TextureError::SizeMismatch) => false,
            },
    {
        if has_float_samples(image) {
            return Err(TextureError::FloatSamples);
        }
        let width = image.width();
        let height = image.height();
        if width > i32::MAX as u32 || height > i32::MAX as u32 {
            return Err(TextureError::TooLarge);
        }
        if !fits_memory(width, height) {
            return Err(TextureError::TooLarge);
        }
        let pixels = rgb8_bytes(image);
        Ok(Texture { width, height, pixels, sampling })
    }

    /// The width in pixels.
    pub fn width(&self) -> (width: u32)
        ensures
            width == self@.width,
            width <= i32::MAX,
    {
        proof {
            use_type_invariant(self);
        }
        self.width
    }

    /// The height in pixels.
    pub fn height(&self) -> (height: u32)
        ensures
            height == self@.height,
            height <= i32::MAX,
    {
        proof {
            use_type_invariant(self);
        }
        self.height
    }

    /// The pixels: three bytes each, row after row, without padding.
    pub fn pixels(&self) -> (pixels: &[u8])
        ensures
            pixels@ == self@.pixels,
            pixels@.len() == pixel_bytes(self@.width, self@.height),
    {
        proof {
            use_type_invariant(self);
        }
        self.pixels.as_slice()
    }

    /// The sampling parameters.
    pub fn sampling(&self) -> (sampling: Sampling)
        ensures
            sampling == self@.sampling,
    {
        self.sampling
    }
}

} // verus!
