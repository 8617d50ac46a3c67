//! Decoded images: what the `image` crate makes of a file's bytes, held as
//! plain values.
//!
//! Whether bytes are an image is decided by decoding them in full, never by a
//! file's name. What the bytes decode to depends on the bytes alone, so
//! discovery and conversion, which both go through [`try_decode`], agree on
//! every file.
use vstd::prelude::*;
use image::ColorType;

verus! {

/// How the samples of a pixel are laid out.
#[derive(Clone, Copy, Debug, PartialEq, Eq, Structural)]
pub enum ColorKind {
    L8,
    La8,
    Rgb8,
    Rgba8,
    L16,
    La16,
    Rgb16,
    Rgba16,
    Rgb32F,
    Rgba32F,
}

/// What the `image` crate decodes the bytes to, in the format that
/// `image::guess_format` finds for them: the color type, the width, the
/// height and the samples of the image as bytes, row by row. The color type
/// is `None` where it is not one of the ten kinds above. The whole is `None`
/// where no format is found or the bytes do not decode in it.
pub uninterp spec fn decoded_parts(content: Seq<u8>) -> Option<
    (Option<ColorKind>, u32, u32, Seq<u8>),
>;

/// `image::load_from_memory_with_format`, in the format that
/// `image::guess_format` finds for the same bytes, with the decoded image
/// taken apart by `DynamicImage::color`, `width`, `height` and `into_bytes`.
/// Each color type of the `image` crate is given as the kind of the same
/// name. Neither function reads anything but the buffer, so the result is the
/// same for the same bytes; that is all that is claimed.
#[verifier::external_body]
fn decode_parts(content: &[u8]) -> (parts: Option<(Option<ColorKind>, u32, u32, Vec<u8>)>)
    ensures
        match parts {
            Some((color, width, height, pixels)) => decoded_parts(content@) == Some(
                (color, width, height, pixels@),
            ),
            None => decoded_parts(content@) is None,
        },
{
    let image = image::load_from_memory_with_format(content, image::guess_format(content).ok()?).ok()?;
    let color = match image.color() {
        ColorType::L8 => Some(ColorKind::L8),
        ColorType::La8 => Some(ColorKind::La8),
        ColorType::Rgb8 => Some(ColorKind::Rgb8),
        ColorType::Rgba8 => Some(ColorKind::Rgba8),
        ColorType::L16 => Some(ColorKind::L16),
        ColorType::La16 => Some(ColorKind::La16),
        ColorType::Rgb16 => Some(ColorKind::Rgb16),
        ColorType::Rgba16 => Some(ColorKind::Rgba16),
        ColorType::Rgb32F => Some(ColorKind::Rgb32F),
        ColorType::Rgba32F => Some(ColorKind::Rgba32F),
        _ => None,
    };
    Some((color, image.width(), image.height(), image.into_bytes()))
}

impl ColorKind {
    /// The number of bytes that one pixel takes.
    pub open spec fn pixel_bytes(self) -> nat {
        match self {
            ColorKind::L8 => 1,
            ColorKind::La8 => 2,
            ColorKind::Rgb8 => 3,
            ColorKind::Rgba8 => 4,
            ColorKind::L16 => 2,
            ColorKind::La16 => 4,
            ColorKind::Rgb16 => 6,
            ColorKind::Rgba16 => 8,
            ColorKind::Rgb32F => 12,
            ColorKind::Rgba32F => 16,
        }
    }

    /// The number of bytes that one pixel takes.
    pub fn bytes_per_pixel(&self) -> (bytes: u8)
        ensures
            bytes == self.pixel_bytes(),
    {
        match self {
            ColorKind::L8 => 1,
            ColorKind::La8 => 2,
            ColorKind::Rgb8 => 3,
            ColorKind::Rgba8 => 4,
            ColorKind::L16 => 2,
            ColorKind::La16 => 4,
            ColorKind::Rgb16 => 6,
            ColorKind::Rgba16 => 8,
            ColorKind::Rgb32F => 12,
            ColorKind::Rgba32F => 16,
        }
    }
}

/// What a decoded image is: its layout, its dimensions and its samples.
pub ghost struct ImageView {
    pub color: ColorKind,
    pub width: nat,
    pub height: nat,
    pub pixels: Seq<u8>,
}

impl ImageView {
    /// The number of bytes that an image of this layout and these dimensions
    /// takes.
    pub open spec fn buffer_len(self) -> nat {
        self.width * self.height * self.color.pixel_bytes()
    }

    /// The samples are those of `width * height` pixels, no more and no
    /// fewer.
    pub open spec fn well_formed(self) -> bool {
        self.pixels.len() == self.buffer_len()
    }
}

/// A decoded image whose buffer holds exactly the pixels that its dimensions
/// call for.
#[derive(Debug)]
pub struct DecodedImage {
    color: ColorKind,
    width: u32,
    height: u32,
    pixels: Vec<u8>,
}

impl View for DecodedImage {
    type V = ImageView;

    closed spec fn view(&self) -> ImageView {
        ImageView {
            color: self.color,
            width: self.width as nat,
            height: self.height as nat,
            pixels: self.pixels@,
        }
    }
}

impl DecodedImage {
    #[verifier::type_invariant]
    spec fn buffer_fits(self) -> bool {
        self@.well_formed()
    }

    /// An image of the given layout and dimensions over `pixels`, if the
    /// buffer has the length that they call for.
    pub fn from_pixels(color: ColorKind, width: u32, height: u32, pixels: Vec<u8>) -> (image:
        Option<DecodedImage>)
        ensures
            image is Some <==> pixels@.len() == width * height * color.pixel_bytes(),
            image matches Some(made) ==> made@ == (ImageView {
                color,
                width: width as nat,
                height: height as nat,
                pixels: pixels@,
            }),
    {
        let per_pixel = color.bytes_per_pixel() as u128;
        assert(width * height <= 0xffff_ffff * 0xffff_ffff && width * height * per_pixel
            <= 0xffff_ffff * 0xffff_ffff * 16) by (nonlinear_arith)
            requires
                0 <= width <= 0xffff_ffff,
                0 <= height <= 0xffff_ffff,
                0 <= per_pixel <= 16,
        ;
        let needed: u128 = (width as u128) * (height as u128) * per_pixel;
        if pixels.len() as u128 == needed {
            Some(DecodedImage { color, width, height, pixels })
        } else {
            None
        }
    }

    /// The layout of the pixels.
    pub fn color(&self) -> (color: ColorKind)
        ensures
            color == self@.color,
    {
        self.color
    }

    /// The number of pixels in a row.
    pub fn width(&self) -> (width: u32)
        ensures
            width == self@.width,
    {
        self.width
    }

    /// The number of rows.
    pub fn height(&self) -> (height: u32)
        ensures
            height == self@.height,
    {
        self.height
    }

    /// The samples, row by row: exactly as many bytes as the dimensions call
    /// for.
    pub fn pixels(&self) -> (pixels: &Vec<u8>)
        ensures
            pixels@ == self@.pixels,
            self@.well_formed(),
    {
        proof {
            use_type_invariant(self);
        }
        &self.pixels
    }
}

/// The image that bytes decode to: what the decoder gives for them, if its
/// color type is a known kind and its buffer holds exactly the pixels that
/// its dimensions call for. Bytes that are no image decode to nothing.
pub open spec fn decoded_image(content: Seq<u8>) -> Option<ImageView> {
    match decoded_parts(content) {
        Some((Some(color), width, height, pixels)) => {
            let view = ImageView { color, width: width as nat, height: height as nat, pixels };
            if view.well_formed() {
                Some(view)
            } else {
                None
            }
        },
        _ => None,
    }
}

/// The image that the bytes of a file hold, if they decode as one in a
/// supported format, and nothing if they do not.
pub fn try_decode(content: &[u8]) -> (decoded: Option<DecodedImage>)
    ensures
        match decoded {
            Some(image) => decoded_image(content@) == Some(image@),
            None => decoded_image(content@) is None,
        },
{
    match decode_parts(content) {
        Some((Some(color), width, height, pixels)) => DecodedImage::from_pixels(
            color,
            width,
            height,
            pixels,
        ),
        _ => None,
    }
}

/// Whether the bytes of a file decode as an image. This is the one test by
/// which a file counts as an image; its name has no part in it.
pub fn is_image_file(content: &[u8]) -> (decodes: bool)
    ensures
        decodes == decoded_image(content@).is_some(),
{
    try_decode(content).is_some()
}

} // verus!
