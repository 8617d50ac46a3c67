//! The conversion of one file, step by step.
//!
//! Reading, encoding and writing are done by the caller; what is decided in
//! between is decided here. Each step takes what the caller's last action
//! gave and hands back either what the next action needs or the error that
//! ends the conversion:
//!
//! 1. the input is read: [`ConversionRequest::decode`] makes a
//!    [`DecodedInput`] of it;
//! 2. the file is announced: [`DecodedInput::prepare_encoding`] makes an
//!    [`EncodeJob`];
//! 3. the pixels are encoded: [`EncodeJob::encoded`] makes a [`WriteJob`];
//! 4. the bytes are written and the file is measured: [`WriteJob::written`]
//!    makes the [`ConversionResult`].
use vstd::prelude::*;
use crate::decoding::{decoded_image, try_decode, ColorKind, DecodedImage, ImageView};
use crate::error::PipelineError;
use crate::naming::{display_name, display_name_of, output_path, output_path_for};
use crate::report::ConversionResult;

verus! {

/// One file to convert, and the directory that takes the result.
#[derive(Debug)]
pub struct ConversionRequest {
    pub input_path: String,
    pub output_dir: String,
}

/// What reading the input file gave.
#[derive(Debug)]
pub enum InputRead {
    /// The file could not be opened or measured.
    Unreadable,
    /// The size of the file and its bytes.
    Content { size_bytes: u64, bytes: Vec<u8> },
}

/// An input that was read and decoded.
#[derive(Debug)]
pub struct DecodedInput {
    /// The name under which the file is reported.
    pub name: String,
    /// Where the result is to be written.
    pub output_path: String,
    pub original_size_bytes: u64,
    pub image: DecodedImage,
}

/// `webp::Encoder`, an encoder over a borrowed buffer of pixels. Nothing of
/// what it holds is seen here.
#[verifier::external_type_specification]
#[verifier::external_body]
pub struct ExEncoder<'a>(webp::Encoder<'a>);

/// The encoder that `webp::Encoder::from_rgb` makes over a buffer of 8-bit
/// RGB pixels and the dimensions of the image.
pub uninterp spec fn rgb_encoder(pixels: Seq<u8>, width: int, height: int) -> webp::Encoder<
    'static,
>;

/// The encoder that `webp::Encoder::from_rgba` makes over a buffer of 8-bit
/// RGBA pixels and the dimensions of the image.
pub uninterp spec fn rgba_encoder(pixels: Seq<u8>, width: int, height: int) -> webp::Encoder<
    'static,
>;

/// `webp::Encoder::from_rgb` makes an encoder over a buffer of 8-bit RGB
/// pixels. It panics on a buffer of fewer than `width * height * 3` bytes,
/// which `requires` leaves out. The encoder holds the buffer, the layout and
/// the dimensions it was given and nothing else, so it is the same for the
/// same pixels and dimensions; no more is claimed of it.
pub assume_specification<'a>[ webp::Encoder::<'a>::from_rgb ](
    image: &'a [u8],
    width: u32,
    height: u32,
) -> (encoder: webp::Encoder<'a>)
    requires
        image@.len() >= width * height * 3,
    ensures
        encoder == rgb_encoder(image@, width as int, height as int),
;

/// `webp::Encoder::from_rgba` makes an encoder over a buffer of 8-bit RGBA
/// pixels. It panics on a buffer of fewer than `width * height * 4` bytes,
/// which `requires` leaves out. The encoder holds the buffer, the layout and
/// the dimensions it was given and nothing else, so it is the same for the
/// same pixels and dimensions; no more is claimed of it.
pub assume_specification<'a>[ webp::Encoder::<'a>::from_rgba ](
    image: &'a [u8],
    width: u32,
    height: u32,
) -> (encoder: webp::Encoder<'a>)
    requires
        image@.len() >= width * height * 4,
    ensures
        encoder == rgba_encoder(image@, width as int, height as int),
;

/// The pixel layouts that the WebP encoder takes.
#[derive(Clone, Copy, Debug, PartialEq, Eq, Structural)]
pub enum PixelLayout {
    Rgb,
    Rgba,
}

impl PixelLayout {
    /// The color kind that has this layout.
    pub open spec fn color(self) -> ColorKind {
        match self {
            PixelLayout::Rgb => ColorKind::Rgb8,
            PixelLayout::Rgba => ColorKind::Rgba8,
        }
    }

    /// The number of bytes that one pixel takes.
    pub fn bytes_per_pixel(&self) -> (bytes: u8)
        ensures
            bytes == self.color().pixel_bytes(),
    {
        match self {
            PixelLayout::Rgb => 3,
            PixelLayout::Rgba => 4,
        }
    }
}

/// The layout in which the encoder takes pixels of the given kind: 8-bit RGB
/// with or without alpha, and no other. These are the kinds of image that
/// `webp::Encoder::from_image` accepts.
pub open spec fn encoder_layout(color: ColorKind) -> Option<PixelLayout> {
    match color {
        ColorKind::Rgb8 => Some(PixelLayout::Rgb),
        ColorKind::Rgba8 => Some(PixelLayout::Rgba),
        _ => None,
    }
}

/// What an encode job is.
pub ghost struct EncodeJobView {
    pub output_path: Seq<char>,
    pub original_size_bytes: u64,
    pub layout: PixelLayout,
    pub image: ImageView,
}

/// Pixels that the encoder takes, and where the result goes. The layout is
/// that of the pixels, and the buffer holds `width * height` pixels in it.
#[derive(Debug)]
pub struct EncodeJob {
    output_path: String,
    original_size_bytes: u64,
    layout: PixelLayout,
    image: DecodedImage,
}

impl View for EncodeJob {
    type V = EncodeJobView;

    closed spec fn view(&self) -> EncodeJobView {
        EncodeJobView {
            output_path: self.output_path@,
            original_size_bytes: self.original_size_bytes,
            layout: self.layout,
            image: self.image@,
        }
    }
}

/// The encoder of a job: the one that the `webp` crate makes for the layout
/// of the job, over its pixels and with its dimensions.
pub open spec fn encoder_of(job: EncodeJob) -> webp::Encoder<'static> {
    match job@.layout {
        PixelLayout::Rgb => rgb_encoder(
            job@.image.pixels,
            job@.image.width as int,
            job@.image.height as int,
        ),
        PixelLayout::Rgba => rgba_encoder(
            job@.image.pixels,
            job@.image.width as int,
            job@.image.height as int,
        ),
    }
}

/// Encoded bytes, and where to write them.
#[derive(Debug)]
pub struct WriteJob {
    pub output_path: String,
    pub original_size_bytes: u64,
    pub bytes: Vec<u8>,
}

impl ConversionRequest {
    /// The first step, once the input was read. A file that could not be
    /// read gives `InputUnreadable`. Bytes that do not decode give
    /// `DecodeFailed`. Bytes that do give the decoded input: the image they
    /// decode to, the size that was measured, the name under which the file
    /// is reported and the path of the output.
    pub fn decode(&self, input: &InputRead) -> (step: Result<DecodedInput, PipelineError>)
        ensures
            step == Err::<DecodedInput, _>(PipelineError::InputUnreadable) <==> input
                is Unreadable,
            input matches InputRead::Content { size_bytes, bytes } ==> match decoded_image(
                bytes@,
            ) {
                Some(view) => {
                    &&& step matches Ok(decoded)
                    &&& decoded.image@ == view
                    &&& decoded.name@ == display_name(self.input_path@)
                    &&& decoded.output_path@ == output_path(self.output_dir@, self.input_path@)
                    &&& decoded.original_size_bytes == size_bytes
                },
                None => step == Err::<DecodedInput, _>(PipelineError::DecodeFailed),
            },
    {
        match input {
            InputRead::Unreadable => Err(PipelineError::InputUnreadable),
            InputRead::Content { size_bytes, bytes } => {
                let decoded = try_decode(bytes.as_slice());
                self.with_decoded(*size_bytes, decoded)
            },
        }
    }

    /// The first step for an input of `size_bytes` bytes, given what decoding
    /// it gave: `DecodeFailed` where it gave nothing, else the decoded input.
    pub fn with_decoded(&self, size_bytes: u64, decoded: Option<DecodedImage>) -> (step: Result<
        DecodedInput,
        PipelineError,
    >)
        ensures
            match decoded {
                Some(image) => {
                    &&& step matches Ok(input)
                    &&& input.name@ == display_name(self.input_path@)
                    &&& input.output_path@ == output_path(self.output_dir@, self.input_path@)
                    &&& input.original_size_bytes == size_bytes
                    &&& input.image == image
                },
                None => step == Err::<DecodedInput, _>(PipelineError::DecodeFailed),
            },
    {
        match decoded {
            Some(image) => Ok(
                DecodedInput {
                    name: display_name_of(self.input_path.as_str()),
                    output_path: output_path_for(
                        self.output_dir.as_str(),
                        self.input_path.as_str(),
                    ),
                    original_size_bytes: size_bytes,
                    image,
                },
            ),
            None => Err(PipelineError::DecodeFailed),
        }
    }
}

impl DecodedInput {
    /// The second step: the pixels go to the encoder if it takes their
    /// layout, 8-bit RGB with or without alpha. Any other layout gives
    /// `EncodeFailed`.
    pub fn prepare_encoding(self) -> (step: Result<EncodeJob, PipelineError>)
        ensures
            match encoder_layout(self.image@.color) {
                Some(layout) => {
                    &&& step matches Ok(job)
                    &&& job@ == (EncodeJobView {
                        output_path: self.output_path@,
                        original_size_bytes: self.original_size_bytes,
                        layout,
                        image: self.image@,
                    })
                },
                None => step == Err::<EncodeJob, _>(PipelineError::EncodeFailed),
            },
    {
        let layout = match self.image.color() {
            ColorKind::Rgb8 => PixelLayout::Rgb,
            ColorKind::Rgba8 => PixelLayout::Rgba,
            _ => {
                return Err(PipelineError::EncodeFailed);
            },
        };
        Ok(
            EncodeJob {
                output_path: self.output_path,
                original_size_bytes: self.original_size_bytes,
                layout,
                image: self.image,
            },
        )
    }
}

impl EncodeJob {
    #[verifier::type_invariant]
    spec fn layout_is_that_of_the_pixels(self) -> bool {
        self.image@.color == self.layout.color()
    }

    /// Where the encoded bytes are to be written.
    pub fn output_path(&self) -> (path: &String)
        ensures
            path@ == self@.output_path,
    {
        &self.output_path
    }

    /// The size of the input file, in bytes.
    pub fn original_size_bytes(&self) -> (size: u64)
        ensures
            size == self@.original_size_bytes,
    {
        self.original_size_bytes
    }

    /// The layout of the pixels.
    pub fn layout(&self) -> (layout: PixelLayout)
        ensures
            layout == self@.layout,
            layout.color() == self@.image.color,
    {
        proof {
            use_type_invariant(self);
        }
        self.layout
    }

    /// The number of pixels in a row.
    pub fn width(&self) -> (width: u32)
        ensures
            width == self@.image.width,
    {
        self.image.width()
    }

    /// The number of rows.
    pub fn height(&self) -> (height: u32)
        ensures
            height == self@.image.height,
    {
        self.image.height()
    }

    /// The pixels to encode, row by row: exactly `width * height` pixels of
    /// three bytes each for `Rgb`, of four for `Rgba`.
    pub fn pixels(&self) -> (pixels: &Vec<u8>)
        ensures
            pixels@ == self@.image.pixels,
            pixels@.len() == self@.image.width * self@.image.height
                * self@.layout.color().pixel_bytes(),
    {
        proof {
            use_type_invariant(self);
        }
        self.image.pixels()
    }

    /// An encoder over the pixels of this job, for the caller to run at the
    /// quality asked for: the one for RGB pixels or the one for RGBA pixels,
    /// as the layout of the job has it, made over all of the job's pixels and
    /// with its dimensions. The buffer is always as long as the encoder needs
    /// it to be.
    pub fn encoder(&self) -> (encoder: webp::Encoder<'_>)
        ensures
            encoder == encoder_of(*self),
    {
        proof {
            use_type_invariant(self);
        }
        let pixels = self.image.pixels();
        match self.layout {
            PixelLayout::Rgb => webp::Encoder::from_rgb(
                pixels.as_slice(),
                self.image.width(),
                self.image.height(),
            ),
            PixelLayout::Rgba => webp::Encoder::from_rgba(
                pixels.as_slice(),
                self.image.width(),
                self.image.height(),
            ),
        }
    }

    /// The third step, once the encoder ran: the bytes it gave are to be
    /// written to the output path. An encoder that gave nothing gives
    /// `EncodeFailed`.
    pub fn encoded(self, encoded: Option<Vec<u8>>) -> (step: Result<WriteJob, PipelineError>)
        ensures
            match encoded {
                Some(bytes) => {
                    &&& step matches Ok(job)
                    &&& job.output_path@ == self@.output_path
                    &&& job.original_size_bytes == self@.original_size_bytes
                    &&& job.bytes == bytes
                },
                None => step == Err::<WriteJob, _>(PipelineError::EncodeFailed),
            },
    {
        match encoded {
            Some(bytes) => Ok(
                WriteJob {
                    output_path: self.output_path,
                    original_size_bytes: self.original_size_bytes,
                    bytes,
                },
            ),
            None => Err(PipelineError::EncodeFailed),
        }
    }
}

impl WriteJob {
    /// The last step, once the bytes were written and the written file was
    /// measured: the result holds the size of the input and the size that
    /// was measured of the output, and nothing is taken for granted about
    /// which of the two is the larger. A write or a measurement that failed
    /// gives `WriteFailed`.
    pub fn written(self, written_size: Option<u64>) -> (step: Result<
        ConversionResult,
        PipelineError,
    >)
        ensures
            match written_size {
                Some(size) => {
                    &&& step matches Ok(result)
                    &&& result.output_path == self.output_path
                    &&& result.original_size_bytes == self.original_size_bytes
                    &&& result.encoded_size_bytes == size
                },
                None => step == Err::<ConversionResult, _>(PipelineError::WriteFailed),
            },
    {
        match written_size {
            Some(size) => Ok(
                ConversionResult {
                    output_path: self.output_path,
                    original_size_bytes: self.original_size_bytes,
                    encoded_size_bytes: size,
                },
            ),
            None => Err(PipelineError::WriteFailed),
        }
    }
}

} // verus!
