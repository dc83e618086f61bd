//! Decoded images as grids of pixels: how they are read from a container,
//! enlarged by block replication, and written to a container again.

use crate::dimension::within_limits;
use crate::format::ImageFormat;
use image::imageops::FilterType;
use image::{ColorType, DynamicImage, ImageBuffer, ImageError};
use std::io::Cursor;
use vstd::arithmetic::div_mod::lemma_fundamental_div_mod_converse;
use vstd::prelude::*;

verus! {

/// What the samples of a pixel stand for.
#[derive(Debug, Clone, Copy, PartialEq, Eq, Structural)]
pub enum Channels {
    /// One sample: luminance.
    L,
    /// Two samples: luminance and alpha.
    La,
    /// Three samples: red, green and blue.
    Rgb,
    /// Four samples: red, green, blue and alpha.
    Rgba,
}

/// How many bits a sample has.
#[derive(Debug, Clone, Copy, PartialEq, Eq, Structural)]
pub enum Depth {
    /// One byte.
    Eight,
    /// Two bytes, in the byte order of the machine.
    Sixteen,
}

impl Channels {
    /// The number of samples in a pixel.
    pub open spec fn count(self) -> nat {
        match self {
            Channels::L => 1,
            Channels::La => 2,
            Channels::Rgb => 3,
            Channels::Rgba => 4,
        }
    }

    /// The number of samples in a pixel.
    pub fn sample_count(self) -> (n: u8)
        ensures
            n == self.count(),
    {
        match self {
            Channels::L => 1,
            Channels::La => 2,
            Channels::Rgb => 3,
            Channels::Rgba => 4,
        }
    }
}

/// The layout that a number of samples in a pixel and a number of bytes
/// in a pixel stand for, if they stand for one that the library holds.
pub open spec fn layout_of(channel_count: u8, bytes_per_pixel: u8) -> Option<(Channels, Depth)> {
    let channels = if channel_count == 1 {
        Some(Channels::L)
    } else if channel_count == 2 {
        Some(Channels::La)
    } else if channel_count == 3 {
        Some(Channels::Rgb)
    } else if channel_count == 4 {
        Some(Channels::Rgba)
    } else {
        None
    };
    match channels {
        None => None,
        Some(c) => if bytes_per_pixel == c.count() {
            Some((c, Depth::Eight))
        } else if bytes_per_pixel == 2 * c.count() {
            Some((c, Depth::Sixteen))
        } else {
            None
        },
    }
}

/// A decoded image: a grid of `width` by `height` pixels in a given
/// layout, and the format it was decoded from. The rows follow each other
/// from the top, within a row the pixels from the left, within a pixel
/// its samples, and within a sample its bytes.
#[derive(Debug, Clone, PartialEq, Eq)]
pub struct DecodedImage {
    pub width: u32,
    pub height: u32,
    pub channels: Channels,
    pub depth: Depth,
    pub samples: Vec<u8>,
    pub format: ImageFormat,
}

/// An image as the decoder hands it out, before its layout is looked at.
#[derive(Debug, Clone, PartialEq, Eq)]
pub struct RawImage {
    pub width: u32,
    pub height: u32,
    pub channel_count: u8,
    pub bytes_per_pixel: u8,
    pub samples: Vec<u8>,
}

/// Why an image could not be decoded, as the image crate tells its
/// errors apart.
#[derive(Debug, Clone, Copy, PartialEq, Eq, Structural)]
pub enum DecodeFault {
    /// The bytes do not conform to the declared format.
    Decoding,
    /// An error of the encoder.
    Encoding,
    /// An error in the arguments of an operation.
    Parameter,
    /// More resources were needed than are allowed.
    Limits,
    /// The decoder does not provide what the bytes ask for.
    Unsupported,
    /// The bytes could not be read to their end.
    Io,
}

/// The error type of the image crate.
#[verifier::external_type_specification]
#[verifier::external_body]
pub struct ExImageError(ImageError);

/// Where the byte `b` of the pixel in column `x` and row `y` lies in
/// the samples of a grid that is `width` pixels wide and has `size` bytes
/// to the pixel.
pub open spec fn sample_index(width: int, size: int, x: int, y: int, b: int) -> int {
    (y * width + x) * size + b
}

impl DecodedImage {
    /// The number of bytes in a pixel.
    pub open spec fn pixel_size(&self) -> nat {
        match self.depth {
            Depth::Eight => self.channels.count(),
            Depth::Sixteen => 2 * self.channels.count(),
        }
    }

    /// The samples cover the grid and nothing more.
    pub open spec fn wf(&self) -> bool {
        self.samples@.len() == (self.width * self.height) * self.pixel_size()
    }

    /// The byte `b` of the pixel in column `x` and row `y`.
    pub open spec fn sample(&self, x: int, y: int, b: int) -> u8
        recommends
            0 <= x < self.width,
            0 <= y < self.height,
            0 <= b < self.pixel_size(),
    {
        self.samples@[sample_index(self.width as int, self.pixel_size() as int, x, y, b)]
    }

    /// The number of bytes in a pixel.
    pub fn bytes_per_pixel(&self) -> (n: u8)
        ensures
            n == self.pixel_size(),
            1 <= n <= 8,
    {
        let c = self.channels.sample_count();
        match self.depth {
            Depth::Eight => c,
            Depth::Sixteen => 2 * c,
        }
    }

    /// Tells whether the samples cover the grid and nothing more.
    pub fn is_well_formed(&self) -> (b: bool)
        ensures
            b == self.wf(),
    {
        let size = self.bytes_per_pixel();
        assert((self.width * self.height) * size <= (u32::MAX * u32::MAX) * 8)
            by (nonlinear_arith)
            requires
                self.width <= u32::MAX,
                self.height <= u32::MAX,
                size <= 8,
        ;
        assert(self.width * self.height <= u32::MAX * u32::MAX) by (nonlinear_arith)
            requires
                self.width <= u32::MAX,
                self.height <= u32::MAX,
        ;
        let cells: u128 = (self.width as u128) * (self.height as u128);
        self.samples.len() as u128 == cells * (size as u128)
    }
}

/// The image that the decoder's output stands for: its layout has to be
/// one that the library holds, and its samples have to cover the grid and
/// nothing more.
pub open spec fn assembled(
    width: u32,
    height: u32,
    channel_count: u8,
    bytes_per_pixel: u8,
    samples: Seq<u8>,
) -> Option<(u32, u32, Channels, Depth, Seq<u8>)> {
    match layout_of(channel_count, bytes_per_pixel) {
        None => None,
        Some((channels, depth)) => if samples.len() == (width * height) * bytes_per_pixel {
            Some((width, height, channels, depth, samples))
        } else {
            None
        },
    }
}

/// The factors by which an image is enlarged.
pub open spec fn is_upscale_factor(scale: u32) -> bool {
    scale == 2 || scale == 4 || scale == 8 || scale == 16
}

/// The samples of a grid enlarged by block replication: the grid is
/// `scale` times as wide and as high, and its pixel in column `x` and row
/// `y` is the pixel of the source in column `x / scale` and row
/// `y / scale`, byte for byte.
pub open spec fn replicated(
    samples: Seq<u8>,
    width: nat,
    height: nat,
    size: nat,
    scale: nat,
) -> Seq<u8> {
    Seq::new(
        ((width * scale) * (height * scale)) * size,
        |i: int|
            samples[sample_index(
                width as int,
                size as int,
                ((i / (size as int)) % ((width * scale) as int)) / (scale as int),
                ((i / (size as int)) / ((width * scale) as int)) / (scale as int),
                i % (size as int),
            )],
    )
}

/// What decoding bytes of a given format yields: width, height, the
/// number of samples and of bytes in a pixel, and the samples; or the
/// fault.
pub uninterp spec fn decoding(data: Seq<u8>, format: ImageFormat) -> Result<
    (u32, u32, u8, u8, Seq<u8>),
    DecodeFault,
>;

/// What encoding a grid in a given format yields: the bytes of the
/// container, or nothing where the grid cannot be encoded.
pub uninterp spec fn encoding(
    width: u32,
    height: u32,
    channels: Channels,
    depth: Depth,
    samples: Seq<u8>,
    format: ImageFormat,
) -> Option<Seq<u8>>;

/// A pixel of an enlarged grid is the pixel of the source in the column
/// and the row that its own, divided by the scale, give.
pub proof fn lemma_replicated_sample(
    samples: Seq<u8>,
    width: nat,
    height: nat,
    size: nat,
    scale: nat,
    x: int,
    y: int,
    b: int,
)
    requires
        scale > 0,
        0 <= x < width * scale,
        0 <= y < height * scale,
        0 <= b < size,
    ensures
        0 <= x / (scale as int) < width,
        0 <= y / (scale as int) < height,
        0 <= sample_index((width * scale) as int, size as int, x, y, b) < replicated(
            samples,
            width,
            height,
            size,
            scale,
        ).len(),
        replicated(samples, width, height, size, scale)[sample_index(
            (width * scale) as int,
            size as int,
            x,
            y,
            b,
        )] == samples[sample_index(
            width as int,
            size as int,
            x / (scale as int),
            y / (scale as int),
            b,
        )],
{
    let w = (width * scale) as int;
    let h = (height * scale) as int;
    let p = y * w + x;
    let i = p * size + b;
    assert(0 <= x / (scale as int) < width && 0 <= y / (scale as int) < height)
        by (nonlinear_arith)
        requires
            scale > 0,
            0 <= x < width * scale,
            0 <= y < height * scale,
    ;
    assert(0 <= p < w * h) by (nonlinear_arith)
        requires
            0 <= x < w,
            0 <= y < h,
            p == y * w + x,
    ;
    assert(0 <= i < (w * h) * size) by (nonlinear_arith)
        requires
            0 <= p < w * h,
            0 <= b < size,
            i == p * size + b,
    ;
    assert(i == (size as int) * p + b) by (nonlinear_arith)
        requires
            i == p * size + b,
    ;
    assert(p == w * y + x) by (nonlinear_arith)
        requires
            p == y * w + x,
    ;
    lemma_fundamental_div_mod_converse(i, size as int, p, b);
    lemma_fundamental_div_mod_converse(p, w, y, x);
    assert(i == sample_index((width * scale) as int, size as int, x, y, b));
}

/// The derivation law. In an image enlarged by `scale`, the block of
/// `scale` by `scale` pixels that stands for the source pixel in column
/// `bx` and row `by` holds that pixel and nothing else.
pub proof fn lemma_block_replication(img: DecodedImage, out: DecodedImage, scale: u32)
    requires
        scale > 0,
        out.width == scale * img.width,
        out.height == scale * img.height,
        out.channels == img.channels,
        out.depth == img.depth,
        out.samples@ == replicated(
            img.samples@,
            img.width as nat,
            img.height as nat,
            img.pixel_size(),
            scale as nat,
        ),
    ensures
        forall|bx: int, by: int, dx: int, dy: int, b: int|
            0 <= bx < img.width && 0 <= by < img.height && 0 <= dx < scale && 0 <= dy < scale && 0
                <= b < img.pixel_size() ==> #[trigger] out.sample(
                bx * scale + dx,
                by * scale + dy,
                b,
            ) == img.sample(bx, by, b),
{
    assert forall|bx: int, by: int, dx: int, dy: int, b: int|
        0 <= bx < img.width && 0 <= by < img.height && 0 <= dx < scale && 0 <= dy < scale && 0
            <= b < img.pixel_size() implies #[trigger] out.sample(
        bx * scale + dx,
        by * scale + dy,
        b,
    ) == img.sample(bx, by, b) by {
        let x = bx * scale + dx;
        let y = by * scale + dy;
        assert(0 <= x < img.width * scale && x / (scale as int) == bx) by (nonlinear_arith)
            requires
                x == bx * scale + dx,
                0 <= bx < img.width,
                0 <= dx < scale,
        ;
        assert(0 <= y < img.height * scale && y / (scale as int) == by) by (nonlinear_arith)
            requires
                y == by * scale + dy,
                0 <= by < img.height,
                0 <= dy < scale,
        ;
        assert(out.width as int == ((img.width as nat) * (scale as nat)) as int)
            by (nonlinear_arith)
            requires
                out.width == scale * img.width,
        ;
        lemma_replicated_sample(
            img.samples@,
            img.width as nat,
            img.height as nat,
            img.pixel_size(),
            scale as nat,
            x,
            y,
            b,
        );
    }
}

/// Calls `ImageFormat::from_mime_type` and
/// `image::load_from_memory_with_format`, and reads the result with
/// `DynamicImage::width`, `height`, `color` and `into_bytes` and with
/// `ColorType::channel_count` and `bytes_per_pixel`. The format is handed
/// over by its media type. Trusted: the outcome is a function of the
/// bytes and the format; each error of the crate is reported as the
/// fault of its own name.
#[verifier::external_body]
pub(crate) fn decode(data: &[u8], format: ImageFormat, mime_type: &str) -> (r: Result<
    RawImage,
    DecodeFault,
>)
    requires
        mime_type@ == format.mime_type(),
    ensures
        match decoding(data@, format) {
            Ok((width, height, channel_count, bytes_per_pixel, samples)) => r matches Ok(raw)
                && raw.width == width && raw.height == height && raw.channel_count
                == channel_count && raw.bytes_per_pixel == bytes_per_pixel && raw.samples@
                == samples,
            Err(fault) => r == Err::<RawImage, DecodeFault>(fault),
        },
{
    let f = image::ImageFormat::from_mime_type(mime_type).unwrap();
    let img = image::load_from_memory_with_format(data, f).map_err(|e| match e {
        ImageError::Decoding(_) => DecodeFault::Decoding,
        ImageError::Encoding(_) => DecodeFault::Encoding,
        ImageError::Parameter(_) => DecodeFault::Parameter,
        ImageError::Limits(_) => DecodeFault::Limits,
        ImageError::Unsupported(_) => DecodeFault::Unsupported,
        ImageError::IoError(_) => DecodeFault::Io,
    })?;
    let (width, height, color) = (img.width(), img.height(), img.color());
    let (channel_count, bytes_per_pixel) = (color.channel_count(), color.bytes_per_pixel());
    Ok(RawImage { width, height, channel_count, bytes_per_pixel, samples: img.into_bytes() })
}

/// Calls `DynamicImage::resize` of the crate image with the filter
/// `FilterType::Nearest`, on an image of one byte to the sample. Trusted,
/// for a non-empty image within the limits and a target that is 2, 4, 8
/// or 16 times its size in both directions: the result has the target's
/// size, and each of its pixels is the pixel of the source that lies
/// under its centre, so that the samples are those of `replicated`.
#[verifier::external_body]
fn resize_nearest_8(img: &DecodedImage, nwidth: u32, nheight: u32) -> (out: Vec<u8>)
    requires
        img.wf(),
        img.depth == Depth::Eight,
        img.width > 0,
        img.height > 0,
        within_limits(img.width, img.height),
        is_upscale_factor(nwidth / img.width),
        nwidth == (nwidth / img.width) * img.width,
        nheight == (nwidth / img.width) * img.height,
    ensures
        out@ == replicated(
            img.samples@,
            img.width as nat,
            img.height as nat,
            img.pixel_size(),
            (nwidth / img.width) as nat,
        ),
{
    let (w, h, v) = (img.width, img.height, img.samples.clone());
    let src = match img.channels {
        Channels::L => DynamicImage::ImageLuma8(ImageBuffer::from_raw(w, h, v).unwrap()),
        Channels::La => DynamicImage::ImageLumaA8(ImageBuffer::from_raw(w, h, v).unwrap()),
        Channels::Rgb => DynamicImage::ImageRgb8(ImageBuffer::from_raw(w, h, v).unwrap()),
        Channels::Rgba => DynamicImage::ImageRgba8(ImageBuffer::from_raw(w, h, v).unwrap()),
    };
    src.resize(nwidth, nheight, FilterType::Nearest).into_bytes()
}

/// Calls `DynamicImage::resize` of the crate image with the filter
/// `FilterType::Nearest`, on an image of two bytes to the sample, which
/// are put together and taken apart in the byte order of the machine.
/// Trusted as for one byte to the sample.
#[verifier::external_body]
fn resize_nearest_16(img: &DecodedImage, nwidth: u32, nheight: u32) -> (out: Vec<u8>)
    requires
        img.wf(),
        img.depth == Depth::Sixteen,
        img.width > 0,
        img.height > 0,
        within_limits(img.width, img.height),
        is_upscale_factor(nwidth / img.width),
        nwidth == (nwidth / img.width) * img.width,
        nheight == (nwidth / img.width) * img.height,
    ensures
        out@ == replicated(
            img.samples@,
            img.width as nat,
            img.height as nat,
            img.pixel_size(),
            (nwidth / img.width) as nat,
        ),
{
    let (w, h) = (img.width, img.height);
    let v = img.samples.chunks_exact(2).map(|b| u16::from_ne_bytes([b[0], b[1]])).collect();
    let src = match img.channels {
        Channels::L => DynamicImage::ImageLuma16(ImageBuffer::from_raw(w, h, v).unwrap()),
        Channels::La => DynamicImage::ImageLumaA16(ImageBuffer::from_raw(w, h, v).unwrap()),
        Channels::Rgb => DynamicImage::ImageRgb16(ImageBuffer::from_raw(w, h, v).unwrap()),
        Channels::Rgba => DynamicImage::ImageRgba16(ImageBuffer::from_raw(w, h, v).unwrap()),
    };
    src.resize(nwidth, nheight, FilterType::Nearest).into_bytes()
}

/// Calls `ImageFormat::from_mime_type` and
/// `image::write_buffer_with_format` of the crate image on a fresh
/// buffer. The format is handed over by its media type. Trusted: whether
/// the grid can be encoded, and the bytes that are written if it can, are
/// a function of the grid and the format.
#[verifier::external_body]
fn write_image(img: &DecodedImage, format: ImageFormat, mime_type: &str) -> (r: Result<
    Vec<u8>,
    ImageError,
>)
    requires
        img.wf(),
        mime_type@ == format.mime_type(),
    ensures
        match encoding(img.width, img.height, img.channels, img.depth, img.samples@, format) {
            Some(bytes) => r matches Ok(v) && v@ == bytes,
            None => r is Err,
        },
{
    let color = match (img.channels, img.depth) {
        (Channels::L, Depth::Eight) => ColorType::L8,
        (Channels::La, Depth::Eight) => ColorType::La8,
        (Channels::Rgb, Depth::Eight) => ColorType::Rgb8,
        (Channels::Rgba, Depth::Eight) => ColorType::Rgba8,
        (Channels::L, Depth::Sixteen) => ColorType::L16,
        (Channels::La, Depth::Sixteen) => ColorType::La16,
        (Channels::Rgb, Depth::Sixteen) => ColorType::Rgb16,
        (Channels::Rgba, Depth::Sixteen) => ColorType::Rgba16,
    };
    let f = image::ImageFormat::from_mime_type(mime_type).unwrap();
    let mut out = Cursor::new(Vec::new());
    image::write_buffer_with_format(&mut out, &img.samples, img.width, img.height, color, f)?;
    Ok(out.into_inner())
}

impl DecodedImage {
    /// Makes an image of what the decoder handed out. There is none
    /// where the layout is not one that the library holds, or where the
    /// samples do not cover the grid exactly.
    pub fn assemble(raw: RawImage, format: ImageFormat) -> (r: Option<DecodedImage>)
        ensures
            match assembled(
                raw.width,
                raw.height,
                raw.channel_count,
                raw.bytes_per_pixel,
                raw.samples@,
            ) {
                Some((width, height, channels, depth, samples)) => r matches Some(img)
                    && img.width == width && img.height == height && img.channels == channels
                    && img.depth == depth && img.samples@ == samples && img.format == format
                    && img.wf(),
                None => r is None,
            },
    {
        let channels = if raw.channel_count == 1 {
            Channels::L
        } else if raw.channel_count == 2 {
            Channels::La
        } else if raw.channel_count == 3 {
            Channels::Rgb
        } else if raw.channel_count == 4 {
            Channels::Rgba
        } else {
            return None;
        };
        let depth = if raw.bytes_per_pixel == channels.sample_count() {
            Depth::Eight
        } else if raw.bytes_per_pixel == 2 * channels.sample_count() {
            Depth::Sixteen
        } else {
            return None;
        };
        let img = DecodedImage {
            width: raw.width,
            height: raw.height,
            channels,
            depth,
            samples: raw.samples,
            format,
        };
        if img.is_well_formed() {
            Some(img)
        } else {
            None
        }
    }
}

/// Enlarges an image by block replication: every pixel of the source
/// becomes a block of `scale` by `scale` equal pixels.
pub fn upscale(img: &DecodedImage, scale: u32) -> (out: DecodedImage)
    requires
        img.wf(),
        within_limits(img.width, img.height),
        is_upscale_factor(scale),
    ensures
        out.width == scale * img.width,
        out.height == scale * img.height,
        out.channels == img.channels,
        out.depth == img.depth,
        out.format == img.format,
        out.samples@ == replicated(
            img.samples@,
            img.width as nat,
            img.height as nat,
            img.pixel_size(),
            scale as nat,
        ),
        out.wf(),
{
    if img.width == 0 || img.height == 0 {
        let out = DecodedImage {
            width: 0,
            height: 0,
            channels: img.channels,
            depth: img.depth,
            samples: Vec::new(),
            format: img.format,
        };
        assert(img.width == 0 && img.height == 0);
        assert(((0 * (scale as nat)) * (0 * (scale as nat))) * img.pixel_size() == 0)
            by (nonlinear_arith);
        assert(out.samples@ =~= replicated(img.samples@, 0, 0, img.pixel_size(), scale as nat));
        out
    } else {
        let nwidth = img.width * scale;
        let nheight = img.height * scale;
        assert(nwidth / img.width == scale && nwidth == (nwidth / img.width) * img.width)
            by (nonlinear_arith)
            requires
                nwidth == img.width * scale,
                img.width > 0,
        ;
        assert(nheight == scale * img.height) by (nonlinear_arith)
            requires
                nheight == img.height * scale,
        ;
        let samples = match img.depth {
            Depth::Eight => resize_nearest_8(img, nwidth, nheight),
            Depth::Sixteen => resize_nearest_16(img, nwidth, nheight),
        };
        assert(((img.width * scale) * (img.height * scale)) * img.pixel_size() == (nwidth
            * nheight) * img.pixel_size()) by (nonlinear_arith)
            requires
                nwidth == img.width * scale,
                nheight == img.height * scale,
        ;
        DecodedImage {
            width: nwidth,
            height: nheight,
            channels: img.channels,
            depth: img.depth,
            samples,
            format: img.format,
        }
    }
}

/// Writes an image to `dest` in the given container format. A layout
/// that the container cannot hold is a failure. On failure `dest` is left
/// as it was.
pub fn encode_image(img: &DecodedImage, format: ImageFormat, dest: &mut Vec<u8>) -> (r: Result<
    (),
    (),
>)
    requires
        img.wf(),
    ensures
        match encoding(img.width, img.height, img.channels, img.depth, img.samples@, format) {
            Some(bytes) => r is Ok && final(dest)@ == bytes,
            None => r is Err && final(dest)@ == old(dest)@,
        },
{
    let mime_type = format.mime_type_string();
    match write_image(img, format, mime_type.as_str()) {
        Ok(bytes) => {
            *dest = bytes;
            Ok(())
        },
        Err(_) => Err(()),
    }
}

} // verus!
