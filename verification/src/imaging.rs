use vstd::prelude::*;
use vstd::string::StringExecFns;

use crate::chars::{starts_with, str_to_chars};

verus! {

#[verifier::external_type_specification]
#[verifier::external_body]
pub struct ExDynamicImage(image::DynamicImage);

/// Errors of the image pipeline that do not come from the network or the uploader.
#[derive(Debug, PartialEq, Eq)]
pub enum AppError {
    /// Reading the image's bytes failed.
    Io(String),
    /// The image could not be decoded or encoded.
    Image(String),
    /// A size argument is not `WIDTHxHEIGHT`.
    Size(String),
}

pub enum AppErrorView {
    Io(Seq<char>),
    Image(Seq<char>),
    Size(Seq<char>),
}

impl View for AppError {
    type V = AppErrorView;

    open spec fn view(&self) -> AppErrorView {
        match self {
            AppError::Io(s) => AppErrorView::Io(s@),
            AppError::Image(s) => AppErrorView::Image(s@),
            AppError::Size(s) => AppErrorView::Size(s@),
        }
    }
}

pub open spec fn app_error_text(e: AppErrorView) -> Seq<char> {
    match e {
        AppErrorView::Io(m) => "io: "@ + m,
        AppErrorView::Image(m) => "image: "@ + m,
        AppErrorView::Size(m) => "size format: "@ + m,
    }
}

impl AppError {
    /// The human-readable description of the error.
    pub fn message(&self) -> (m: String)
        ensures
            m@ == app_error_text(self@),
    {
        let (mut m, detail) = match self {
            AppError::Io(s) => (String::from_str("io: "), s),
            AppError::Image(s) => (String::from_str("image: "), s),
            AppError::Size(s) => (String::from_str("size format: "), s),
        };
        m.append(detail.as_str());
        m
    }
}

/// Reads a `WIDTHxHEIGHT` size argument; a malformed one is a `Size` error.
pub fn parse_size(s: &str) -> (r: Result<(u32, u32), AppError>)
    ensures
        match crate::size::spec_parse_size(s@) {
            Ok(wh) => r == Ok::<(u32, u32), AppError>(wh),
            Err(m) => r is Err && r->Err_0@ == AppErrorView::Size(m),
        },
{
    match crate::size::parse_size(s) {
        Ok(wh) => Ok(wh),
        Err(m) => Err(AppError::Size(m)),
    }
}

/// Whether a line of the input names a remote image (an `http://` or `https://` URL)
/// rather than a local file.
pub fn is_remote(line: &str) -> (r: bool)
    ensures
        r == (line@.len() >= 7 && line@.take(7) == "http://"@) || (line@.len() >= 8 && line@.take(
            8,
        ) == "https://"@),
{
    let v = str_to_chars(line);
    let http = str_to_chars("http://");
    let https = str_to_chars("https://");
    proof {
        reveal_strlit("http://");
        reveal_strlit("https://");
    }
    starts_with(&v, &http) || starts_with(&v, &https)
}

/// A decoded image. It keeps the `image` crate's value, which the scaling and encoding
/// calls work on, and beside it the same image as plain values: its size, its pixel layout
/// (channels and bytes per pixel) and its samples, 8-bit or 16-bit. The fields are private,
/// so an image is only ever made by the decoding and scaling calls below, which fill both
/// parts from one value.
pub struct Raster {
    width: u32,
    height: u32,
    channels: u8,
    bytes_per_pixel: u8,
    samples8: Option<Vec<u8>>,
    samples16: Option<Vec<u16>>,
    img: image::DynamicImage,
}

/// A decoded image as plain values. Its samples run row by row, channel by channel: as
/// bytes for an 8-bit image, as 16-bit values for a 16-bit one.
pub struct RasterView {
    pub width: u32,
    pub height: u32,
    pub channels: u8,
    pub bytes_per_pixel: u8,
    pub samples8: Option<Seq<u8>>,
    pub samples16: Option<Seq<u16>>,
}

impl View for Raster {
    type V = RasterView;

    closed spec fn view(&self) -> RasterView {
        RasterView {
            width: self.width,
            height: self.height,
            channels: self.channels,
            bytes_per_pixel: self.bytes_per_pixel,
            samples8: match &self.samples8 {
                Some(v) => Some(v@),
                None => None,
            },
            samples16: match &self.samples16 {
                Some(v) => Some(v@),
                None => None,
            },
        }
    }
}

/// Whether an image's samples are 8-bit or 16-bit values.
pub open spec fn has_integer_samples(img: RasterView) -> bool {
    img.samples8 is Some || img.samples16 is Some
}

/// `out` has the pixel layout of `img`.
pub open spec fn same_layout(img: RasterView, out: RasterView) -> bool {
    &&& out.channels == img.channels
    &&& out.bytes_per_pixel == img.bytes_per_pixel
    &&& (out.samples8 is Some) == (img.samples8 is Some)
    &&& (out.samples16 is Some) == (img.samples16 is Some)
}

/// The image that the `image` crate decodes from these bytes, guessing the format from
/// them; `None` where it cannot. (The crate lets a process register decoding hooks; this
/// library registers none, and with none the result depends on the bytes alone.)
pub uninterp spec fn decoded(bytes: Seq<u8>) -> Option<RasterView>;

/// The PNG file that the `image` crate writes for an image with 8-bit or 16-bit samples;
/// `None` where it fails.
pub uninterp spec fn png_encoding(img: RasterView) -> Option<Seq<u8>>;

/// Scaling one side of `a` pixels against one of `b` stays within what memory can
/// address: the crate's scaling allocates up to 16 bytes per pixel of an `a` x `b` buffer
/// (and a side may grow to 1 where 0 is asked for).
pub open spec fn resize_in_memory(a: u32, b: u32) -> bool {
    (a as int + 1) * (b as int + 1) * 16 <= isize::MAX as int
}

/// Whether scaling to `width` x `height` stays within what memory can address.
pub fn resize_fits_in_memory(width: u32, height: u32) -> (r: bool)
    ensures
        r == resize_in_memory(width, height),
{
    let w: u128 = width as u128 + 1;
    let h: u128 = height as u128 + 1;
    assert(w * h <= 0x1_0000_0000 * 0x1_0000_0000) by (nonlinear_arith)
        requires
            w <= 0x1_0000_0000,
            h <= 0x1_0000_0000,
    ;
    w * h * 16 <= isize::MAX as u128
}

/// Decodes an image (`ImageReader::with_guessed_format`, then `ImageReader::decode`) and
/// reads its size, layout and samples (`width`, `height`, `color`, `as_flat_samples_u8`,
/// `as_flat_samples_u16`). Trusted: decoding succeeds exactly when the crate can decode
/// these bytes, and the result is that image (named, not spelled out); the PNG and JPEG
/// decoders give 8-bit or 16-bit samples. A failure to read is an `Io` error, a failure to
/// decode an `Image` error.
#[verifier::external_body]
fn decode_image(bytes: Vec<u8>) -> (r: Result<Raster, AppError>)
    ensures
        r is Ok <==> decoded(bytes@) is Some,
        r is Ok ==> r->Ok_0@ == decoded(bytes@)->0 && has_integer_samples(r->Ok_0@),
        r is Err ==> (r->Err_0 is Io || r->Err_0 is Image),
{
    let reader = image::ImageReader::new(std::io::Cursor::new(bytes)).with_guessed_format();
    let img = reader.map_err(|e| AppError::Io(e.to_string()))?.decode();
    let img = img.map_err(|e| AppError::Image(e.to_string()))?;
    let (width, height, color) = (img.width(), img.height(), img.color());
    let samples8 = img.as_flat_samples_u8().map(|f| f.samples.to_vec());
    let samples16 = img.as_flat_samples_u16().map(|f| f.samples.to_vec());
    let (channels, bytes_per_pixel) = (color.channel_count(), color.bytes_per_pixel());
    Ok(Raster { width, height, channels, bytes_per_pixel, samples8, samples16, img })
}

/// Scales an image to exactly `width` x `height` (`DynamicImage::resize_exact`, Lanczos
/// filter). Trusted: the result has exactly that size, as the crate documents, and the
/// source's pixel layout (the crate maps each layout to itself). Its samples are not
/// described: the filter computes in floating point. The crate allocates buffers of the
/// source's width and of the new size; `requires` keeps them addressable, where the
/// allocation would panic.
#[verifier::external_body]
fn resize_exact(img: &Raster, width: u32, height: u32) -> (r: Raster)
    requires
        resize_in_memory(img@.width, height),
        resize_in_memory(width, height),
    ensures
        r@.width == width && r@.height == height,
        same_layout(img@, r@),
{
    let out = img.img.resize_exact(width, height, image::imageops::FilterType::Lanczos3);
    let (w, h, color) = (out.width(), out.height(), out.color());
    let samples8 = out.as_flat_samples_u8().map(|f| f.samples.to_vec());
    let samples16 = out.as_flat_samples_u16().map(|f| f.samples.to_vec());
    let (channels, bytes_per_pixel) = (color.channel_count(), color.bytes_per_pixel());
    Raster { width: w, height: h, channels, bytes_per_pixel, samples8, samples16, img: out }
}

/// The largest side that a fitted image may have where `n` is asked for: `n`, or 1 where 0
/// is asked for.
pub open spec fn fit_bound(n: u32) -> u32 {
    if n == 0 {
        1
    } else {
        n
    }
}

/// The size `out` keeps the aspect ratio of `img` up to the rounding of each side to whole
/// pixels (and of a side to at least 1): `out.width / out.height` and `img.width /
/// img.height` differ by no more than that rounding allows.
pub open spec fn keeps_aspect(img: RasterView, out: RasterView) -> bool {
    let d = (out.width as int) * (img.height as int) - (out.height as int) * (img.width as int);
    -(img.width as int + img.height as int) <= d <= img.width as int + img.height as int
}

/// The size `out` is the largest that fits within `width` x `height` for the aspect ratio
/// of `img`: it fits (a side asked as 0 comes out as at most 1), keeps the aspect ratio,
/// and for a non-empty source and box it touches the box on one side.
pub open spec fn fitted_size(img: RasterView, out: RasterView, width: u32, height: u32) -> bool {
    &&& out.width <= fit_bound(width) && out.height <= fit_bound(height)
    &&& keeps_aspect(img, out)
    &&& (img.width >= 1 && img.height >= 1 && width >= 1 && height >= 1) ==> (out.width == width
        || out.height == height)
}

/// Scales an image to fit within `width` x `height`, keeping its aspect ratio
/// (`DynamicImage::resize`, Lanczos filter). Trusted: the result has the size the crate
/// documents, the largest within the box for the source's aspect ratio; the crate's source
/// computes each side as the source side times the smaller of the two side ratios, rounded
/// to a whole pixel and at least 1, so the rounding is what `fitted_size` allows. The
/// result has the source's pixel layout (the crate maps each layout to itself). Its samples
/// are not described: the filter computes in floating point. `requires` keeps the buffers
/// addressable, where the allocation would panic.
#[verifier::external_body]
fn resize_fit(img: &Raster, width: u32, height: u32) -> (r: Raster)
    requires
        resize_in_memory(img@.width, height),
        resize_in_memory(width, height),
    ensures
        fitted_size(img@, r@, width, height),
        same_layout(img@, r@),
{
    let out = img.img.resize(width, height, image::imageops::FilterType::Lanczos3);
    let (w, h, color) = (out.width(), out.height(), out.color());
    let samples8 = out.as_flat_samples_u8().map(|f| f.samples.to_vec());
    let samples16 = out.as_flat_samples_u16().map(|f| f.samples.to_vec());
    let (channels, bytes_per_pixel) = (color.channel_count(), color.bytes_per_pixel());
    Raster { width: w, height: h, channels, bytes_per_pixel, samples8, samples16, img: out }
}

/// Encodes an image as PNG (`DynamicImage::write_to`). Trusted: for an image with 8-bit or
/// 16-bit samples the result is the crate's PNG file for it (named); a failure is an
/// `Image` error. The crate writes the image's size, layout and sample values, which the
/// image's plain values hold.
#[verifier::external_body]
fn encode_png(img: &Raster) -> (r: Result<Vec<u8>, AppError>)
    ensures
        has_integer_samples(img@) ==> (r is Ok <==> png_encoding(img@) is Some),
        has_integer_samples(img@) && r is Ok ==> r->Ok_0@ == png_encoding(img@)->0,
        r is Err ==> r->Err_0 is Image,
{
    let mut buf = std::io::Cursor::new(Vec::new());
    match img.img.write_to(&mut buf, image::ImageFormat::Png) {
        Ok(()) => Ok(buf.into_inner()),
        Err(e) => Err(AppError::Image(e.to_string())),
    }
}

/// `out` is `img` scaled as asked, as far as its shape goes: exactly `width` x `height`,
/// or the largest size within them that keeps the aspect ratio when `keep_aspect`, with
/// the same pixel layout.
pub open spec fn scaled_shape(
    img: RasterView,
    out: RasterView,
    width: u32,
    height: u32,
    keep_aspect: bool,
) -> bool {
    &&& same_layout(img, out)
    &&& has_integer_samples(out)
    &&& if keep_aspect {
        fitted_size(img, out, width, height)
    } else {
        out.width == width && out.height == height
    }
}

/// Decodes an image, scales it to `width` x `height` (within those bounds, keeping the
/// aspect ratio, when `keep_aspect`), and encodes the result as PNG. The result is the PNG
/// file of an image of the asked shape and the source's layout; its pixels come from the
/// crate's floating-point filter and are not described. An image so wide that scaling it
/// would allocate more than memory can address is refused with an `Image` error.
pub fn cpu_process(bytes: Vec<u8>, width: u32, height: u32, keep_aspect: bool) -> (r: Result<
    Vec<u8>,
    AppError,
>)
    requires
        resize_in_memory(width, height),
    ensures
        match decoded(bytes@) {
            None => r is Err && (r->Err_0 is Io || r->Err_0 is Image),
            Some(img) => if !resize_in_memory(img.width, height) {
                r is Err && r->Err_0@ == AppErrorView::Image("image too large to resize"@)
            } else {
                exists|out: RasterView|
                    #[trigger] scaled_shape(img, out, width, height, keep_aspect) && match png_encoding(
                        out,
                    ) {
                        Some(png) => r is Ok && r->Ok_0@ == png,
                        None => r is Err && r->Err_0 is Image,
                    }
            },
        },
{
    let img = decode_image(bytes)?;
    if !resize_fits_in_memory(img.width, height) {
        return Err(AppError::Image(String::from_str("image too large to resize")));
    }
    let resized = if keep_aspect {
        resize_fit(&img, width, height)
    } else {
        resize_exact(&img, width, height)
    };
    let r = encode_png(&resized);
    assert(scaled_shape(img@, resized@, width, height, keep_aspect));
    r
}

} // verus!
