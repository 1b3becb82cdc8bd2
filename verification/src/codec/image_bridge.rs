//! The calls into the `image` crate that encoding, decoding and resizing make, with
//! what the library relies on of them.
use vstd::prelude::*;

use std::io::Cursor;

use image::AnimationDecoder;
use image::Frame as AnimationFrame;

use crate::text::ascii_lower;

verus! {

/// The bytes of `raw`, a `w` x `h` RGBA image, resized to `new_w` x `new_h` by
/// `image::imageops::resize` with the filter named by `filter`
/// (0 = `Nearest`, 1 = `Lanczos3`).
pub uninterp spec fn resized_rgba(raw: Seq<u8>, w: u32, h: u32, new_w: u32, new_h: u32, filter: u8) -> Seq<u8>;

/// Whether `image::imageops::resize` can count the buffers it allocates when it
/// resizes a `w` x `h` image to `new_w` x `new_h` (`ImageBuffer::new` panics when the
/// channel count of a buffer overflows `usize`): the result, and, when it resamples
/// (a nonempty image to another size), the `w` x `new_h` intermediate image of its
/// two passes.
pub open spec fn resize_fits(w: u32, h: u32, new_w: u32, new_h: u32) -> bool {
    &&& new_w * new_h * 4 <= usize::MAX
    &&& (w != 0 && h != 0 && (new_w != w || new_h != h)) ==> w * new_h * 4 <= usize::MAX
}

/// Calls `image::imageops::resize` with `FilterType::Nearest` on the `w` x `h` RGBA
/// image whose bytes are `raw`. The result is the resized image's bytes: a function
/// of the arguments (named `resized_rgba`), `new_w * new_h * 4` of them, as the
/// function returns a `new_w` x `new_h` buffer.
#[verifier::external_body]
pub(crate) fn resize_nearest(raw: &[u8], w: u32, h: u32, new_w: u32, new_h: u32) -> (res: Vec<u8>)
    requires
        raw@.len() == w * h * 4,
        resize_fits(w, h, new_w, new_h),
    ensures
        res@ == resized_rgba(raw@, w, h, new_w, new_h, 0),
        res@.len() == new_w * new_h * 4,
{
    let img = image::RgbaImage::from_raw(w, h, raw.to_vec()).unwrap();
    image::imageops::resize(&img, new_w, new_h, image::imageops::FilterType::Nearest).into_raw()
}

/// Calls `image::imageops::resize` with `FilterType::Lanczos3`; otherwise as
/// `resize_nearest`.
#[verifier::external_body]
pub(crate) fn resize_lanczos3(raw: &[u8], w: u32, h: u32, new_w: u32, new_h: u32) -> (res: Vec<u8>)
    requires
        raw@.len() == w * h * 4,
        resize_fits(w, h, new_w, new_h),
    ensures
        res@ == resized_rgba(raw@, w, h, new_w, new_h, 1),
        res@.len() == new_w * new_h * 4,
{
    let img = image::RgbaImage::from_raw(w, h, raw.to_vec()).unwrap();
    image::imageops::resize(&img, new_w, new_h, image::imageops::FilterType::Lanczos3).into_raw()
}

#[verifier::external_type_specification]
#[verifier::external_body]
pub struct ExImageError(image::ImageError);

/// The message of an `image::ImageError` (its `Display`). Nothing is claimed of it.
#[verifier::external_body]
pub(crate) fn image_error_text(e: &image::ImageError) -> String {
    e.to_string()
}

/// The frames `image`'s GIF decoder gives for the file `data`, each as width,
/// height, RGBA bytes and delay (numerator and denominator of milliseconds), or
/// `None` when decoding fails.
pub uninterp spec fn gif_decoding(data: Seq<u8>) -> Option<Seq<(u32, u32, Seq<u8>, u32, u32)>>;

/// The plain view of decoded GIF frames.
pub open spec fn gif_parts_view(v: Seq<(u32, u32, Vec<u8>, u32, u32)>) -> Seq<(u32, u32, Seq<u8>, u32, u32)> {
    v.map_values(|p: (u32, u32, Vec<u8>, u32, u32)| (p.0, p.1, p.2@, p.3, p.4))
}

/// Which step of GIF decoding failed: reading the header or decoding the frames.
pub enum GifFailure {
    Read(image::ImageError),
    Frames(image::ImageError),
}

/// Calls `GifDecoder::new` on an in-memory copy of `data` and decodes its frames
/// (`AnimationDecoder::into_frames`, `Frames::collect_frames`), each composited to the
/// full canvas, in order; each frame is handed back as its `Frame::delay` fraction
/// (`Delay::numer_denom_ms`) and its buffer (`Frame::into_buffer`). Decoding is
/// deterministic, so the outcome is a function of `data` (named `gif_decoding`). An
/// `image::ImageBuffer` always holds at least `width * height * 4` bytes.
#[verifier::external_body]
pub(crate) fn gif_decode_frames(data: &[u8]) -> (res: Result<Vec<(u32, u32, Vec<u8>, u32, u32)>, GifFailure>)
    ensures
        match res {
            Ok(v) => {
                &&& gif_decoding(data@) == Some(gif_parts_view(v@))
                &&& forall|i: int| 0 <= i < v@.len() ==> (#[trigger] v@[i]).2@.len() >= v@[i].0 * v@[i].1 * 4
            },
            Err(_) => gif_decoding(data@) is None,
        },
{
    let decoder = image::codecs::gif::GifDecoder::new(Cursor::new(data.to_vec())).map_err(GifFailure::Read)?;
    let frames = decoder.into_frames().collect_frames().map_err(GifFailure::Frames)?;
    Ok(frames.into_iter().map(|f| {
        let (numer, denom) = f.delay().numer_denom_ms();
        let buffer = f.into_buffer();
        (buffer.width(), buffer.height(), buffer.into_raw(), numer, denom)
    }).collect())
}

/// How often an encoded GIF animation is played.
#[derive(Clone, Copy, Debug, PartialEq, Eq, Structural)]
pub enum GifRepeat {
    /// Played over and over.
    Infinite,
    /// Played this many times.
    Finite(u16),
}

/// The bytes of a GIF that `image`'s GIF encoder writes for `frames` (each a `w` x
/// `h` RGBA image and its delay in milliseconds, placed at (0, 0)) played as
/// `repeat` says, or `None` when encoding fails.
pub uninterp spec fn gif_encoding(frames: Seq<(Seq<u8>, u32, u32, u32)>, repeat: GifRepeat) -> Option<Seq<u8>>;

/// The plain view of frames handed to the GIF encoder.
pub open spec fn gif_frames_view(v: Seq<(Vec<u8>, u32, u32, u32)>) -> Seq<(Seq<u8>, u32, u32, u32)> {
    v.map_values(|f: (Vec<u8>, u32, u32, u32)| (f.0@, f.1, f.2, f.3))
}

/// Calls `GifEncoder::new` writing into a byte vector, `GifEncoder::set_repeat` with
/// the corresponding `image::codecs::gif::Repeat` and `GifEncoder::encode_frames`
/// with each frame built by `Frame::from_parts` at (0, 0) and
/// `Delay::from_numer_denom_ms(delay_ms, 1)`; the GIF trailer is written when the
/// encoder is dropped. Encoding is deterministic, so the outcome is a function of the
/// frames and the repeat setting (named `gif_encoding`).
#[verifier::external_body]
pub(crate) fn gif_encode_frames(frames: Vec<(Vec<u8>, u32, u32, u32)>, repeat: GifRepeat) -> (res: Result<Vec<u8>, image::ImageError>)
    requires
        forall|i: int| 0 <= i < frames@.len() ==> (#[trigger] frames@[i]).0@.len() == frames@[i].1 * frames@[i].2 * 4,
    ensures
        match res {
            Ok(bytes) => gif_encoding(gif_frames_view(frames@), repeat) == Some(bytes@),
            Err(_) => gif_encoding(gif_frames_view(frames@), repeat) is None,
        },
{
    let mut out: Vec<u8> = Vec::new();
    let mut encoder = image::codecs::gif::GifEncoder::new(&mut out);
    let repeat = match repeat {
        GifRepeat::Infinite => image::codecs::gif::Repeat::Infinite,
        GifRepeat::Finite(n) => image::codecs::gif::Repeat::Finite(n),
    };
    let res = encoder.set_repeat(repeat).and_then(|_| encoder.encode_frames(frames.into_iter().map(|(raw, w, h, d)| {
        AnimationFrame::from_parts(image::RgbaImage::from_raw(w, h, raw).unwrap(), 0, 0, image::Delay::from_numer_denom_ms(d, 1))
    })));
    drop(encoder);
    res.map(|_| out)
}

/// The still formats that images are written in through `RgbaImage::write_to`.
#[derive(Clone, Copy, Debug, PartialEq, Eq, Structural)]
pub enum StillFormat {
    Png,
    WebP,
    Bmp,
    Ico,
    Tiff,
    Tga,
}

/// The bytes that `RgbaImage::write_to` writes for the `w` x `h` RGBA image `raw` in
/// `format`, or `None` when it fails.
pub uninterp spec fn still_encoding(raw: Seq<u8>, w: u32, h: u32, format: StillFormat) -> Option<Seq<u8>>;

/// Calls `RgbaImage::write_to` with the corresponding `image::ImageFormat`, writing
/// the `w` x `h` RGBA image `raw` into memory, the bytes `save_with_format` writes to
/// a file. The encoders are deterministic, so the outcome is a function of the
/// arguments (named `still_encoding`).
#[verifier::external_body]
pub(crate) fn encode_still(raw: Vec<u8>, w: u32, h: u32, format: StillFormat) -> (res: Result<Vec<u8>, image::ImageError>)
    requires
        raw@.len() == w * h * 4,
    ensures
        match res {
            Ok(bytes) => still_encoding(raw@, w, h, format) == Some(bytes@),
            Err(_) => still_encoding(raw@, w, h, format) is None,
        },
{
    let format = match format {
        StillFormat::Png => image::ImageFormat::Png,
        StillFormat::WebP => image::ImageFormat::WebP,
        StillFormat::Bmp => image::ImageFormat::Bmp,
        StillFormat::Ico => image::ImageFormat::Ico,
        StillFormat::Tiff => image::ImageFormat::Tiff,
        StillFormat::Tga => image::ImageFormat::Tga,
    };
    let mut out = Cursor::new(Vec::new());
    image::RgbaImage::from_raw(w, h, raw).unwrap().write_to(&mut out, format).map(|_| out.into_inner())
}

/// The bytes that `JpegEncoder::encode` writes for the `w` x `h` RGB image `rgb` at
/// `quality`, or `None` when it fails.
pub uninterp spec fn jpeg_encoding(rgb: Seq<u8>, w: u32, h: u32, quality: u8) -> Option<Seq<u8>>;

/// Calls `JpegEncoder::new_with_quality` and `JpegEncoder::encode` on the `w` x `h`
/// RGB image `rgb` (three bytes per pixel; the encoder panics on any other length).
/// The encoder is deterministic, so the outcome is a function of the arguments
/// (named `jpeg_encoding`).
#[verifier::external_body]
pub(crate) fn encode_jpeg(rgb: &[u8], w: u32, h: u32, quality: u8) -> (res: Result<Vec<u8>, image::ImageError>)
    requires
        rgb@.len() == w * h * 3,
    ensures
        match res {
            Ok(bytes) => jpeg_encoding(rgb@, w, h, quality) == Some(bytes@),
            Err(_) => jpeg_encoding(rgb@, w, h, quality) is None,
        },
{
    let mut out: Vec<u8> = Vec::new();
    let mut encoder = image::codecs::jpeg::JpegEncoder::new_with_quality(&mut out, quality);
    let res = encoder.encode(rgb, w, h, image::ExtendedColorType::Rgb8);
    drop(encoder);
    res.map(|_| out)
}

/// The extensions that `ImageFormat::from_extension` names a format for, once they
/// are ASCII-lowercased (its table).
pub open spec fn image_extension_known(e: Seq<char>) -> bool {
    ||| e == "avif"@ || e == "jpg"@ || e == "jpeg"@ || e == "jfif"@ || e == "png"@ || e == "apng"@
    ||| e == "gif"@ || e == "webp"@ || e == "tif"@ || e == "tiff"@ || e == "tga"@ || e == "dds"@
    ||| e == "bmp"@ || e == "ico"@ || e == "hdr"@ || e == "exr"@ || e == "pbm"@ || e == "pam"@
    ||| e == "ppm"@ || e == "pgm"@ || e == "pnm"@ || e == "ff"@ || e == "qoi"@
}

/// Why a file could not be decoded in the format its extension names.
pub enum DecodeFailure {
    /// `ImageFormat::from_extension` names no format for the extension.
    UnknownFormat,
    /// Decoding failed (the decoder's error).
    Image(image::ImageError),
}

/// What decoding `data` in the format `ImageFormat::from_extension` names for `ext`
/// gives as RGBA: width, height and bytes, or `None` when decoding fails.
pub uninterp spec fn image_decoding(data: Seq<u8>, ext: Seq<char>) -> Option<(u32, u32, Seq<u8>)>;

/// Calls `ImageFormat::from_extension` (ASCII letter case ignored; by its source it
/// names a format exactly for the extensions of `image_extension_known`), then
/// `image::load_from_memory_with_format` in that format and `DynamicImage::to_rgba8`:
/// the decoded image as width, height and RGBA bytes. Decoding is deterministic, so
/// the outcome is a function of the bytes and the extension (named
/// `image_decoding`). An `image::ImageBuffer` holds at least `width * height * 4`
/// bytes.
#[verifier::external_body]
pub(crate) fn decode_by_extension(data: &[u8], ext: &str) -> (res: Result<(u32, u32, Vec<u8>), DecodeFailure>)
    ensures
        (res matches Err(DecodeFailure::UnknownFormat)) <==> !image_extension_known(ascii_lower(ext@)),
        match res {
            Ok(t) => image_decoding(data@, ext@) == Some((t.0, t.1, t.2@)),
            Err(DecodeFailure::Image(_)) => image_decoding(data@, ext@) is None,
            Err(DecodeFailure::UnknownFormat) => true,
        },
        res matches Ok(t) ==> t.2@.len() >= t.0 * t.1 * 4,
{
    match image::ImageFormat::from_extension(ext) {
        Some(format) => image::load_from_memory_with_format(data, format)
            .map(|d| d.to_rgba8())
            .map(|b| (b.width(), b.height(), b.into_raw()))
            .map_err(DecodeFailure::Image),
        None => Err(DecodeFailure::UnknownFormat),
    }
}

} // verus!
