//! The calls into the `png` crate that decoding and encoding make, with what the
//! library relies on of them.
use vstd::prelude::*;

use std::io::Cursor;

use crate::codec::apng_codec::{ApngFrameControl, BlendOp, DisposeOp, PngBitDepth, PngColorType};

verus! {

/// A `png::Reader` over an in-memory copy of the input. Verus refuses a declaration
/// of the reader type (its reader parameter is bound by `std::io::Read`), so it is held
/// here, opaque.
#[verifier::external_body]
pub struct PngReader {
    reader: png::Reader<Cursor<Vec<u8>>>,
}

#[verifier::external_type_specification]
#[verifier::external_body]
pub struct ExPngDecodingError(png::DecodingError);

#[verifier::external_type_specification]
#[verifier::external_body]
pub struct ExPngOutputInfo(png::OutputInfo);

/// A PNG stream being decoded: the reader, the input it was opened on, the buffer it
/// decodes into (`Reader::output_buffer_size` bytes), how many frames were asked of
/// it, and what the last request gave. Its fields are private: only `png_open` makes
/// one and only `png_next_frame` asks for frames, so the reader is always the one
/// opened on `source` and asked `calls` times.
pub struct PngStream {
    reader: PngReader,
    source: Vec<u8>,
    buf: Vec<u8>,
    calls: usize,
    last: Option<png::OutputInfo>,
}

impl PngStream {
    /// The input the stream was opened on.
    pub closed spec fn source(&self) -> Seq<u8> {
        self.source@
    }

    /// How many frames were asked of the stream.
    pub closed spec fn calls(&self) -> nat {
        self.calls as nat
    }

    /// Whether the last request decoded a frame.
    pub closed spec fn has_frame(&self) -> bool {
        self.last is Some
    }
}

/// Why the decoder produced no further frame.
#[derive(Debug)]
pub enum PngFrameError {
    /// The input ended in the middle of the stream.
    EndOfStream,
    /// Any other decoding error, by its message.
    Failed(String),
}

/// The image width and height a PNG file's header gives, and whether it carries
/// animation control (`acTL`), or `None` when its header cannot be read.
pub uninterp spec fn png_header(data: Seq<u8>) -> Option<(u32, u32, bool)>;

/// Calls `png::Decoder::read_info` on a decoder (`png::Decoder::new`) over an
/// in-memory copy of `data`, with the crate's default memory limits and no output
/// transformations, so samples come out with the color type and bit depth stored in
/// the file. It reads the header and the metadata up to the first image data and
/// returns the stream, with a buffer of `Reader::output_buffer_size` bytes, and the
/// width, height and animation flag of its `Info`. The header is a function of `data`
/// (named `png_header`).
#[verifier::external_body]
pub(crate) fn png_open(data: &[u8]) -> (res: Result<(PngStream, u32, u32, bool), png::DecodingError>)
    ensures
        match res {
            Ok((s, w, h, animated)) => png_header(data@) == Some((w, h, animated)) && s.source() == data@ && s.calls() == 0,
            Err(_) => png_header(data@) is None,
        },
{
    let reader = png::Decoder::new(Cursor::new(data.to_vec())).read_info()?;
    let (w, h, animated) = (reader.info().width, reader.info().height, reader.info().animation_control.is_some());
    let buf = vec![0u8; reader.output_buffer_size()];
    Ok((PngStream { reader: PngReader { reader }, source: data.to_vec(), buf, calls: 0, last: None }, w, h, animated))
}

/// What the `k`-th request (from 0) for the next frame of a PNG stream opened on
/// `data` gives: `None` when it decodes a frame, `Some(None)` when the input ends in
/// the middle of the stream, `Some(Some(message))` on another decoding error.
pub uninterp spec fn png_status_at(data: Seq<u8>, k: nat) -> Option<Option<Seq<char>>>;

/// Calls `png::Reader::next_frame`, which decodes the next (sub-)frame into the
/// stream's buffer. An I/O error of kind `UnexpectedEof` is reported as `EndOfStream`,
/// any other error by its message. Decoding is deterministic, so what the `k`-th
/// request gives is a function of the input and `k` (named `png_status_at`).
#[verifier::external_body]
pub(crate) fn png_next_frame(stream: &mut PngStream) -> (res: Result<(), PngFrameError>)
    requires
        old(stream).calls() < usize::MAX,
    ensures
        final(stream).source() == old(stream).source(),
        final(stream).calls() == old(stream).calls() + 1,
        final(stream).has_frame() == res is Ok,
        png_status_at(old(stream).source(), old(stream).calls()) == match res {
            Ok(()) => None,
            Err(PngFrameError::EndOfStream) => Some(None),
            Err(PngFrameError::Failed(m)) => Some(Some(m@)),
        },
{
    stream.calls += 1;
    let (last, res) = match stream.reader.reader.next_frame(&mut stream.buf) {
        Ok(out) => (Some(out), Ok(())),
        Err(png::DecodingError::IoError(ref e)) if e.kind() == std::io::ErrorKind::UnexpectedEof => (None, Err(PngFrameError::EndOfStream)),
        Err(e) => (None, Err(PngFrameError::Failed(e.to_string()))),
    };
    stream.last = last;
    res
}

/// The width and height of the sub-frame that the `k`-th request decoded.
pub uninterp spec fn png_size_at(data: Seq<u8>, k: nat) -> (u32, u32);

/// Reads the width and height of the `png::OutputInfo` of the frame last decoded
/// (named `png_size_at`).
#[verifier::external_body]
pub(crate) fn png_frame_size(stream: &PngStream) -> (res: (u32, u32))
    requires
        stream.has_frame(),
        stream.calls() > 0,
    ensures
        res == png_size_at(stream.source(), (stream.calls() - 1) as nat),
{
    let out = stream.last.as_ref().unwrap();
    (out.width, out.height)
}

/// The samples of the sub-frame that the `k`-th request decoded: the first
/// `OutputInfo::buffer_size` bytes of the buffer, or `None` when the frame needs more
/// bytes than the buffer holds.
pub uninterp spec fn png_samples_at(data: Seq<u8>, k: nat) -> Option<Seq<u8>>;

/// Copies the samples of the frame last decoded: the first `OutputInfo::buffer_size`
/// bytes of the buffer (named `png_samples_at`).
#[verifier::external_body]
pub(crate) fn png_frame_samples(stream: &PngStream) -> (res: Option<Vec<u8>>)
    requires
        stream.has_frame(),
        stream.calls() > 0,
    ensures
        match res {
            Some(v) => png_samples_at(stream.source(), (stream.calls() - 1) as nat) == Some(v@),
            None => png_samples_at(stream.source(), (stream.calls() - 1) as nat) is None,
        },
{
    let out = stream.last.as_ref().unwrap();
    stream.buf.get(..out.buffer_size()).map(|s| s.to_vec())
}

/// The color type and bit depth of the sub-frame that the `k`-th request decoded.
pub uninterp spec fn png_format_at(data: Seq<u8>, k: nat) -> (PngColorType, PngBitDepth);

/// Reads the color type and bit depth of the `png::OutputInfo` of the frame last
/// decoded, variant for variant (named `png_format_at`).
#[verifier::external_body]
pub(crate) fn png_frame_format(stream: &PngStream) -> (res: (PngColorType, PngBitDepth))
    requires
        stream.has_frame(),
        stream.calls() > 0,
    ensures
        res == png_format_at(stream.source(), (stream.calls() - 1) as nat),
{
    let ct = match stream.last.as_ref().unwrap().color_type {
        png::ColorType::Grayscale => PngColorType::Grayscale,
        png::ColorType::Rgb => PngColorType::Rgb,
        png::ColorType::Indexed => PngColorType::Indexed,
        png::ColorType::GrayscaleAlpha => PngColorType::GrayscaleAlpha,
        png::ColorType::Rgba => PngColorType::Rgba,
    };
    let bd = match stream.last.as_ref().unwrap().bit_depth {
        png::BitDepth::One => PngBitDepth::One,
        png::BitDepth::Two => PngBitDepth::Two,
        png::BitDepth::Four => PngBitDepth::Four,
        png::BitDepth::Eight => PngBitDepth::Eight,
        png::BitDepth::Sixteen => PngBitDepth::Sixteen,
    };
    (ct, bd)
}

/// The frame control (`fcTL`) in force after the `k`-th request, if any.
pub uninterp spec fn png_control_at(data: Seq<u8>, k: nat) -> Option<ApngFrameControl>;

/// Calls `png::Reader::info` and reads the frame control (`fcTL`) in force for the
/// frame last decoded, if the stream has one: offsets, delay fraction, dispose and
/// blend operation, variant for variant (named `png_control_at`).
#[verifier::external_body]
pub(crate) fn png_frame_control(stream: &PngStream) -> (res: Option<ApngFrameControl>)
    requires
        stream.calls() > 0,
    ensures
        res == png_control_at(stream.source(), (stream.calls() - 1) as nat),
{
    let c = stream.reader.reader.info().frame_control?;
    let dispose_op = match c.dispose_op {
        png::DisposeOp::None => DisposeOp::Keep,
        png::DisposeOp::Background => DisposeOp::Background,
        png::DisposeOp::Previous => DisposeOp::Previous,
    };
    let blend_op = match c.blend_op {
        png::BlendOp::Source => BlendOp::Source,
        png::BlendOp::Over => BlendOp::Over,
    };
    let (x_offset, y_offset, delay_num, delay_den) = (c.x_offset, c.y_offset, c.delay_num, c.delay_den);
    Some(ApngFrameControl { x_offset, y_offset, delay_num, delay_den, dispose_op, blend_op })
}

/// The message of a `png::DecodingError` (its `Display`). Nothing is claimed of it.
#[verifier::external_body]
pub(crate) fn png_error_text(e: &png::DecodingError) -> String {
    e.to_string()
}

#[verifier::external_type_specification]
#[verifier::external_body]
pub struct ExPngEncodingError(png::EncodingError);

/// A `png::Encoder` writing into a byte vector, before its header is written. Verus
/// refuses a declaration of the encoder type (its writer parameter is bound by
/// `std::io::Write`), so it is held here, opaque.
#[verifier::external_body]
pub struct PngEncoderHandle<'a> {
    encoder: png::Encoder<'static, &'a mut Vec<u8>>,
}

/// A `png::Writer` writing into a byte vector, after the header. Held opaque for the
/// same reason as `PngEncoderHandle`.
#[verifier::external_body]
pub struct PngWriterHandle<'a> {
    writer: png::Writer<&'a mut Vec<u8>>,
}

/// Calls `png::Encoder::new` for a `width` x `height` image written into `out`.
#[verifier::external_body]
pub(crate) fn png_encoder<'a>(out: &'a mut Vec<u8>, width: u32, height: u32) -> PngEncoderHandle<'a> {
    PngEncoderHandle { encoder: png::Encoder::new(out, width, height) }
}

/// Calls `png::Encoder::set_color` with `ColorType::Rgba`.
#[verifier::external_body]
pub(crate) fn png_set_color_rgba(enc: &mut PngEncoderHandle<'_>) {
    enc.encoder.set_color(png::ColorType::Rgba)
}

/// Calls `png::Encoder::set_depth` with `BitDepth::Eight`.
#[verifier::external_body]
pub(crate) fn png_set_depth_eight(enc: &mut PngEncoderHandle<'_>) {
    enc.encoder.set_depth(png::BitDepth::Eight)
}

/// Calls `png::Encoder::set_animated`, which declares `num_frames` frames played
/// `num_plays` times (0: forever). By its source it fails exactly when `num_frames`
/// is 0.
#[verifier::external_body]
pub(crate) fn png_set_animated(enc: &mut PngEncoderHandle<'_>, num_frames: u32, num_plays: u32) -> (res: Result<(), png::EncodingError>)
    ensures
        res is Ok <==> num_frames != 0,
{
    enc.encoder.set_animated(num_frames, num_plays)
}

/// Calls `png::Encoder::set_frame_delay`: the first frame's delay fraction. Whether
/// it succeeds is not claimed.
#[verifier::external_body]
pub(crate) fn png_encoder_set_frame_delay(enc: &mut PngEncoderHandle<'_>, numerator: u16, denominator: u16) -> Result<(), png::EncodingError> {
    enc.encoder.set_frame_delay(numerator, denominator)
}

/// Calls `png::Encoder::write_header`. Whether it succeeds is not claimed.
#[verifier::external_body]
pub(crate) fn png_write_header<'a>(enc: PngEncoderHandle<'a>) -> Result<PngWriterHandle<'a>, png::EncodingError> {
    enc.encoder.write_header().map(|writer| PngWriterHandle { writer })
}

/// Calls `png::Writer::set_frame_delay`: the delay fraction of the next frame.
/// Whether it succeeds is not claimed.
#[verifier::external_body]
pub(crate) fn png_writer_set_frame_delay(w: &mut PngWriterHandle<'_>, numerator: u16, denominator: u16) -> Result<(), png::EncodingError> {
    w.writer.set_frame_delay(numerator, denominator)
}

/// Calls `png::Writer::write_image_data` with the next frame's samples. Whether it
/// succeeds is not claimed.
#[verifier::external_body]
pub(crate) fn png_write_image_data(w: &mut PngWriterHandle<'_>, data: &[u8]) -> Result<(), png::EncodingError> {
    w.writer.write_image_data(data)
}

/// Calls `png::Writer::finish`, which writes the end of the stream. Whether it
/// succeeds is not claimed.
#[verifier::external_body]
pub(crate) fn png_finish(w: PngWriterHandle<'_>) -> Result<(), png::EncodingError> {
    w.writer.finish()
}

/// The message of a `png::EncodingError` (its `Display`). Nothing is claimed of it.
#[verifier::external_body]
pub(crate) fn png_encoding_error_text(e: &png::EncodingError) -> String {
    e.to_string()
}

} // verus!
