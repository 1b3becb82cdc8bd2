//! GIF animations: decoding into frames and encoding frames.
use vstd::prelude::*;

use crate::codec::image_bridge::{
    gif_decode_frames, gif_decoding, gif_encode_frames, gif_encoding, gif_frames_view,
    gif_parts_view, image_error_text, GifFailure, GifRepeat,
};
use crate::frame::{clamped_delay, Frame};
use crate::raster::{raw_bytes, RgbaImage};

verus! {

/// Why a GIF could not be decoded.
#[derive(Debug)]
pub enum GifDecodeError {
    /// The header could not be read (the decoder's message).
    Read(String),
    /// The frames could not be decoded (the decoder's message).
    Frames(String),
    /// The GIF holds no frame.
    NoFrames,
}

/// Why frames could not be encoded as a GIF.
#[derive(Debug)]
pub enum GifEncodeError {
    /// There is no frame to encode.
    NoFrames,
    /// A frame could not be encoded (the encoder's message).
    Frame(String),
}

/// The message of a decoding error.
pub open spec fn gif_decode_error_text(e: GifDecodeError) -> Seq<char> {
    match e {
        GifDecodeError::Read(m) => "Failed to read GIF: "@ + m@,
        GifDecodeError::Frames(m) => "Failed to decode GIF frames: "@ + m@,
        GifDecodeError::NoFrames => "GIF has no frames"@,
    }
}

impl GifDecodeError {
    /// The error's message (see `gif_decode_error_text`).
    pub fn message(&self) -> (m: String)
        ensures
            m@ == gif_decode_error_text(*self),
    {
        let mut m = String::new();
        match self {
            GifDecodeError::Read(inner) => {
                m.append("Failed to read GIF: ");
                m.append(inner.as_str());
            },
            GifDecodeError::Frames(inner) => {
                m.append("Failed to decode GIF frames: ");
                m.append(inner.as_str());
            },
            GifDecodeError::NoFrames => {
                m.append("GIF has no frames");
            },
        }
        m
    }
}

/// The message of an encoding error.
pub open spec fn gif_encode_error_text(e: GifEncodeError) -> Seq<char> {
    match e {
        GifEncodeError::NoFrames => "No frames to encode into GIF"@,
        GifEncodeError::Frame(m) => "Failed to encode GIF frame: "@ + m@,
    }
}

impl GifEncodeError {
    /// The error's message (see `gif_encode_error_text`).
    pub fn message(&self) -> (m: String)
        ensures
            m@ == gif_encode_error_text(*self),
    {
        let mut m = String::new();
        match self {
            GifEncodeError::NoFrames => {
                m.append("No frames to encode into GIF");
            },
            GifEncodeError::Frame(inner) => {
                m.append("Failed to encode GIF frame: ");
                m.append(inner.as_str());
            },
        }
        m
    }
}

/// The delay in milliseconds of a frame whose delay is `numer / denom` ms: the
/// integer quotient, 100 when the denominator is 0.
pub open spec fn gif_delay(numer: u32, denom: u32) -> u32 {
    if denom == 0 {
        100
    } else {
        numer / denom
    }
}

/// The repeat setting for a repeat count: 0 plays forever.
pub open spec fn gif_repeat(repeat_count: u16) -> GifRepeat {
    if repeat_count == 0 {
        GifRepeat::Infinite
    } else {
        GifRepeat::Finite(repeat_count)
    }
}

/// A decoded GIF frame as the decoder gives it: width, height, RGBA bytes, and the
/// delay as numerator and denominator of milliseconds.
pub type GifFrameParts = (u32, u32, Seq<u8>, u32, u32);

/// Whether `f` is the frame shown for the decoded frame `parts`: its `w` x `h` RGBA
/// bytes (the first `w * h * 4` of them) shown for `gif_delay(numer, denom)`, at
/// least 10 ms.
pub open spec fn frame_of_parts(parts: GifFrameParts, f: Frame) -> bool {
    let (w, h, raw, numer, denom) = parts;
    &&& w * h * 4 <= raw.len()
    &&& f.image.well_formed()
    &&& f.image.spec_width() == w
    &&& f.image.spec_height() == h
    &&& raw_bytes(f.image.spec_pixels()) == raw.subrange(0, w * h * 4)
    &&& f.delay_ms == clamped_delay(gif_delay(numer, denom))
}

/// The frame shown for a decoded animation frame (see `frame_of_parts`), or `None`
/// when `raw` is too short for the size.
pub fn frame_from_parts(w: u32, h: u32, raw: &[u8], numer: u32, denom: u32) -> (res: Option<Frame>)
    ensures
        match res {
            Some(f) => frame_of_parts((w, h, raw@, numer, denom), f),
            None => raw@.len() < w * h * 4,
        },
{
    let delay: u32 = match numer.checked_div(denom) {
        Some(q) => q,
        None => 100,
    };
    match RgbaImage::from_raw(w, h, raw) {
        Some(image) => Some(Frame::new(image, delay)),
        None => None,
    }
}

/// The repeat setting for `repeat_count` (see `gif_repeat`).
pub fn repeat_setting(repeat_count: u16) -> (r: GifRepeat)
    ensures
        r == gif_repeat(repeat_count),
{
    if repeat_count == 0 {
        GifRepeat::Infinite
    } else {
        GifRepeat::Finite(repeat_count)
    }
}

/// Decodes a GIF into its frames, each the full canvas, in order: frame i is the
/// frame shown for the decoder's frame i (see `frame_of_parts`). A header the decoder
/// cannot read is a `Read` error, frames it cannot decode a `Frames` error, and a GIF
/// without frames a `NoFrames` error.
pub fn decode_gif(data: &[u8]) -> (res: Result<Vec<Frame>, GifDecodeError>)
    ensures
        match gif_decoding(data@) {
            None => res matches Err(e) && (e is Read || e is Frames),
            Some(parts) => if parts.len() == 0 {
                res matches Err(GifDecodeError::NoFrames)
            } else {
                res matches Ok(frames) && frames@.len() == parts.len() && forall|i: int|
                    0 <= i < parts.len() ==> frame_of_parts(parts[i], #[trigger] frames@[i])
            },
        },
        res matches Ok(frames) ==> {
            &&& frames@.len() >= 1
            &&& forall|i: int| 0 <= i < frames@.len() ==> {
                &&& (#[trigger] frames@[i]).image.well_formed()
                &&& frames@[i].delay_ms >= 10
            }
        },
{
    let decoded = match gif_decode_frames(data) {
        Ok(v) => v,
        Err(GifFailure::Read(e)) => {
            return Err(GifDecodeError::Read(image_error_text(&e)));
        },
        Err(GifFailure::Frames(e)) => {
            return Err(GifDecodeError::Frames(image_error_text(&e)));
        },
    };
    let ghost parts = gif_parts_view(decoded@);
    let mut frames: Vec<Frame> = Vec::new();
    let n = decoded.len();
    let mut i: usize = 0;
    while i < n
        invariant
            i <= n,
            n == decoded@.len(),
            parts == gif_parts_view(decoded@),
            forall|j: int| 0 <= j < n ==> (#[trigger] decoded@[j]).2@.len() >= decoded@[j].0 * decoded@[j].1 * 4,
            frames@.len() == i,
            forall|j: int| 0 <= j < i ==> frame_of_parts(parts[j], #[trigger] frames@[j]),
        decreases n - i,
    {
        let (w, h, raw, numer, denom) = (decoded[i].0, decoded[i].1, &decoded[i].2, decoded[i].3, decoded[i].4);
        match frame_from_parts(w, h, raw.as_slice(), numer, denom) {
            Some(f) => frames.push(f),
            None => {
                // The decoder's buffers always hold their whole image.
                proof {
                    assert(false);
                }
            },
        }
        i = i + 1;
    }
    if frames.len() == 0 {
        return Err(GifDecodeError::NoFrames);
    }
    Ok(frames)
}

/// What the GIF encoder is given for `frames`: each frame's RGBA bytes, width and
/// height, and its delay, or `custom` (raised to the minimum) when one is given.
pub open spec fn gif_input(frames: Seq<Frame>, custom: Option<u32>) -> Seq<(Seq<u8>, u32, u32, u32)> {
    frames.map_values(|f: Frame| (
        raw_bytes(f.image.spec_pixels()),
        f.image.spec_width() as u32,
        f.image.spec_height() as u32,
        match custom {
            Some(d) => clamped_delay(d),
            None => f.delay_ms,
        },
    ))
}

/// Frames handed to the GIF encoder keep their images and order; a custom delay
/// replaces every frame's delay, raised to 10 ms when shorter, and without one each
/// frame keeps its own.
pub proof fn law_gif_frames_take_the_custom_delay(frames: Seq<Frame>, custom: Option<u32>, i: int)
    requires
        0 <= i < frames.len(),
    ensures
        gif_input(frames, custom).len() == frames.len(),
        gif_input(frames, custom)[i].0 == raw_bytes(frames[i].image.spec_pixels()),
        gif_input(frames, custom)[i].1 == frames[i].image.spec_width() as u32,
        gif_input(frames, custom)[i].2 == frames[i].image.spec_height() as u32,
        custom matches Some(d) ==> gif_input(frames, custom)[i].3 == (if d < 10 { 10 } else { d }),
        custom is None ==> gif_input(frames, custom)[i].3 == frames[i].delay_ms,
{
}

/// Whether `res` is what the GIF encoder gives for `input` played as `repeat` says:
/// its bytes, or a frame error when it fails.
pub open spec fn gif_outcome(input: Seq<(Seq<u8>, u32, u32, u32)>, repeat: GifRepeat, res: Result<Vec<u8>, GifEncodeError>) -> bool {
    match gif_encoding(input, repeat) {
        Some(bytes) => res matches Ok(b) && b@ == bytes,
        None => res matches Err(GifEncodeError::Frame(_)),
    }
}

/// Hands every frame to the GIF encoder (see `gif_input`), played as `repeat_count`
/// says (`gif_repeat`), and returns the bytes written.
fn write_gif(frames: &[Frame], repeat_count: u16) -> (res: Result<Vec<u8>, GifEncodeError>)
    ensures
        gif_outcome(gif_input(frames@, None), gif_repeat(repeat_count), res),
{
    let mut input: Vec<(Vec<u8>, u32, u32, u32)> = Vec::new();
    let n = frames.len();
    let mut i: usize = 0;
    while i < n
        invariant
            i <= n,
            n == frames@.len(),
            input@.len() == i,
            gif_frames_view(input@) == gif_input(frames@.subrange(0, i as int), None),
            forall|j: int| 0 <= j < i ==> (#[trigger] input@[j]).0@.len() == input@[j].1 * input@[j].2 * 4,
        decreases n - i,
    {
        let frame = &frames[i];
        let (w, h) = frame.dimensions();
        let raw = frame.image.to_raw();
        proof {
            assert(raw@.len() == w * h * 4) by (nonlinear_arith)
                requires raw@.len() == 4 * (w * h);
        }
        let ghost before = input@;
        input.push((raw, w, h, frame.delay_ms));
        proof {
            let prefix = frames@.subrange(0, i as int);
            let grown = frames@.subrange(0, i + 1);
            assert forall|k: int| 0 <= k < i + 1 implies gif_frames_view(input@)[k] == gif_input(grown, None)[k] by {
                if k < i {
                    assert(input@[k] == before[k]);
                    assert(grown[k] == prefix[k]);
                    assert(gif_frames_view(before)[k] == gif_input(prefix, None)[k]);
                }
            }
            assert(gif_frames_view(input@) =~= gif_input(grown, None));
            assert forall|j: int| 0 <= j < i + 1 implies (#[trigger] input@[j]).0@.len() == input@[j].1 * input@[j].2 * 4 by {
                if j < i {
                    assert(input@[j] == before[j]);
                }
            }
        }
        i = i + 1;
    }
    proof {
        assert(frames@.subrange(0, n as int) =~= frames@);
    }
    match gif_encode_frames(input, repeat_setting(repeat_count)) {
        Ok(bytes) => Ok(bytes),
        Err(e) => Err(GifEncodeError::Frame(image_error_text(&e))),
    }
}

/// Encodes `frames` as a GIF played `repeat_count` times (0: forever, see
/// `gif_repeat`), each frame at (0, 0) shown for its delay: the encoder's bytes for
/// `gif_input`, or its error. Fails with `NoFrames` exactly when there is no frame.
pub fn encode_gif(frames: &[Frame], repeat_count: u16) -> (res: Result<Vec<u8>, GifEncodeError>)
    ensures
        (res matches Err(GifEncodeError::NoFrames)) <==> frames@.len() == 0,
        frames@.len() > 0 ==> gif_outcome(gif_input(frames@, None), gif_repeat(repeat_count), res),
{
    if frames.len() == 0 {
        return Err(GifEncodeError::NoFrames);
    }
    write_gif(frames, repeat_count)
}

} // verus!
