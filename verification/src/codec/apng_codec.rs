//! PNG and APNG: turning decoded sample buffers into RGBA images and rendering
//! animation frames onto a canvas.
use vstd::prelude::*;

use crate::codec::png_bridge::{
    png_control_at, png_error_text, png_format_at, png_frame_control, png_frame_format, png_frame_samples,
    png_frame_size, png_header, png_next_frame, png_open, png_samples_at, png_size_at, png_status_at,
    PngFrameError, png_encoder, png_set_color_rgba, png_set_depth_eight, png_set_animated,
    png_encoder_set_frame_delay, png_write_header, png_writer_set_frame_delay,
    png_write_image_data, png_finish, png_encoding_error_text,
};
use crate::codec::image_bridge::{resize_fits, resize_nearest, resized_rgba};
use crate::frame::Frame;
use crate::raster::{in_rect, lemma_pixel_index, painted, pixel_index, raw_bytes, transparent, Rgba, RgbaImage};

verus! {

/// How the samples of a PNG image are laid out.
#[derive(Clone, Copy, Debug, PartialEq, Eq, Structural)]
pub enum PngColorType {
    Grayscale,
    Rgb,
    Indexed,
    GrayscaleAlpha,
    Rgba,
}

/// Bits per sample of a PNG image.
#[derive(Clone, Copy, Debug, PartialEq, Eq, Structural)]
pub enum PngBitDepth {
    One,
    Two,
    Four,
    Eight,
    Sixteen,
}

/// Why a decoded sample buffer could not be turned into an RGBA image.
#[derive(Clone, Copy, Debug, PartialEq, Eq, Structural)]
pub enum RawImageError {
    /// Only 8-bit samples are converted.
    UnsupportedBitDepth(PngBitDepth),
    /// Palette images are not converted.
    UnsupportedColorType(PngColorType),
    /// The buffer holds fewer samples than the image needs.
    InsufficientData(PngColorType),
}

/// The name of a bit depth.
pub open spec fn bit_depth_name(d: PngBitDepth) -> Seq<char> {
    match d {
        PngBitDepth::One => "One"@,
        PngBitDepth::Two => "Two"@,
        PngBitDepth::Four => "Four"@,
        PngBitDepth::Eight => "Eight"@,
        PngBitDepth::Sixteen => "Sixteen"@,
    }
}

/// The name of a color type.
pub open spec fn color_type_name(c: PngColorType) -> Seq<char> {
    match c {
        PngColorType::Grayscale => "Grayscale"@,
        PngColorType::Rgb => "Rgb"@,
        PngColorType::Indexed => "Indexed"@,
        PngColorType::GrayscaleAlpha => "GrayscaleAlpha"@,
        PngColorType::Rgba => "Rgba"@,
    }
}

/// The name a sample layout is called by in buffer length messages.
pub open spec fn layout_name(c: PngColorType) -> Seq<char> {
    match c {
        PngColorType::Rgba => "RGBA"@,
        PngColorType::Rgb => "RGB"@,
        _ => color_type_name(c),
    }
}

impl PngBitDepth {
    /// The bit depth's name.
    pub fn name(&self) -> (n: &'static str)
        ensures
            n@ == bit_depth_name(*self),
    {
        match self {
            PngBitDepth::One => "One",
            PngBitDepth::Two => "Two",
            PngBitDepth::Four => "Four",
            PngBitDepth::Eight => "Eight",
            PngBitDepth::Sixteen => "Sixteen",
        }
    }
}

impl PngColorType {
    /// The color type's name.
    pub fn name(&self) -> (n: &'static str)
        ensures
            n@ == color_type_name(*self),
    {
        match self {
            PngColorType::Grayscale => "Grayscale",
            PngColorType::Rgb => "Rgb",
            PngColorType::Indexed => "Indexed",
            PngColorType::GrayscaleAlpha => "GrayscaleAlpha",
            PngColorType::Rgba => "Rgba",
        }
    }

    /// The name the layout is called by in buffer length messages.
    pub fn layout_name(&self) -> (n: &'static str)
        ensures
            n@ == layout_name(*self),
    {
        match self {
            PngColorType::Rgba => "RGBA",
            PngColorType::Rgb => "RGB",
            _ => self.name(),
        }
    }
}

/// The message of a conversion error.
pub open spec fn raw_image_error_text(e: RawImageError) -> Seq<char> {
    match e {
        RawImageError::UnsupportedBitDepth(d) => "Unsupported PNG bit depth: "@ + bit_depth_name(d),
        RawImageError::UnsupportedColorType(c) => "Unsupported PNG color type: "@ + color_type_name(c),
        RawImageError::InsufficientData(c) => "Insufficient "@ + layout_name(c) + " buffer length"@,
    }
}

impl RawImageError {
    /// The error's message (see `raw_image_error_text`).
    pub fn message(&self) -> (m: String)
        ensures
            m@ == raw_image_error_text(*self),
    {
        let mut m = String::new();
        match self {
            RawImageError::UnsupportedBitDepth(d) => {
                m.append("Unsupported PNG bit depth: ");
                m.append(d.name());
            },
            RawImageError::UnsupportedColorType(c) => {
                m.append("Unsupported PNG color type: ");
                m.append(c.name());
            },
            RawImageError::InsufficientData(c) => {
                m.append("Insufficient ");
                m.append(c.layout_name());
                m.append(" buffer length");
            },
        }
        m
    }
}

/// Bytes per pixel of the color types that are converted (8-bit samples).
pub open spec fn bytes_per_pixel(ct: PngColorType) -> int {
    match ct {
        PngColorType::Grayscale => 1,
        PngColorType::Rgb => 3,
        PngColorType::GrayscaleAlpha => 2,
        PngColorType::Rgba => 4,
        PngColorType::Indexed => 0,
    }
}

/// The color types that are converted.
pub open spec fn convertible(ct: PngColorType) -> bool {
    ct != PngColorType::Indexed
}

/// Pixel `k` of an 8-bit sample buffer of color type `ct`: gray is spread to the three
/// color channels and a missing alpha channel means opaque.
pub open spec fn sample_pixel(bytes: Seq<u8>, ct: PngColorType, k: int) -> Rgba {
    match ct {
        PngColorType::Rgba => Rgba { r: bytes[4 * k], g: bytes[4 * k + 1], b: bytes[4 * k + 2], a: bytes[4 * k + 3] },
        PngColorType::Rgb => Rgba { r: bytes[3 * k], g: bytes[3 * k + 1], b: bytes[3 * k + 2], a: 255 },
        PngColorType::GrayscaleAlpha => Rgba { r: bytes[2 * k], g: bytes[2 * k], b: bytes[2 * k], a: bytes[2 * k + 1] },
        _ => Rgba { r: bytes[k], g: bytes[k], b: bytes[k], a: 255 },
    }
}

/// The error, if any, of converting `len` bytes of a `w` x `h` buffer: bit depth first,
/// then color type, then length.
pub open spec fn raw_image_error(len: int, w: int, h: int, ct: PngColorType, bd: PngBitDepth) -> Option<RawImageError> {
    if bd != PngBitDepth::Eight {
        Some(RawImageError::UnsupportedBitDepth(bd))
    } else if !convertible(ct) {
        Some(RawImageError::UnsupportedColorType(ct))
    } else if len < w * h * bytes_per_pixel(ct) {
        Some(RawImageError::InsufficientData(ct))
    } else {
        None
    }
}

/// Converts a decoded PNG sample buffer of a `w` x `h` image into an RGBA image.
///
/// Only 8-bit grayscale, gray+alpha, RGB and RGBA buffers are converted. The
/// sizes that the conversion computes must fit in 32 bits, the image in memory, and
/// an RGBA buffer must not be longer than the image.
pub fn raw_to_rgba(bytes: &[u8], w: u32, h: u32, color_type: PngColorType, bit_depth: PngBitDepth) -> (res: Result<RgbaImage, RawImageError>)
    requires
        bit_depth == PngBitDepth::Eight ==> w * h * 4 <= usize::MAX,
        bit_depth == PngBitDepth::Eight && convertible(color_type) ==> w * h * bytes_per_pixel(color_type) <= u32::MAX,
        bit_depth == PngBitDepth::Eight && color_type == PngColorType::Rgba ==> bytes@.len() <= w * h * 4,
    ensures
        match res {
            Ok(img) => {
                &&& raw_image_error(bytes@.len() as int, w as int, h as int, color_type, bit_depth) is None
                &&& img.well_formed()
                &&& img.spec_width() == w
                &&& img.spec_height() == h
                &&& forall|k: int| 0 <= k < w * h ==> #[trigger] img.spec_pixels()[k] == sample_pixel(bytes@, color_type, k)
            },
            Err(e) => raw_image_error(bytes@.len() as int, w as int, h as int, color_type, bit_depth) == Some(e),
        },
{
    if bit_depth != PngBitDepth::Eight {
        return Err(RawImageError::UnsupportedBitDepth(bit_depth));
    }
    let bpp: u32 = match color_type {
        PngColorType::Rgba => 4,
        PngColorType::Rgb => 3,
        PngColorType::GrayscaleAlpha => 2,
        PngColorType::Grayscale => 1,
        PngColorType::Indexed => {
            return Err(RawImageError::UnsupportedColorType(color_type));
        },
    };
    assert(w * h * bpp <= u32::MAX);
    assert(w * h <= w * h * bpp) by (nonlinear_arith)
        requires bpp >= 1;
    let n: u32 = w * h;
    let needed: u32 = n * bpp;
    if bytes.len() < needed as usize {
        return Err(RawImageError::InsufficientData(color_type));
    }
    let mut pixels: Vec<Rgba> = Vec::with_capacity(n as usize);
    let mut k: u32 = 0;
    while k < n
        invariant
            k <= n,
            n == w * h,
            needed == n * bpp,
            bpp == bytes_per_pixel(color_type),
            convertible(color_type),
            needed <= bytes@.len(),
            pixels@.len() == k,
            forall|j: int| 0 <= j < k ==> #[trigger] pixels@[j] == sample_pixel(bytes@, color_type, j),
        decreases n - k,
    {
        assert(bpp * k + bpp <= bpp * n) by (nonlinear_arith)
            requires k < n, bpp >= 1;
        let o: usize = (bpp * k) as usize;
        let p = match color_type {
            PngColorType::Rgba => Rgba { r: bytes[o], g: bytes[o + 1], b: bytes[o + 2], a: bytes[o + 3] },
            PngColorType::Rgb => Rgba { r: bytes[o], g: bytes[o + 1], b: bytes[o + 2], a: 255 },
            PngColorType::GrayscaleAlpha => Rgba { r: bytes[o], g: bytes[o], b: bytes[o], a: bytes[o + 1] },
            _ => Rgba { r: bytes[o], g: bytes[o], b: bytes[o], a: 255 },
        };
        pixels.push(p);
        k = k + 1;
    }
    Ok(RgbaImage::from_pixels(w, h, pixels))
}

/// An image's raw bytes read back as an 8-bit RGBA sample buffer give the image's
/// pixels: `raw_to_rgba` undoes `to_raw`.
pub proof fn lemma_rgba_samples_undo_raw_bytes(pixels: Seq<Rgba>, k: int)
    requires
        0 <= k < pixels.len(),
    ensures
        sample_pixel(raw_bytes(pixels), PngColorType::Rgba, k) == pixels[k],
{
    assert((4 * k) / 4 == k && (4 * k) % 4 == 0);
    assert((4 * k + 1) / 4 == k && (4 * k + 1) % 4 == 1);
    assert((4 * k + 2) / 4 == k && (4 * k + 2) % 4 == 2);
    assert((4 * k + 3) / 4 == k && (4 * k + 3) % 4 == 3);
}

/// What happens to a frame's rectangle once the frame has been shown.
#[derive(Clone, Copy, Debug, PartialEq, Eq, Structural)]
pub enum DisposeOp {
    /// The canvas is left as it is.
    Keep,
    /// The rectangle is cleared to transparent black.
    Background,
    /// The canvas goes back to how it was before the frame.
    Previous,
}

/// How a frame's pixels are combined with the canvas.
#[derive(Clone, Copy, Debug, PartialEq, Eq, Structural)]
pub enum BlendOp {
    /// The frame's pixels replace the canvas pixels.
    Source,
    /// The frame's pixels are composited over the canvas pixels by alpha.
    Over,
}

/// The per-frame control data of an animated PNG.
#[derive(Clone, Copy, Debug, PartialEq, Eq, Structural)]
pub struct ApngFrameControl {
    pub x_offset: u32,
    pub y_offset: u32,
    pub delay_num: u16,
    pub delay_den: u16,
    pub dispose_op: DisposeOp,
    pub blend_op: BlendOp,
}

/// The delay of a frame in milliseconds: `delay_num / delay_den` seconds, a zero
/// denominator meaning hundredths, at least 10 ms; 100 ms when the frame has no
/// control data.
pub open spec fn apng_delay(fc: Option<ApngFrameControl>) -> u32 {
    match fc {
        Some(c) => {
            let den: int = if c.delay_den == 0 { 100 } else { c.delay_den as int };
            let ms: int = (c.delay_num as int * 1000) / den;
            if ms < 10 { 10 } else { ms as u32 }
        },
        None => 100,
    }
}

/// The frame delay in milliseconds that `fc` asks for (see `apng_delay`).
pub fn apng_delay_ms(fc: Option<ApngFrameControl>) -> (ms: u32)
    ensures
        ms == apng_delay(fc),
        ms >= 10,
{
    match fc {
        Some(c) => {
            let num: u32 = c.delay_num as u32;
            let den: u32 = if c.delay_den == 0 { 100 } else { c.delay_den as u32 };
            let ms: u32 = num * 1000 / den;
            if ms < 10 { 10 } else { ms }
        },
        None => 100,
    }
}

/// The offsets, dispose and blend operation a sub-frame is rendered with: those of
/// its frame control, or (0, 0), `Keep` and `Source` when it has none.
pub open spec fn placement(control: Option<ApngFrameControl>) -> (u32, u32, DisposeOp, BlendOp) {
    match control {
        Some(c) => (c.x_offset, c.y_offset, c.dispose_op, c.blend_op),
        None => (0, 0, DisposeOp::Keep, BlendOp::Source),
    }
}

/// Whether `shown` is the canvas `before` with a `sub_w` x `sub_h` sub-frame, whose
/// pixel (a, b) is `sub_px(a, b)`, laid at (xo, yo) and clipped to the canvas: inside
/// the rectangle each pixel is the sub-frame's (`Source`) or what `over` makes of it
/// and the canvas pixel (`Over`); elsewhere the canvas pixel.
pub open spec fn shows_subframe<F: Fn(Rgba, Rgba) -> Rgba>(
    before: RgbaImage,
    sub_w: int,
    sub_h: int,
    sub_px: spec_fn(int, int) -> Rgba,
    xo: int,
    yo: int,
    blend: BlendOp,
    over: &F,
    shown: RgbaImage,
) -> bool {
    &&& shown.well_formed()
    &&& shown.same_size(&before)
    &&& forall|x: int, y: int|
        #![trigger shown.spec_pixel(x, y)]
        shown.contains(x, y) ==> if in_rect(xo, yo, sub_w, sub_h, x, y) {
            painted(over, blend == BlendOp::Over, sub_px(x - xo, y - yo), before.spec_pixel(x, y), shown.spec_pixel(x, y))
        } else {
            shown.spec_pixel(x, y) == before.spec_pixel(x, y)
        }
}

/// Whether `after` is the canvas once the frame `shown`, drawn over `before` with a
/// `sub_w` x `sub_h` sub-frame at (xo, yo), has been disposed of: the shown frame
/// (`Keep`), the shown frame with the rectangle cleared to transparent black
/// (`Background`), or `before` (`Previous`).
pub open spec fn disposed(
    before: RgbaImage,
    shown: RgbaImage,
    sub_w: int,
    sub_h: int,
    xo: int,
    yo: int,
    dispose: DisposeOp,
    after: RgbaImage,
) -> bool {
    &&& after.well_formed()
    &&& after.same_size(&before)
    &&& forall|x: int, y: int|
        #![trigger after.spec_pixel(x, y)]
        after.contains(x, y) ==> after.spec_pixel(x, y) == match dispose {
            DisposeOp::Keep => shown.spec_pixel(x, y),
            DisposeOp::Background => if in_rect(xo, yo, sub_w, sub_h, x, y) {
                transparent()
            } else {
                shown.spec_pixel(x, y)
            },
            DisposeOp::Previous => before.spec_pixel(x, y),
        }
}

/// Renders the sub-frame `sub` onto `canvas` at (x_offset, y_offset) with `blend`
/// and returns the frame as shown (`shows_subframe`); then disposes of it on the
/// canvas with `dispose` (`disposed`), ready for the next frame.
pub fn render_subframe<F: Fn(Rgba, Rgba) -> Rgba>(
    canvas: &mut RgbaImage,
    sub: &RgbaImage,
    x_offset: u32,
    y_offset: u32,
    dispose: DisposeOp,
    blend: BlendOp,
    over: &F,
) -> (shown: RgbaImage)
    requires
        forall|s: Rgba, d: Rgba| #[trigger] over.requires((s, d)),
    ensures
        shows_subframe(
            *old(canvas),
            sub.spec_width() as int,
            sub.spec_height() as int,
            |a: int, b: int| sub.spec_pixel(a, b),
            x_offset as int,
            y_offset as int,
            blend,
            over,
            shown,
        ),
        disposed(
            *old(canvas),
            shown,
            sub.spec_width() as int,
            sub.spec_height() as int,
            x_offset as int,
            y_offset as int,
            dispose,
            *final(canvas),
        ),
{
    let before = canvas.duplicate();
    canvas.paint(sub, x_offset, y_offset, over, blend == BlendOp::Over);
    let shown = canvas.duplicate();
    proof {
        assert forall|x: int, y: int| #[trigger] shown.spec_pixel(x, y) == canvas.spec_pixel(x, y) by {}
    }
    let (sw, sh) = sub.dimensions();
    match dispose {
        DisposeOp::Keep => {},
        DisposeOp::Background => {
            canvas.clear_rect(x_offset, y_offset, sw, sh);
        },
        DisposeOp::Previous => {
            *canvas = before;
        },
    }
    shown
}

/// The pixel (a, b) of a `w` pixels wide image held as an 8-bit sample buffer of
/// color type `ct`.
pub open spec fn sample_at(samples: Seq<u8>, ct: PngColorType, w: int, a: int, b: int) -> Rgba {
    sample_pixel(samples, ct, pixel_index(w, a, b))
}

/// Turns one decoded sub-frame into the frame it shows and appends that frame.
///
/// The `w` x `h` sample buffer is converted to RGBA (`raw_to_rgba`), rendered onto
/// the canvas with the placement of its frame control (`placement`), and the canvas
/// as shown is appended to `frames` with the delay of the frame control
/// (`apng_delay`); the canvas is then disposed of for the next sub-frame. When the
/// samples cannot be converted, the conversion error is returned and nothing changes.
pub fn compose_subframe<F: Fn(Rgba, Rgba) -> Rgba>(
    canvas: &mut RgbaImage,
    frames: &mut Vec<Frame>,
    samples: &[u8],
    w: u32,
    h: u32,
    color_type: PngColorType,
    bit_depth: PngBitDepth,
    control: Option<ApngFrameControl>,
    over: &F,
) -> (res: Result<(), RawImageError>)
    requires
        forall|s: Rgba, d: Rgba| #[trigger] over.requires((s, d)),
        convertible_sizes(samples@.len() as int, w as int, h as int, color_type, bit_depth),
    ensures
        match res {
            Ok(()) => {
                &&& raw_image_error(samples@.len() as int, w as int, h as int, color_type, bit_depth) is None
                &&& final(frames)@.len() == old(frames)@.len() + 1
                &&& final(frames)@.subrange(0, old(frames)@.len() as int) == old(frames)@
                &&& final(frames)@.last().delay_ms == apng_delay(control)
                &&& shows_subframe(
                    *old(canvas),
                    w as int,
                    h as int,
                    |a: int, b: int| sample_at(samples@, color_type, w as int, a, b),
                    placement(control).0 as int,
                    placement(control).1 as int,
                    placement(control).3,
                    over,
                    final(frames)@.last().image,
                )
                &&& disposed(
                    *old(canvas),
                    final(frames)@.last().image,
                    w as int,
                    h as int,
                    placement(control).0 as int,
                    placement(control).1 as int,
                    placement(control).2,
                    *final(canvas),
                )
            },
            Err(e) => {
                &&& raw_image_error(samples@.len() as int, w as int, h as int, color_type, bit_depth) == Some(e)
                &&& *final(canvas) == *old(canvas)
                &&& final(frames)@ == old(frames)@
            },
        },
        res is Ok && control is Some ==> forall|x: int, y: int|
            #![trigger final(frames)@.last().image.spec_pixel(x, y)]
            final(frames)@.last().image.contains(x, y) && control->Some_0.x_offset <= x < control->Some_0.x_offset + w
                && control->Some_0.y_offset <= y < control->Some_0.y_offset + h ==> {
                let s = sample_at(samples@, color_type, w as int, x - control->Some_0.x_offset, y - control->Some_0.y_offset);
                let d = old(canvas).spec_pixel(x, y);
                let out = final(frames)@.last().image.spec_pixel(x, y);
                &&& control->Some_0.blend_op == BlendOp::Over ==> over.ensures((s, d), out)
                &&& control->Some_0.blend_op == BlendOp::Source ==> out == s
            },
{
    let sub = match raw_to_rgba(samples, w, h, color_type, bit_depth) {
        Ok(img) => img,
        Err(e) => {
            return Err(e);
        },
    };
    let delay_ms = apng_delay_ms(control);
    let (x_offset, y_offset, dispose, blend) = match control {
        Some(c) => (c.x_offset, c.y_offset, c.dispose_op, c.blend_op),
        None => (0, 0, DisposeOp::Keep, BlendOp::Source),
    };
    let ghost before = *canvas;
    let shown = render_subframe(canvas, &sub, x_offset, y_offset, dispose, blend, over);
    proof {
        let from_sub = |a: int, b: int| sub.spec_pixel(a, b);
        let from_samples = |a: int, b: int| sample_at(samples@, color_type, w as int, a, b);
        assert forall|x: int, y: int| #![trigger shown.spec_pixel(x, y)] shown.contains(x, y) implies if in_rect(
            x_offset as int,
            y_offset as int,
            w as int,
            h as int,
            x,
            y,
        ) {
            painted(over, blend == BlendOp::Over, from_samples(x - x_offset, y - y_offset), before.spec_pixel(x, y), shown.spec_pixel(x, y))
        } else {
            shown.spec_pixel(x, y) == before.spec_pixel(x, y)
        } by {
            if in_rect(x_offset as int, y_offset as int, w as int, h as int, x, y) {
                let a = x - x_offset;
                let b = y - y_offset;
                lemma_pixel_index(w as int, h as int, a, b);
                assert(sub.spec_pixels()[pixel_index(w as int, a, b)] == sample_pixel(samples@, color_type, pixel_index(w as int, a, b)));
                assert(from_sub(a, b) == from_samples(a, b));
            }
        }
    }
    frames.push(Frame::new(shown, delay_ms));
    proof {
        assert(frames@.subrange(0, frames@.len() - 1) =~= old(frames)@);
    }
    Ok(())
}

/// A decoded sub-frame as the stream gives it: its 8-bit samples, width, height,
/// color type and frame control.
pub type DecodedSubframe = (Seq<u8>, u32, u32, PngColorType, Option<ApngFrameControl>);

/// Whether `frame` is what the sub-frame `sub` shows when rendered onto the canvas
/// `before`, and `after` the canvas its disposal leaves (see `compose_subframe`).
pub open spec fn renders_step<F: Fn(Rgba, Rgba) -> Rgba>(
    sub: DecodedSubframe,
    before: RgbaImage,
    frame: Frame,
    after: RgbaImage,
    over: &F,
) -> bool {
    let (samples, w, h, ct, control) = sub;
    &&& frame.delay_ms == apng_delay(control)
    &&& shows_subframe(
        before,
        w as int,
        h as int,
        |a: int, b: int| sample_at(samples, ct, w as int, a, b),
        placement(control).0 as int,
        placement(control).1 as int,
        placement(control).3,
        over,
        frame.image,
    )
    &&& disposed(
        before,
        frame.image,
        w as int,
        h as int,
        placement(control).0 as int,
        placement(control).1 as int,
        placement(control).2,
        after,
    )
}

/// A sub-frame is laid onto the canvas by the blend operation its frame control
/// stores: each canvas pixel it covers shows what `over` makes of the sub-frame's
/// pixel and the canvas pixel when the operation is `Over`, and the sub-frame's pixel
/// when it is `Source`.
pub proof fn law_blend_follows_frame_control<F: Fn(Rgba, Rgba) -> Rgba>(
    sub: DecodedSubframe,
    before: RgbaImage,
    frame: Frame,
    after: RgbaImage,
    over: &F,
    x: int,
    y: int,
)
    requires
        renders_step(sub, before, frame, after, over),
        sub.4 is Some,
        frame.image.contains(x, y),
        sub.4->Some_0.x_offset <= x < sub.4->Some_0.x_offset + sub.1,
        sub.4->Some_0.y_offset <= y < sub.4->Some_0.y_offset + sub.2,
    ensures
        sub.4->Some_0.blend_op == BlendOp::Over ==> over.ensures(
            (
                sample_at(sub.0, sub.3, sub.1 as int, x - sub.4->Some_0.x_offset, y - sub.4->Some_0.y_offset),
                before.spec_pixel(x, y),
            ),
            frame.image.spec_pixel(x, y),
        ),
        sub.4->Some_0.blend_op == BlendOp::Source ==> frame.image.spec_pixel(x, y) == sample_at(
            sub.0,
            sub.3,
            sub.1 as int,
            x - sub.4->Some_0.x_offset,
            y - sub.4->Some_0.y_offset,
        ),
{
    let c = sub.4->Some_0;
    assert(in_rect(c.x_offset as int, c.y_offset as int, sub.1 as int, sub.2 as int, x, y));
    let p = frame.image.spec_pixel(x, y);
}

/// A sub-frame without a frame control replaces the canvas pixels it covers, from the
/// top-left corner, with its own pixels, and is shown for 100 ms.
pub proof fn law_plain_subframe_replaces<F: Fn(Rgba, Rgba) -> Rgba>(
    sub: DecodedSubframe,
    before: RgbaImage,
    frame: Frame,
    after: RgbaImage,
    over: &F,
    x: int,
    y: int,
)
    requires
        renders_step(sub, before, frame, after, over),
        sub.4 is None,
        frame.image.contains(x, y),
        0 <= x < sub.1,
        0 <= y < sub.2,
    ensures
        frame.image.spec_pixel(x, y) == sample_at(sub.0, sub.3, sub.1 as int, x, y),
        frame.delay_ms == 100,
{
    assert(in_rect(0, 0, sub.1 as int, sub.2 as int, x, y));
    let p = frame.image.spec_pixel(x, y);
}

/// What a shown frame leaves for the next sub-frame is decided by the dispose
/// operation its frame control stores: the frame as shown (`Keep`), the frame with the
/// sub-frame's rectangle cleared to transparent black (`Background`), or the canvas
/// from before the frame (`Previous`). The frame is shown for the control's delay
/// fraction in milliseconds, `delay_num * 1000 / delay_den` (a 0 denominator meaning
/// 100), at least 10.
pub proof fn law_dispose_and_delay_follow_frame_control<F: Fn(Rgba, Rgba) -> Rgba>(
    sub: DecodedSubframe,
    before: RgbaImage,
    frame: Frame,
    after: RgbaImage,
    over: &F,
    x: int,
    y: int,
)
    requires
        renders_step(sub, before, frame, after, over),
        sub.4 is Some,
        after.contains(x, y),
    ensures
        sub.4->Some_0.dispose_op == DisposeOp::Keep ==> after.spec_pixel(x, y) == frame.image.spec_pixel(x, y),
        sub.4->Some_0.dispose_op == DisposeOp::Previous ==> after.spec_pixel(x, y) == before.spec_pixel(x, y),
        sub.4->Some_0.dispose_op == DisposeOp::Background ==> if sub.4->Some_0.x_offset <= x < sub.4->Some_0.x_offset + sub.1
            && sub.4->Some_0.y_offset <= y < sub.4->Some_0.y_offset + sub.2 {
            after.spec_pixel(x, y) == (Rgba { r: 0, g: 0, b: 0, a: 0 })
        } else {
            after.spec_pixel(x, y) == frame.image.spec_pixel(x, y)
        },
        frame.delay_ms as int == ({
            let c = sub.4->Some_0;
            let ms = c.delay_num as int * 1000 / (if c.delay_den == 0 { 100 } else { c.delay_den as int });
            if ms < 10 { 10 } else { ms }
        }),
{
    let p = after.spec_pixel(x, y);
}

/// Whether `frames` are the frames that the sub-frames `subs` show one after the
/// other: frame i is sub-frame i rendered onto `canvases[i]`, and `canvases[i + 1]`
/// is the canvas its disposal leaves for the next one.
pub open spec fn renders_in_order<F: Fn(Rgba, Rgba) -> Rgba>(
    subs: Seq<DecodedSubframe>,
    canvases: Seq<RgbaImage>,
    frames: Seq<Frame>,
    over: &F,
) -> bool {
    &&& subs.len() == frames.len()
    &&& canvases.len() == frames.len() + 1
    &&& forall|i: int| 0 <= i < frames.len() ==> #[trigger] renders_step(subs[i], canvases[i], frames[i], canvases[i + 1], over)
}

/// Whether every pixel of `img` is transparent black.
pub open spec fn blank(img: RgbaImage) -> bool {
    &&& img.well_formed()
    &&& forall|x: int, y: int| img.contains(x, y) ==> #[trigger] img.spec_pixel(x, y) == transparent()
}

/// Why a PNG or APNG stream could not be decoded.
#[derive(Debug)]
pub enum ApngDecodeError {
    /// The header could not be read (the decoder's message).
    Header(String),
    /// Decoding failed before any frame was decoded (the decoder's message).
    Decode(String),
    /// A decoded frame could not be converted to RGBA.
    Samples(RawImageError),
    /// A frame's sizes do not fit the arithmetic of the conversion or memory.
    TooLarge,
    /// The stream ended before its first frame.
    NoFrames,
}

/// The message of a decoding error.
pub open spec fn apng_decode_error_text(e: ApngDecodeError) -> Seq<char> {
    match e {
        ApngDecodeError::Header(m) => "Failed to read PNG header: "@ + m@,
        ApngDecodeError::Decode(m) => "PNG decoding error: "@ + m@,
        ApngDecodeError::Samples(r) => raw_image_error_text(r),
        ApngDecodeError::TooLarge => "PNG frame is too large"@,
        ApngDecodeError::NoFrames => "No frames could be decoded from PNG"@,
    }
}

impl ApngDecodeError {
    /// The error's message (see `apng_decode_error_text`).
    pub fn message(&self) -> (m: String)
        ensures
            m@ == apng_decode_error_text(*self),
    {
        let mut m = String::new();
        match self {
            ApngDecodeError::Header(inner) => {
                m.append("Failed to read PNG header: ");
                m.append(inner.as_str());
            },
            ApngDecodeError::Decode(inner) => {
                m.append("PNG decoding error: ");
                m.append(inner.as_str());
            },
            ApngDecodeError::Samples(r) => {
                m = r.message();
            },
            ApngDecodeError::TooLarge => {
                m.append("PNG frame is too large");
            },
            ApngDecodeError::NoFrames => {
                m.append("No frames could be decoded from PNG");
            },
        }
        m
    }
}

/// Whether `raw_to_rgba` may be asked to convert `len` bytes of a `w` x `h` frame of
/// the given format (its precondition).
pub open spec fn convertible_sizes(len: int, w: int, h: int, ct: PngColorType, bd: PngBitDepth) -> bool {
    &&& bd == PngBitDepth::Eight ==> w * h * 4 <= usize::MAX
    &&& bd == PngBitDepth::Eight && convertible(ct) ==> w * h * bytes_per_pixel(ct) <= u32::MAX
    &&& bd == PngBitDepth::Eight && ct == PngColorType::Rgba ==> len <= w * h * 4
}

/// Whether a `w` x `h` RGBA image fits the address space.
pub fn rgba_fits_memory(w: u32, h: u32) -> (ok: bool)
    ensures
        ok == (w * h * 4 <= usize::MAX),
{
    assert(w * h * 4 <= 0xffff_ffff_ffff_ffff_ffff_ffff_ffff_ffff) by (nonlinear_arith)
        requires w <= 0xffff_ffff, h <= 0xffff_ffff;
    (w as u128 * h as u128 * 4) <= usize::MAX as u128
}

fn sizes_fit(len: usize, w: u32, h: u32, ct: PngColorType, bd: PngBitDepth) -> (ok: bool)
    ensures
        ok == convertible_sizes(len as int, w as int, h as int, ct, bd),
{
    if bd != PngBitDepth::Eight {
        return true;
    }
    assert(w * h * 4 <= 0xffff_ffff_ffff_ffff_ffff_ffff_ffff_ffff) by (nonlinear_arith)
        requires w <= 0xffff_ffff, h <= 0xffff_ffff;
    let n: u128 = w as u128 * h as u128;
    if n * 4 > usize::MAX as u128 {
        return false;
    }
    let bpp: u128 = match ct {
        PngColorType::Rgba => 4,
        PngColorType::Rgb => 3,
        PngColorType::GrayscaleAlpha => 2,
        PngColorType::Grayscale => 1,
        PngColorType::Indexed => 0,
    };
    if n * bpp > u32::MAX as u128 {
        return false;
    }
    if ct == PngColorType::Rgba && len as u128 > n * 4 {
        return false;
    }
    true
}

/// Whether the `k`-th sub-frame of the PNG stream `data` is decoded and converts: the
/// request decodes a frame whose samples fit the stream's buffer and the sizes of the
/// conversion (`convertible_sizes`), and `raw_to_rgba` accepts them.
pub open spec fn sub_converts(data: Seq<u8>, k: nat) -> bool {
    let (w, h) = png_size_at(data, k);
    let (ct, bd) = png_format_at(data, k);
    &&& png_status_at(data, k) is None
    &&& png_samples_at(data, k) matches Some(s) && convertible_sizes(s.len() as int, w as int, h as int, ct, bd)
        && raw_image_error(s.len() as int, w as int, h as int, ct, bd) is None
}

/// The `k`-th decoded sub-frame of the PNG stream `data`.
pub open spec fn sub_at(data: Seq<u8>, k: nat) -> DecodedSubframe {
    let (w, h) = png_size_at(data, k);
    (png_samples_at(data, k).unwrap(), w, h, png_format_at(data, k).0, png_control_at(data, k))
}

/// The first `n` decoded sub-frames of the PNG stream `data`.
pub open spec fn subs_of(data: Seq<u8>, n: nat) -> Seq<DecodedSubframe> {
    Seq::new(n, |k: int| sub_at(data, k as nat))
}

/// Whether decoding the PNG stream `data` stops after `n` sub-frames: the first `n`
/// convert, and no further one is asked for (one per input byte at most; one for a
/// still PNG) or the next does not convert.
pub open spec fn stops_at(data: Seq<u8>, animated: bool, n: nat) -> bool {
    &&& forall|k: nat| k < n ==> #[trigger] sub_converts(data, k)
    &&& n <= data.len()
    &&& !animated ==> n <= 1
    &&& n == data.len() || (!animated && n == 1) || !sub_converts(data, n)
}

/// Decoding stops at one place only.
pub proof fn lemma_stops_at_unique(data: Seq<u8>, animated: bool, n1: nat, n2: nat)
    requires
        stops_at(data, animated, n1),
        stops_at(data, animated, n2),
    ensures
        n1 == n2,
{
    if n1 < n2 {
        assert(sub_converts(data, n1));
    } else if n2 < n1 {
        assert(sub_converts(data, n2));
    }
}

/// Whether decoding that stops after `n` sub-frames ends with frames: there is one,
/// and no further one was asked for or the next request failed (a decoding error
/// after the first frame keeps the frames so far).
pub open spec fn ends_with_frames(data: Seq<u8>, animated: bool, n: nat) -> bool {
    n > 0 && (n == data.len() || (!animated && n == 1) || png_status_at(data, n) is Some)
}

/// Whether `res` is what decoding the PNG stream `data` with header `hd` gives when it
/// stops after `n` sub-frames: the frames those sub-frames show one after the other
/// on a blank canvas of the header's size (`renders_in_order`); else, by what the
/// next request gave, no frames, the decoder's error, a size that does not fit, or
/// the conversion's error.
pub open spec fn decoded_as<F: Fn(Rgba, Rgba) -> Rgba>(
    data: Seq<u8>,
    hd: (u32, u32, bool),
    n: nat,
    res: Result<Vec<Frame>, ApngDecodeError>,
    over: &F,
) -> bool {
    if ends_with_frames(data, hd.2, n) {
        res matches Ok(frames) && frames@.len() == n && exists|canvases: Seq<RgbaImage>| {
            &&& #[trigger] renders_in_order(subs_of(data, n), canvases, frames@, over)
            &&& blank(canvases[0])
            &&& canvases[0].spec_width() == hd.0
            &&& canvases[0].spec_height() == hd.1
        }
    } else if n == data.len() {
        res matches Err(ApngDecodeError::NoFrames)
    } else {
        let (w, h) = png_size_at(data, n);
        let (ct, bd) = png_format_at(data, n);
        match png_status_at(data, n) {
            Some(None) => res matches Err(ApngDecodeError::NoFrames),
            Some(Some(m)) => res matches Err(ApngDecodeError::Decode(d)) && d@ == m,
            None => match png_samples_at(data, n) {
                None => res matches Err(ApngDecodeError::TooLarge),
                Some(s) => if !convertible_sizes(s.len() as int, w as int, h as int, ct, bd) {
                    res matches Err(ApngDecodeError::TooLarge)
                } else {
                    res matches Err(ApngDecodeError::Samples(e)) && raw_image_error(
                        s.len() as int,
                        w as int,
                        h as int,
                        ct,
                        bd,
                    ) == Some(e)
                },
            },
        }
    }
}

/// Decodes a PNG or APNG stream into the frames it shows, each the full canvas.
///
/// Each decoded sub-frame is converted to RGBA and rendered with `render_subframe`
/// at the offsets, blend and dispose operation of its frame control (at (0, 0) with
/// `Source` and `Keep` when it has none), shown for `apng_delay_ms` of it. Decoding
/// stops at the end of the stream, after the first frame of a still PNG, or at a
/// decoding error once at least one frame was decoded; a conversion error ends it
/// with that error (`decoded_as`). Pixels composited `Over` the canvas are combined
/// by `over`.
pub fn decode_apng<F: Fn(Rgba, Rgba) -> Rgba>(data: &[u8], over: &F) -> (res: Result<Vec<Frame>, ApngDecodeError>)
    requires
        forall|s: Rgba, d: Rgba| #[trigger] over.requires((s, d)),
    ensures
        res matches Ok(frames) ==> {
            &&& frames@.len() >= 1
            &&& forall|i: int| 0 <= i < frames@.len() ==> {
                &&& (#[trigger] frames@[i]).image.same_size(&frames@[0].image)
                &&& frames@[i].image.well_formed()
                &&& frames@[i].delay_ms >= 10
            }
        },
        (res matches Err(ApngDecodeError::Header(_))) <==> png_header(data@) is None,
        png_header(data@) matches Some(hd) ==> (res matches Ok(frames) ==> {
            &&& frames@[0].image.spec_width() == hd.0
            &&& frames@[0].image.spec_height() == hd.1
            &&& !hd.2 ==> frames@.len() == 1
        }),
        png_header(data@) matches Some(hd) && hd.0 * hd.1 * 4 > usize::MAX ==> res matches Err(ApngDecodeError::TooLarge),
        png_header(data@) matches Some(hd) ==> (hd.0 * hd.1 * 4 <= usize::MAX ==> exists|n: nat| #[trigger] stops_at(data@, hd.2, n)
            && decoded_as(data@, hd, n, res, over)),
{
    let (mut stream, canvas_w, canvas_h, is_animated) = match png_open(data) {
        Ok(opened) => opened,
        Err(e) => {
            return Err(ApngDecodeError::Header(png_error_text(&e)));
        },
    };
    if !rgba_fits_memory(canvas_w, canvas_h) {
        return Err(ApngDecodeError::TooLarge);
    }
    let ghost hd = (canvas_w, canvas_h, is_animated);
    let mut canvas = RgbaImage::new(canvas_w, canvas_h);
    let mut frames: Vec<Frame> = Vec::new();
    let ghost mut canvases: Seq<RgbaImage> = seq![canvas];
    // Every decoded frame takes at least one chunk of the input, so a stream holds
    // fewer frames than bytes: the input length bounds the loop.
    let mut budget: usize = data.len();
    let mut stopped = false;
    while budget > 0 && (is_animated || frames.len() == 0) && !stopped
        invariant
            !is_animated ==> frames@.len() <= 1,
            png_header(data@) == Some(hd),
            hd == (canvas_w, canvas_h, is_animated),
            canvas_w * canvas_h * 4 <= usize::MAX,
            stream.source() == data@,
            budget + stream.calls() == data@.len(),
            data@.len() <= usize::MAX,
            stream.calls() == frames@.len() + (if stopped { 1int } else { 0int }),
            stopped ==> png_status_at(data@, frames@.len() as nat) is Some,
            stopped && frames@.len() == 0 ==> png_status_at(data@, 0) == Some(None::<Seq<char>>),
            forall|k: nat| k < frames@.len() ==> #[trigger] sub_converts(data@, k),
            canvas.well_formed(),
            canvas.spec_width() == canvas_w,
            canvas.spec_height() == canvas_h,
            forall|s: Rgba, d: Rgba| #[trigger] over.requires((s, d)),
            forall|i: int| 0 <= i < frames@.len() ==> {
                &&& (#[trigger] frames@[i]).image.spec_width() == canvas_w
                &&& frames@[i].image.spec_height() == canvas_h
                &&& frames@[i].image.well_formed()
                &&& frames@[i].delay_ms >= 10
            },
            renders_in_order(subs_of(data@, frames@.len() as nat), canvases, frames@, over),
            canvases.last() == canvas,
            blank(canvases[0]),
            canvases[0].spec_width() == canvas_w,
            canvases[0].spec_height() == canvas_h,
        decreases budget,
    {
        budget = budget - 1;
        let n = frames.len();
        match png_next_frame(&mut stream) {
            Ok(()) => {},
            Err(PngFrameError::EndOfStream) => {
                stopped = true;
                continue;
            },
            Err(PngFrameError::Failed(msg)) => {
                if frames.len() > 0 {
                    stopped = true;
                    continue;
                }
                proof {
                    assert(stops_at(data@, hd.2, 0));
                }
                return Err(ApngDecodeError::Decode(msg));
            },
        }
        let control = png_frame_control(&stream);
        let (sub_w, sub_h) = png_frame_size(&stream);
        let (color_type, bit_depth) = png_frame_format(&stream);
        let samples = match png_frame_samples(&stream) {
            Some(v) => v,
            None => {
                proof {
                    assert(stops_at(data@, hd.2, n as nat));
                }
                return Err(ApngDecodeError::TooLarge);
            },
        };
        if !sizes_fit(samples.len(), sub_w, sub_h, color_type, bit_depth) {
            proof {
                assert(stops_at(data@, hd.2, n as nat));
            }
            return Err(ApngDecodeError::TooLarge);
        }
        let ghost earlier = frames@;
        let ghost before = canvas;
        let composed = compose_subframe(
            &mut canvas,
            &mut frames,
            samples.as_slice(),
            sub_w,
            sub_h,
            color_type,
            bit_depth,
            control,
            over,
        );
        if let Err(e) = composed {
            proof {
                assert(stops_at(data@, hd.2, n as nat));
            }
            return Err(ApngDecodeError::Samples(e));
        }
        proof {
            let sub: DecodedSubframe = (samples@, sub_w, sub_h, color_type, control);
            let old_subs = subs_of(data@, n as nat);
            let new_subs = subs_of(data@, (n + 1) as nat);
            assert(sub == sub_at(data@, n as nat));
            assert(new_subs =~= old_subs.push(sub));
            assert(sub_converts(data@, n as nat));
            let old_canvases = canvases;
            canvases = canvases.push(canvas);
            assert forall|i: int| 0 <= i < frames@.len() implies #[trigger] renders_step(new_subs[i], canvases[i], frames@[i], canvases[i + 1], over) by {
                if i < earlier.len() {
                    assert(frames@[i] == frames@.subrange(0, earlier.len() as int)[i]);
                    assert(new_subs[i] == old_subs[i]);
                    assert(canvases[i] == old_canvases[i]);
                    assert(canvases[i + 1] == old_canvases[i + 1]);
                    assert(renders_step(old_subs[i], old_canvases[i], earlier[i], old_canvases[i + 1], over));
                } else {
                    assert(i == earlier.len());
                    assert(canvases[i] == before);
                    assert(canvases[i + 1] == canvas);
                }
            }
            assert forall|i: int| 0 <= i < frames@.len() implies {
                &&& (#[trigger] frames@[i]).image.spec_width() == canvas_w
                &&& frames@[i].image.spec_height() == canvas_h
                &&& frames@[i].image.well_formed()
                &&& frames@[i].delay_ms >= 10
            } by {
                if i < earlier.len() {
                    assert(frames@[i] == frames@.subrange(0, earlier.len() as int)[i]);
                }
            }
            assert forall|k: nat| k < frames@.len() implies #[trigger] sub_converts(data@, k) by {
                if k < n {
                } else {
                    assert(k == n);
                }
            }
        }
    }
    let n = frames.len();
    if n == 0 {
        proof {
            assert(stops_at(data@, hd.2, 0));
        }
        return Err(ApngDecodeError::NoFrames);
    }
    let ghost shown = frames@;
    let res: Result<Vec<Frame>, ApngDecodeError> = Ok(frames);
    proof {
        assert(stops_at(data@, hd.2, n as nat));
        assert(ends_with_frames(data@, hd.2, n as nat));
        assert(subs_of(data@, n as nat) == subs_of(data@, shown.len() as nat));
        assert(renders_in_order(subs_of(data@, n as nat), canvases, shown, over));
        assert(blank(canvases[0]) && canvases[0].spec_width() == hd.0 && canvases[0].spec_height() == hd.1);
        assert(exists|c: Seq<RgbaImage>| {
            &&& #[trigger] renders_in_order(subs_of(data@, n as nat), c, shown, over)
            &&& blank(c[0])
            &&& c[0].spec_width() == hd.0
            &&& c[0].spec_height() == hd.1
        });
        assert(res matches Ok(f) && f@ == shown);
        assert(decoded_as(data@, hd, n as nat, res, over));
    }
    res
}

/// Why frames could not be encoded as PNG or APNG.
#[derive(Debug)]
pub enum ApngEncodeError {
    /// There is no frame to encode.
    NoFrames,
    /// The animation control could not be set (the encoder's message).
    Animation(String),
    /// The first frame's delay could not be set.
    InitialDelay(String),
    /// The header could not be written.
    Header(String),
    /// A later frame's delay could not be set.
    FrameDelay(String),
    /// A frame's pixel data could not be written.
    FrameData(String),
    /// The stream could not be finished.
    Finish(String),
}

/// The message of an encoding error.
pub open spec fn apng_encode_error_text(e: ApngEncodeError) -> Seq<char> {
    match e {
        ApngEncodeError::NoFrames => "No frames to encode into APNG"@,
        ApngEncodeError::Animation(m) => "Failed to set APNG animated info: "@ + m@,
        ApngEncodeError::InitialDelay(m) => "Failed to set APNG initial frame delay: "@ + m@,
        ApngEncodeError::Header(m) => "Failed to write PNG header: "@ + m@,
        ApngEncodeError::FrameDelay(m) => "Failed to set APNG frame delay: "@ + m@,
        ApngEncodeError::FrameData(m) => "Failed to write APNG frame data: "@ + m@,
        ApngEncodeError::Finish(m) => "Failed to finish APNG stream: "@ + m@,
    }
}

impl ApngEncodeError {
    /// The error's message (see `apng_encode_error_text`).
    pub fn message(&self) -> (m: String)
        ensures
            m@ == apng_encode_error_text(*self),
    {
        let mut m = String::new();
        match self {
            ApngEncodeError::NoFrames => {
                m.append("No frames to encode into APNG");
            },
            ApngEncodeError::Animation(inner) => {
                m.append("Failed to set APNG animated info: ");
                m.append(inner.as_str());
            },
            ApngEncodeError::InitialDelay(inner) => {
                m.append("Failed to set APNG initial frame delay: ");
                m.append(inner.as_str());
            },
            ApngEncodeError::Header(inner) => {
                m.append("Failed to write PNG header: ");
                m.append(inner.as_str());
            },
            ApngEncodeError::FrameDelay(inner) => {
                m.append("Failed to set APNG frame delay: ");
                m.append(inner.as_str());
            },
            ApngEncodeError::FrameData(inner) => {
                m.append("Failed to write APNG frame data: ");
                m.append(inner.as_str());
            },
            ApngEncodeError::Finish(inner) => {
                m.append("Failed to finish APNG stream: ");
                m.append(inner.as_str());
            },
        }
        m
    }
}

/// The RGBA bytes written for `frame` in an animation whose canvas is `w` x `h`: the
/// frame's own bytes when it has that size, else the frame resized to it with the
/// nearest-neighbour filter.
pub open spec fn apng_frame_bytes(frame: Frame, w: u32, h: u32) -> Seq<u8> {
    if frame.image.spec_width() == w && frame.image.spec_height() == h {
        raw_bytes(frame.image.spec_pixels())
    } else {
        resized_rgba(
            raw_bytes(frame.image.spec_pixels()),
            frame.image.spec_width() as u32,
            frame.image.spec_height() as u32,
            w,
            h,
            0,
        )
    }
}

/// The RGBA bytes of `frame` fitted to a `w` x `h` canvas (see `apng_frame_bytes`).
pub fn fit_frame_bytes(frame: &Frame, w: u32, h: u32) -> (bytes: Vec<u8>)
    requires
        resize_fits(frame.image.spec_width() as u32, frame.image.spec_height() as u32, w, h),
    ensures
        bytes@ == apng_frame_bytes(*frame, w, h),
        bytes@.len() == w * h * 4,
{
    let (fw, fh) = frame.dimensions();
    let raw = frame.image.to_raw();
    proof {
        assert(raw@.len() == fw * fh * 4) by (nonlinear_arith)
            requires raw@.len() == 4 * (fw * fh);
    }
    if fw == w && fh == h {
        raw
    } else {
        resize_nearest(raw.as_slice(), fw, fh, w, h)
    }
}

/// Whether every frame can be fitted to the first frame's size (see `resize_fits`).
pub open spec fn fits_first_frame(frames: Seq<Frame>) -> bool {
    forall|i: int|
        0 <= i < frames.len() ==> resize_fits(
            (#[trigger] frames[i]).image.spec_width() as u32,
            frames[i].image.spec_height() as u32,
            frames[0].image.spec_width() as u32,
            frames[0].image.spec_height() as u32,
        )
}

/// Whether every frame can be fitted to the first frame's size (see
/// `fits_first_frame`).
pub fn animation_fits(frames: &[Frame]) -> (ok: bool)
    ensures
        ok == fits_first_frame(frames@),
{
    if frames.len() == 0 {
        return true;
    }
    let (w0, h0) = frames[0].dimensions();
    let limit: u128 = usize::MAX as u128;
    let n = frames.len();
    let mut i: usize = 0;
    while i < n
        invariant
            i <= n,
            n == frames@.len(),
            n > 0,
            w0 == frames@[0].image.spec_width(),
            h0 == frames@[0].image.spec_height(),
            limit == usize::MAX,
            forall|j: int|
                0 <= j < i ==> resize_fits(
                    (#[trigger] frames@[j]).image.spec_width() as u32,
                    frames@[j].image.spec_height() as u32,
                    w0,
                    h0,
                ),
        decreases n - i,
    {
        let (w, h) = frames[i].dimensions();
        assert(w * h0 * 4 <= 0xffff_ffff_ffff_ffff_ffff_ffff_ffff_ffff) by (nonlinear_arith)
            requires w <= 0xffff_ffff, h0 <= 0xffff_ffff;
        assert(w0 * h0 * 4 <= 0xffff_ffff_ffff_ffff_ffff_ffff_ffff_ffff) by (nonlinear_arith)
            requires w0 <= 0xffff_ffff, h0 <= 0xffff_ffff;
        let result_ok = w0 as u128 * h0 as u128 * 4 <= limit;
        let resamples = w != 0 && h != 0 && (w0 != w || h0 != h);
        let middle_ok = w as u128 * h0 as u128 * 4 <= limit;
        if !result_ok || (resamples && !middle_ok) {
            return false;
        }
        i = i + 1;
    }
    true
}

fn write_apng(out: &mut Vec<u8>, frames: &[Frame], width: u32, height: u32, repeat_count: u32) -> (res: Result<(), ApngEncodeError>)
    requires
        frames@.len() >= 1,
        width == frames@[0].image.spec_width(),
        height == frames@[0].image.spec_height(),
        fits_first_frame(frames@),
    ensures
        !(res matches Err(ApngEncodeError::NoFrames)),
{
    let n = frames.len();
    let mut encoder = png_encoder(out, width, height);
    png_set_color_rgba(&mut encoder);
    png_set_depth_eight(&mut encoder);
    if n > 1 {
        if let Err(e) = png_set_animated(&mut encoder, n as u32, repeat_count) {
            return Err(ApngEncodeError::Animation(png_encoding_error_text(&e)));
        }
        let first_delay = frames[0].delay_ms;
        if let Err(e) = png_encoder_set_frame_delay(&mut encoder, first_delay as u16, 1000) {
            return Err(ApngEncodeError::InitialDelay(png_encoding_error_text(&e)));
        }
    }
    let mut writer = match png_write_header(encoder) {
        Ok(w) => w,
        Err(e) => {
            return Err(ApngEncodeError::Header(png_encoding_error_text(&e)));
        },
    };
    let mut i: usize = 0;
    while i < n
        invariant
            i <= n,
            n == frames@.len(),
            n >= 1,
            width == frames@[0].image.spec_width(),
            height == frames@[0].image.spec_height(),
            fits_first_frame(frames@),
        decreases n - i,
    {
        let frame = &frames[i];
        let bytes = fit_frame_bytes(frame, width, height);
        if n > 1 && i > 0 {
            if let Err(e) = png_writer_set_frame_delay(&mut writer, frame.delay_ms as u16, 1000) {
                return Err(ApngEncodeError::FrameDelay(png_encoding_error_text(&e)));
            }
        }
        if let Err(e) = png_write_image_data(&mut writer, bytes.as_slice()) {
            return Err(ApngEncodeError::FrameData(png_encoding_error_text(&e)));
        }
        i = i + 1;
    }
    match png_finish(writer) {
        Ok(()) => Ok(()),
        Err(e) => Err(ApngEncodeError::Finish(png_encoding_error_text(&e))),
    }
}

/// Encodes `frames` as a PNG (one frame) or an APNG played `repeat_count` times
/// (0: forever), every frame fitted to the first frame's size (`fit_frame_bytes`)
/// and shown for its delay in milliseconds (truncated to 16 bits). Fails exactly
/// with `NoFrames` when there is no frame; the other errors come from the encoder.
/// The resizing must be able to count its buffers (`fits_first_frame`).
pub fn encode_apng(frames: &[Frame], repeat_count: u32) -> (res: Result<Vec<u8>, ApngEncodeError>)
    requires
        fits_first_frame(frames@),
    ensures
        (res matches Err(ApngEncodeError::NoFrames)) <==> frames@.len() == 0,
{
    if frames.len() == 0 {
        return Err(ApngEncodeError::NoFrames);
    }
    let (width, height) = frames[0].dimensions();
    let mut out: Vec<u8> = Vec::new();
    match write_apng(&mut out, frames, width, height, repeat_count) {
        Ok(()) => Ok(out),
        Err(e) => Err(e),
    }
}

} // verus!
