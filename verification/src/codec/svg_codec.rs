//! SVG: rasterizing vector drawings and tracing images into vector paths.
use vstd::prelude::*;

use crate::frame::Frame;
use crate::raster::RgbaImage;

verus! {

#[verifier::external_type_specification]
#[verifier::external_body]
pub struct ExSvgTree(resvg::usvg::Tree);

#[verifier::external_type_specification]
#[verifier::external_body]
pub struct ExSvgError(resvg::usvg::Error);

#[verifier::external_type_specification]
#[verifier::external_body]
pub struct ExSvgFile(vtracer::SvgFile);

/// Whether `tiny_skia::Pixmap::new` makes a `w` x `h` pixmap: both sides positive,
/// a row's bytes within `i32` and the whole buffer within `usize`.
pub open spec fn pixmap_fits(w: u32, h: u32) -> bool {
    &&& w > 0
    &&& h > 0
    &&& w * 4 <= i32::MAX
    &&& w * h * 4 <= usize::MAX
}

/// The size in whole pixels of the SVG file `data` (`None` inside when its size
/// makes no pixel rectangle), or `None` when it does not parse.
pub uninterp spec fn svg_size(data: Seq<u8>) -> Option<Option<(u32, u32)>>;

/// Rasterizes the SVG file `data`: `usvg::Tree::from_data` with the default options
/// parses it (SVG text or gzip-compressed SVG; a referenced image that cannot be
/// loaded is left out, not an error); `Tree::size`, `Size::to_rect` at the origin and
/// `Rect::round_out` give its size in whole pixels, each side rounded up by `tiny_skia`
/// (saturating at `i32::MAX`); `tiny_skia::Pixmap::new` makes a transparent pixmap of
/// that size, which `resvg::render` draws the tree into with the identity transform,
/// and `Pixmap::take` hands out its premultiplied RGBA bytes. Whether the file parses
/// and its size depend on `data` alone (named `svg_size`). The drawn pixels are not
/// claimed: the default options read images that the file references from disk. By
/// `tiny_skia`'s source a pixmap is made exactly when `pixmap_fits` holds, and holds
/// 4 bytes per pixel.
#[verifier::external_body]
pub(crate) fn svg_rasterize(data: &[u8]) -> (res: Result<(Option<(u32, u32)>, Option<Vec<u8>>), resvg::usvg::Error>)
    ensures
        match res {
            Ok((size, _)) => svg_size(data@) == Some(size),
            Err(_) => svg_size(data@) is None,
        },
        res matches Ok((size, px)) ==> (px is Some <==> (size matches Some((w, h)) && pixmap_fits(w, h))),
        res matches Ok((Some((w, h)), Some(p))) ==> p@.len() == w * h * 4,
{
    let tree = resvg::usvg::Tree::from_data(data, &resvg::usvg::Options::default())?;
    let rect = tree.size().to_rect(Default::default(), Default::default()).and_then(|r| r.round_out());
    let size = rect.map(|r| (r.width(), r.height()));
    let pixels = size.and_then(|(w, h)| tiny_skia::Pixmap::new(w, h)).map(|mut p| {
        resvg::render(&tree, tiny_skia::Transform::default(), &mut p.as_mut());
        p.take()
    });
    Ok((size, pixels))
}

/// The message of a `usvg::Error` (its `Display`). Nothing is claimed of it.
#[verifier::external_body]
pub(crate) fn svg_error_text(e: &resvg::usvg::Error) -> String {
    e.to_string()
}

/// Calls `vtracer::convert` with `vtracer::Config::default()` on the `width` x
/// `height` RGBA image `raw` (as a `visioncortex::ColorImage`). Empty images are
/// not handed to the tracer. The tracer picks a
/// random key color for images with transparency, so nothing is claimed of the
/// result.
#[verifier::external_body]
pub(crate) fn trace_to_svg(raw: Vec<u8>, width: u32, height: u32) -> Result<vtracer::SvgFile, String>
    requires
        width > 0,
        height > 0,
        raw@.len() == width * height * 4,
{
    let img = vtracer::ColorImage { pixels: raw, width: width as usize, height: height as usize };
    vtracer::convert(img, vtracer::Config::default())
}

/// The bytes of an ASCII text, one per character.
pub open spec fn ascii_bytes(s: Seq<char>) -> Seq<u8> {
    s.map_values(|c: char| c as u8)
}

/// How a traced SVG document begins: the XML declaration, the generator comment and
/// the opening `svg` tag up to its width.
pub open spec fn vtracer_head() -> Seq<char> {
    "<?xml version=\"1.0\" encoding=\"UTF-8\"?>\n<!-- Generator: visioncortex VTracer 0.6.5 -->\n<svg version=\"1.1\" xmlns=\"http://www.w3.org/2000/svg\" width=\""@
}

/// Whether bytes are an SVG document as the tracer writes one: `vtracer_head`
/// first, the closing `</svg>` tag and a line end last.
pub open spec fn vtracer_document(b: Seq<u8>) -> bool {
    &&& ascii_bytes(vtracer_head()).len() + 7 <= b.len()
    &&& b.subrange(0, ascii_bytes(vtracer_head()).len() as int) == ascii_bytes(vtracer_head())
    &&& b.subrange(b.len() - 7, b.len() as int) == ascii_bytes("</svg>\n"@)
}

/// The text of a traced SVG file (its `Display`) as UTF-8 bytes. By the tracer's
/// source the text is `vtracer_head`, then the width, height and paths, then
/// `</svg>` and a line end; all of it is ASCII, so each of those characters is one
/// byte (`vtracer_document`). The width, height and paths are not claimed.
#[verifier::external_body]
pub(crate) fn svg_file_bytes(svg: &vtracer::SvgFile) -> (res: Vec<u8>)
    ensures
        vtracer_document(res@),
{
    svg.to_string().into_bytes()
}

/// Why an SVG could not be loaded or written.
#[derive(Debug)]
pub enum SvgError {
    /// The SVG could not be parsed (the parser's message).
    Parse(String),
    /// The drawing is 0 pixels wide or high.
    ZeroSize,
    /// No pixmap of that size could be allocated.
    Pixmap,
    /// The rendered pixels did not make an image of that size.
    Raster,
    /// Tracing the image failed (the tracer's message).
    Trace(String),
    /// The image to trace is 0 pixels wide or high.
    EmptyImage,
}

/// The message of an SVG error.
pub open spec fn svg_error_text_of(e: SvgError) -> Seq<char> {
    match e {
        SvgError::Parse(m) => "Failed to parse SVG: "@ + m@,
        SvgError::ZeroSize => "SVG has zero dimensions"@,
        SvgError::Pixmap => "Failed to allocate pixmap for SVG rendering"@,
        SvgError::Raster => "Failed to create RGBA image from pixmap"@,
        SvgError::Trace(m) => "Vectorization failed: "@ + m@,
        SvgError::EmptyImage => "Failed to prepare image for vectorization: the image is empty"@,
    }
}

impl SvgError {
    /// The error's message (see `svg_error_text_of`).
    pub fn message(&self) -> (m: String)
        ensures
            m@ == svg_error_text_of(*self),
    {
        let mut m = String::new();
        match self {
            SvgError::Parse(inner) => {
                m.append("Failed to parse SVG: ");
                m.append(inner.as_str());
            },
            SvgError::ZeroSize => {
                m.append("SVG has zero dimensions");
            },
            SvgError::Pixmap => {
                m.append("Failed to allocate pixmap for SVG rendering");
            },
            SvgError::Raster => {
                m.append("Failed to create RGBA image from pixmap");
            },
            SvgError::Trace(inner) => {
                m.append("Vectorization failed: ");
                m.append(inner.as_str());
            },
            SvgError::EmptyImage => {
                m.append("Failed to prepare image for vectorization: the image is empty");
            },
        }
        m
    }
}

/// What loading an SVG of size `r` (`svg_size`) gives: the parse error; the
/// zero-size error; the pixmap error when its size makes no pixel rectangle or no
/// pixmap of that size can be made (`pixmap_fits`); else one frame of that size,
/// shown for 100 ms.
pub open spec fn svg_loaded(r: Option<Option<(u32, u32)>>, res: Result<Seq<Frame>, SvgError>) -> bool {
    match r {
        None => res matches Err(SvgError::Parse(_)),
        Some(None) => res matches Err(SvgError::Pixmap),
        Some(Some((w, h))) => if w == 0 || h == 0 {
            res matches Err(SvgError::ZeroSize)
        } else if !pixmap_fits(w, h) {
            res matches Err(SvgError::Pixmap)
        } else {
            res matches Ok(frames) && {
                &&& frames.len() == 1
                &&& frames[0].delay_ms == 100
                &&& frames[0].image.well_formed()
                &&& frames[0].image.spec_width() == w
                &&& frames[0].image.spec_height() == h
            }
        },
    }
}

/// Rasterizes an SVG at its own size, rounded up to whole pixels, into one frame shown
/// for 100 ms.
pub fn load_svg(data: &[u8]) -> (res: Result<Vec<Frame>, SvgError>)
    ensures
        svg_loaded(svg_size(data@), match res { Ok(f) => Ok(f@), Err(e) => Err(e) }),
{
    let (size, pixels) = match svg_rasterize(data) {
        Ok(r) => r,
        Err(e) => {
            return Err(SvgError::Parse(svg_error_text(&e)));
        },
    };
    let (width, height) = match size {
        Some(wh) => wh,
        None => {
            return Err(SvgError::Pixmap);
        },
    };
    if width == 0 || height == 0 {
        return Err(SvgError::ZeroSize);
    }
    let raw = match pixels {
        Some(p) => p,
        None => {
            return Err(SvgError::Pixmap);
        },
    };
    match RgbaImage::from_raw(width, height, raw.as_slice()) {
        Some(image) => {
            let mut frames: Vec<Frame> = Vec::new();
            frames.push(Frame::new(image, 100));
            Ok(frames)
        },
        None => Err(SvgError::Raster),
    }
}

/// Traces a frame's image into SVG paths and returns the SVG document's bytes. An
/// empty image (0 pixels wide or high) cannot be prepared for tracing and is an
/// error.
pub fn export_svg(frame: &Frame) -> (res: Result<Vec<u8>, SvgError>)
    ensures
        (res matches Err(SvgError::EmptyImage)) <==> (frame.image.spec_width() == 0 || frame.image.spec_height() == 0),
        res matches Err(e) ==> (e is Trace || e is EmptyImage),
        res matches Ok(bytes) ==> vtracer_document(bytes@),
{
    let (w, h) = frame.dimensions();
    if w == 0 || h == 0 {
        return Err(SvgError::EmptyImage);
    }
    let raw = frame.image.to_raw();
    match trace_to_svg(raw, w, h) {
        Ok(svg) => Ok(svg_file_bytes(&svg)),
        Err(msg) => Err(SvgError::Trace(msg)),
    }
}

} // verus!
