//! Output formats, still-image export, loading by file type and the conversion of
//! frames to a target format.
use vstd::prelude::*;

use crate::codec::apng_codec::{
    apng_encode_error_text, blank, decode_apng, decoded_as, encode_apng, ends_with_frames, fits_first_frame,
    lemma_stops_at_unique, renders_in_order, stops_at, subs_of, ApngEncodeError,
};
use crate::codec::gif_codec::{
    decode_gif, encode_gif, frame_of_parts, gif_decode_error_text, gif_encode_error_text, gif_input,
    gif_repeat,
    GifDecodeError, GifEncodeError,
};
use crate::codec::image_bridge::{
    decode_by_extension, encode_jpeg, encode_still, image_decoding, image_error_text, DecodeFailure,
    gif_decoding, gif_encoding, image_extension_known, jpeg_encoding, GifRepeat, resize_lanczos3, resized_rgba, still_encoding, StillFormat,
};
use crate::codec::png_bridge::png_header;
use crate::codec::svg_codec::{export_svg, load_svg, svg_error_text_of, svg_loaded, svg_size, vtracer_document, SvgError};
use crate::frame::{clamped_delay, Frame};
use crate::raster::{raw_bytes, rgb_bytes, Rgba, RgbaImage};
use crate::text::{all_ascii, ascii_lower, lowercase, same_text, to_lowercase};

verus! {

/// A format that frames can be converted to.
#[derive(Clone, Copy, Debug, PartialEq, Eq, Structural)]
pub enum TargetFormat {
    Png,
    Jpg,
    Webp,
    Gif,
    Apng,
    Bmp,
    Ico,
    Tiff,
    Tga,
    Svg,
}

/// The file extension written for a format.
pub open spec fn extension_text(f: TargetFormat) -> Seq<char> {
    match f {
        TargetFormat::Png => "png"@,
        TargetFormat::Jpg => "jpg"@,
        TargetFormat::Webp => "webp"@,
        TargetFormat::Gif => "gif"@,
        TargetFormat::Apng => "apng"@,
        TargetFormat::Bmp => "bmp"@,
        TargetFormat::Ico => "ico"@,
        TargetFormat::Tiff => "tiff"@,
        TargetFormat::Tga => "tga"@,
        TargetFormat::Svg => "svg"@,
    }
}

/// The name a format is shown by.
pub open spec fn display_text(f: TargetFormat) -> Seq<char> {
    match f {
        TargetFormat::Png => "PNG"@,
        TargetFormat::Jpg => "JPG"@,
        TargetFormat::Webp => "WEBP"@,
        TargetFormat::Gif => "GIF"@,
        TargetFormat::Apng => "APNG"@,
        TargetFormat::Bmp => "BMP"@,
        TargetFormat::Ico => "ICO"@,
        TargetFormat::Tiff => "TIFF"@,
        TargetFormat::Tga => "TGA"@,
        TargetFormat::Svg => "SVG"@,
    }
}

/// The format a lowercase extension names: the ten extensions and the alternative
/// spellings "jpeg" and "tif".
pub open spec fn format_named(e: Seq<char>) -> Option<TargetFormat> {
    if e == "png"@ {
        Some(TargetFormat::Png)
    } else if e == "jpg"@ || e == "jpeg"@ {
        Some(TargetFormat::Jpg)
    } else if e == "webp"@ {
        Some(TargetFormat::Webp)
    } else if e == "gif"@ {
        Some(TargetFormat::Gif)
    } else if e == "apng"@ {
        Some(TargetFormat::Apng)
    } else if e == "bmp"@ {
        Some(TargetFormat::Bmp)
    } else if e == "ico"@ {
        Some(TargetFormat::Ico)
    } else if e == "tiff"@ || e == "tif"@ {
        Some(TargetFormat::Tiff)
    } else if e == "tga"@ {
        Some(TargetFormat::Tga)
    } else if e == "svg"@ {
        Some(TargetFormat::Svg)
    } else {
        None
    }
}

impl TargetFormat {
    /// Every format, in the order they are offered.
    pub const ALL: [TargetFormat; 10] = [
        TargetFormat::Png,
        TargetFormat::Jpg,
        TargetFormat::Webp,
        TargetFormat::Gif,
        TargetFormat::Apng,
        TargetFormat::Bmp,
        TargetFormat::Ico,
        TargetFormat::Tiff,
        TargetFormat::Tga,
        TargetFormat::Svg,
    ];

    /// The file extension written for the format.
    pub fn extension(&self) -> (e: &'static str)
        ensures
            e@ == extension_text(*self),
    {
        match self {
            TargetFormat::Png => "png",
            TargetFormat::Jpg => "jpg",
            TargetFormat::Webp => "webp",
            TargetFormat::Gif => "gif",
            TargetFormat::Apng => "apng",
            TargetFormat::Bmp => "bmp",
            TargetFormat::Ico => "ico",
            TargetFormat::Tiff => "tiff",
            TargetFormat::Tga => "tga",
            TargetFormat::Svg => "svg",
        }
    }

    /// The name the format is shown by.
    pub fn display_name(&self) -> (n: &'static str)
        ensures
            n@ == display_text(*self),
    {
        match self {
            TargetFormat::Png => "PNG",
            TargetFormat::Jpg => "JPG",
            TargetFormat::Webp => "WEBP",
            TargetFormat::Gif => "GIF",
            TargetFormat::Apng => "APNG",
            TargetFormat::Bmp => "BMP",
            TargetFormat::Ico => "ICO",
            TargetFormat::Tiff => "TIFF",
            TargetFormat::Tga => "TGA",
            TargetFormat::Svg => "SVG",
        }
    }

    /// Whether the format holds animations: GIF and APNG.
    pub fn is_animated(&self) -> (b: bool)
        ensures
            b == (*self == TargetFormat::Gif || *self == TargetFormat::Apng),
    {
        match self {
            TargetFormat::Gif | TargetFormat::Apng => true,
            _ => false,
        }
    }

    /// The format an extension names, in any letter case.
    pub fn from_extension(ext: &str) -> (f: Option<TargetFormat>)
        ensures
            f == format_named(lowercase(ext@)),
            all_ascii(ext@) ==> f == format_named(ascii_lower(ext@)),
    {
        let lower = to_lowercase(ext);
        named_format(lower.as_str())
    }
}

/// The format a lowercase extension names (see `format_named`).
pub fn named_format(e: &str) -> (f: Option<TargetFormat>)
    ensures
        f == format_named(e@),
{
    if same_text(e, "png") {
        Some(TargetFormat::Png)
    } else if same_text(e, "jpg") || same_text(e, "jpeg") {
        Some(TargetFormat::Jpg)
    } else if same_text(e, "webp") {
        Some(TargetFormat::Webp)
    } else if same_text(e, "gif") {
        Some(TargetFormat::Gif)
    } else if same_text(e, "apng") {
        Some(TargetFormat::Apng)
    } else if same_text(e, "bmp") {
        Some(TargetFormat::Bmp)
    } else if same_text(e, "ico") {
        Some(TargetFormat::Ico)
    } else if same_text(e, "tiff") || same_text(e, "tif") {
        Some(TargetFormat::Tiff)
    } else if same_text(e, "tga") {
        Some(TargetFormat::Tga)
    } else if same_text(e, "svg") {
        Some(TargetFormat::Svg)
    } else {
        None
    }
}

/// Every format is found again from its own extension: the extension is ASCII and
/// already lowercase, and names that format.
pub proof fn lemma_extension_names_format(f: TargetFormat)
    ensures
        all_ascii(extension_text(f)),
        ascii_lower(extension_text(f)) == extension_text(f),
        format_named(extension_text(f)) == Some(f),
{
    reveal_strlit("png");
    reveal_strlit("jpg");
    reveal_strlit("jpeg");
    reveal_strlit("webp");
    reveal_strlit("gif");
    reveal_strlit("apng");
    reveal_strlit("bmp");
    reveal_strlit("ico");
    reveal_strlit("tiff");
    reveal_strlit("tif");
    reveal_strlit("tga");
    reveal_strlit("svg");
    let e = extension_text(f);
    assert(ascii_lower(e) =~= e);
    assert("png"@[0] != "jpg"@[0]);
    assert("png"@.len() != "jpeg"@.len());
    assert("png"@.len() != "webp"@.len());
    assert("png"@[0] != "gif"@[0]);
    assert("png"@.len() != "apng"@.len());
    assert("png"@[0] != "bmp"@[0]);
    assert("png"@[0] != "ico"@[0]);
    assert("png"@.len() != "tiff"@.len());
    assert("png"@[0] != "tif"@[0]);
    assert("png"@[0] != "tga"@[0]);
    assert("png"@[0] != "svg"@[0]);
    assert("jpg"@.len() != "jpeg"@.len());
    assert("jpg"@.len() != "webp"@.len());
    assert("jpg"@[0] != "gif"@[0]);
    assert("jpg"@.len() != "apng"@.len());
    assert("jpg"@[0] != "bmp"@[0]);
    assert("jpg"@[0] != "ico"@[0]);
    assert("jpg"@.len() != "tiff"@.len());
    assert("jpg"@[0] != "tif"@[0]);
    assert("jpg"@[0] != "tga"@[0]);
    assert("jpg"@[0] != "svg"@[0]);
    assert("jpeg"@[0] != "webp"@[0]);
    assert("jpeg"@.len() != "gif"@.len());
    assert("jpeg"@[0] != "apng"@[0]);
    assert("jpeg"@.len() != "bmp"@.len());
    assert("jpeg"@.len() != "ico"@.len());
    assert("jpeg"@[0] != "tiff"@[0]);
    assert("jpeg"@.len() != "tif"@.len());
    assert("jpeg"@.len() != "tga"@.len());
    assert("jpeg"@.len() != "svg"@.len());
    assert("webp"@.len() != "gif"@.len());
    assert("webp"@[0] != "apng"@[0]);
    assert("webp"@.len() != "bmp"@.len());
    assert("webp"@.len() != "ico"@.len());
    assert("webp"@[0] != "tiff"@[0]);
    assert("webp"@.len() != "tif"@.len());
    assert("webp"@.len() != "tga"@.len());
    assert("webp"@.len() != "svg"@.len());
    assert("gif"@.len() != "apng"@.len());
    assert("gif"@[0] != "bmp"@[0]);
    assert("gif"@[0] != "ico"@[0]);
    assert("gif"@.len() != "tiff"@.len());
    assert("gif"@[0] != "tif"@[0]);
    assert("gif"@[0] != "tga"@[0]);
    assert("gif"@[0] != "svg"@[0]);
    assert("apng"@.len() != "bmp"@.len());
    assert("apng"@.len() != "ico"@.len());
    assert("apng"@[0] != "tiff"@[0]);
    assert("apng"@.len() != "tif"@.len());
    assert("apng"@.len() != "tga"@.len());
    assert("apng"@.len() != "svg"@.len());
    assert("bmp"@[0] != "ico"@[0]);
    assert("bmp"@.len() != "tiff"@.len());
    assert("bmp"@[0] != "tif"@[0]);
    assert("bmp"@[0] != "tga"@[0]);
    assert("bmp"@[0] != "svg"@[0]);
    assert("ico"@.len() != "tiff"@.len());
    assert("ico"@[0] != "tif"@[0]);
    assert("ico"@[0] != "tga"@[0]);
    assert("ico"@[0] != "svg"@[0]);
    assert("tiff"@.len() != "tif"@.len());
    assert("tiff"@.len() != "tga"@.len());
    assert("tiff"@.len() != "svg"@.len());
    assert("tif"@[1] != "tga"@[1]);
    assert("tif"@[0] != "svg"@[0]);
    assert("tga"@[0] != "svg"@[0]);
}

/// How a single frame is written, chosen by the output file's extension.
#[derive(Clone, Copy, Debug, PartialEq, Eq, Structural)]
pub enum StillKind {
    Jpeg,
    Raster(StillFormat),
    Svg,
}

/// The kind of still output for a lowercase extension: JPEG for "jpg"/"jpeg", SVG for
/// "svg", WebP, BMP, ICO, TIFF ("tiff"/"tif") and TGA by name, PNG for anything else.
pub open spec fn still_kind(e: Seq<char>) -> StillKind {
    if e == "jpg"@ || e == "jpeg"@ {
        StillKind::Jpeg
    } else if e == "webp"@ {
        StillKind::Raster(StillFormat::WebP)
    } else if e == "bmp"@ {
        StillKind::Raster(StillFormat::Bmp)
    } else if e == "ico"@ {
        StillKind::Raster(StillFormat::Ico)
    } else if e == "tiff"@ || e == "tif"@ {
        StillKind::Raster(StillFormat::Tiff)
    } else if e == "tga"@ {
        StillKind::Raster(StillFormat::Tga)
    } else if e == "svg"@ {
        StillKind::Svg
    } else {
        StillKind::Raster(StillFormat::Png)
    }
}

/// Each still extension is written in the format of its name: "jpg" and "jpeg" as
/// JPEG, "webp" as WebP, "bmp" as BMP, "ico" as ICO, "tif" and "tiff" as TIFF, "tga"
/// as TGA, "svg" as traced SVG, and "png" as PNG.
pub proof fn law_still_format_follows_extension<F: Fn(u32, u32, bool) -> u32>(
    e: Seq<char>,
    w: nat,
    h: nat,
    pixels: Seq<Rgba>,
    quality: u8,
    scaled_short_side: &F,
    plan: StillPlan,
)
    requires
        still_plan_for(e, w, h, pixels, quality, scaled_short_side, plan),
    ensures
        e == "jpg"@ || e == "jpeg"@ ==> (plan matches StillPlan::Jpeg { quality: q, .. } && q == (if quality < 1 {
            1
        } else if quality > 100 {
            100
        } else {
            quality
        })),
        e == "ico"@ ==> (plan matches StillPlan::Raster { width, height, .. } && width <= 256 && height <= 256),
        e == "webp"@ ==> (plan matches StillPlan::Raster { format, .. } && format == StillFormat::WebP),
        e == "bmp"@ ==> (plan matches StillPlan::Raster { format, .. } && format == StillFormat::Bmp),
        e == "ico"@ ==> (plan matches StillPlan::Raster { format, .. } && format == StillFormat::Ico),
        e == "tif"@ || e == "tiff"@ ==> (plan matches StillPlan::Raster { format, .. } && format == StillFormat::Tiff),
        e == "tga"@ ==> (plan matches StillPlan::Raster { format, .. } && format == StillFormat::Tga),
        e == "svg"@ ==> plan is Svg,
        e == "png"@ ==> (plan matches StillPlan::Raster { format, .. } && format == StillFormat::Png),
{
    reveal_strlit("jpg");
    reveal_strlit("jpeg");
    reveal_strlit("webp");
    reveal_strlit("bmp");
    reveal_strlit("ico");
    reveal_strlit("tif");
    reveal_strlit("tiff");
    reveal_strlit("tga");
    reveal_strlit("svg");
    reveal_strlit("png");
    let names = seq!["jpg"@, "jpeg"@, "webp"@, "bmp"@, "ico"@, "tiff"@, "tif"@, "tga"@, "svg"@];
    assert forall|i: int, j: int| 0 <= i < j < names.len() implies names[i] != names[j] by {
        if names[i].len() == names[j].len() {
            assert(names[i][0] != names[j][0] || names[i][1] != names[j][1]);
        }
    }
    assert forall|i: int| 0 <= i < names.len() implies names[i] != "png"@ by {
        if names[i].len() == 3 {
            assert(names[i][0] != 'p');
        }
    }
    if e == "webp"@ {
        assert(still_kind(e) == StillKind::Raster(StillFormat::WebP)) by {
            assert(names[2] != names[0] && names[2] != names[1]);
        }
    }
    if e == "bmp"@ {
        assert(still_kind(e) == StillKind::Raster(StillFormat::Bmp)) by {
            assert(names[3] != names[0] && names[3] != names[1] && names[3] != names[2]);
        }
    }
    if e == "ico"@ {
        assert(still_kind(e) == StillKind::Raster(StillFormat::Ico)) by {
            assert(names[4] != names[0] && names[4] != names[1] && names[4] != names[2] && names[4] != names[3]);
        }
    }
    if e == "tiff"@ || e == "tif"@ {
        assert(still_kind(e) == StillKind::Raster(StillFormat::Tiff)) by {
            assert(names[5] != names[0] && names[5] != names[1] && names[5] != names[2] && names[5] != names[3] && names[5] != names[4]);
            assert(names[6] != names[0] && names[6] != names[1] && names[6] != names[2] && names[6] != names[3] && names[6] != names[4]);
        }
    }
    if e == "tga"@ {
        assert(still_kind(e) == StillKind::Raster(StillFormat::Tga)) by {
            assert(forall|i: int| 0 <= i < 7 ==> names[7] != #[trigger] names[i]);
        }
    }
    if e == "svg"@ {
        assert(still_kind(e) == StillKind::Svg) by {
            assert(forall|i: int| 0 <= i < 8 ==> names[8] != #[trigger] names[i]);
        }
    }
    if e == "png"@ {
        assert(still_kind(e) == StillKind::Raster(StillFormat::Png)) by {
            assert(forall|i: int| 0 <= i < 9 ==> #[trigger] names[i] != "png"@);
        }
    }
}

/// The lowercased extension of an output path; "png" when it has none.
pub open spec fn output_extension(ext: Option<Seq<char>>) -> Seq<char> {
    match ext {
        Some(e) => lowercase(e),
        None => "png"@,
    }
}

/// The kind of still output for a lowercase extension (see `still_kind`).
pub fn still_kind_of(e: &str) -> (k: StillKind)
    ensures
        k == still_kind(e@),
{
    if same_text(e, "jpg") || same_text(e, "jpeg") {
        StillKind::Jpeg
    } else if same_text(e, "webp") {
        StillKind::Raster(StillFormat::WebP)
    } else if same_text(e, "bmp") {
        StillKind::Raster(StillFormat::Bmp)
    } else if same_text(e, "ico") {
        StillKind::Raster(StillFormat::Ico)
    } else if same_text(e, "tiff") || same_text(e, "tif") {
        StillKind::Raster(StillFormat::Tiff)
    } else if same_text(e, "tga") {
        StillKind::Raster(StillFormat::Tga)
    } else if same_text(e, "svg") {
        StillKind::Svg
    } else {
        StillKind::Raster(StillFormat::Png)
    }
}

/// The lowercased extension of an output path, "png" when it has none.
pub fn output_extension_of(ext: Option<&str>) -> (e: String)
    ensures
        e@ == output_extension(text_option(ext)),
{
    match ext {
        Some(x) => to_lowercase(x),
        None => {
            let e = to_lowercase("png");
            proof {
                reveal_strlit("png");
                assert(ascii_lower("png"@) =~= "png"@);
            }
            e
        },
    }
}

/// The largest side of an icon, in pixels.
pub const ICON_MAX_SIDE: u32 = 256;

/// `v` limited to 1..=256.
pub open spec fn icon_side(v: u32) -> u32 {
    if v < 1 {
        1
    } else if v > 256 {
        256
    } else {
        v
    }
}

/// Whether `scaled_short_side`, asked as `icon_size` asks it (for an image with a side
/// over 256, `wide` telling whether the width is the longer side), never gives more
/// than the side it scales: the height of a wide image, the width of a tall one.
pub open spec fn short_side_bounded<F: Fn(u32, u32, bool) -> u32>(scaled_short_side: &F) -> bool {
    forall|w: u32, h: u32, wide: bool, s: u32|
        #[trigger] scaled_short_side.ensures((w, h, wide), s) && (w > 256 || h > 256) && wide == (w >= h)
            ==> s <= if wide {
            h
        } else {
            w
        }
}

/// Whether `nw` x `nh` is the size an icon of a `w` x `h` image is written at: the
/// image's own size when both sides are at most 256; otherwise the longer side (the
/// width on a tie) becomes 256 and the other becomes `scaled_short_side(w, h,
/// width_is_longer)`, limited to 1..=256. `scaled_short_side` is the
/// aspect-preserving length of the shorter side, rounded.
pub open spec fn icon_size_of<F: Fn(u32, u32, bool) -> u32>(w: u32, h: u32, scaled_short_side: &F, nw: u32, nh: u32) -> bool {
    if !(w > 256 || h > 256) {
        nw == w && nh == h
    } else if w >= h {
        nw == 256 && exists|s: u32| #[trigger] scaled_short_side.ensures((w, h, true), s) && nh == icon_side(s)
    } else {
        nh == 256 && exists|s: u32| #[trigger] scaled_short_side.ensures((w, h, false), s) && nw == icon_side(s)
    }
}

/// The size an icon of a `w` x `h` image is written at (see `icon_size_of`); never
/// more than 256 on either side.
pub fn icon_size<F: Fn(u32, u32, bool) -> u32>(w: u32, h: u32, scaled_short_side: &F) -> (size: (u32, u32))
    requires
        forall|a: u32, b: u32, c: bool| #[trigger] scaled_short_side.requires((a, b, c)),
    ensures
        icon_size_of(w, h, scaled_short_side, size.0, size.1),
        size.0 <= 256 && size.1 <= 256,
{
    if w > ICON_MAX_SIDE || h > ICON_MAX_SIDE {
        let wide = w >= h;
        let s = scaled_short_side(w, h, wide);
        let side = if s < 1 {
            1
        } else if s > ICON_MAX_SIDE {
            ICON_MAX_SIDE
        } else {
            s
        };
        if wide {
            (ICON_MAX_SIDE, side)
        } else {
            (side, ICON_MAX_SIDE)
        }
    } else {
        (w, h)
    }
}

/// The JPEG quality actually used: `quality` limited to 1..=100.
pub open spec fn jpeg_quality(quality: u8) -> u8 {
    if quality < 1 {
        1
    } else if quality > 100 {
        100
    } else {
        quality
    }
}

/// What is handed to the encoder for a still export.
pub enum StillPlan {
    /// RGB bytes of a `width` x `height` image, and the JPEG quality.
    Jpeg { rgb: Vec<u8>, width: u32, height: u32, quality: u8 },
    /// RGBA bytes of a `width` x `height` image, and the format.
    Raster { rgba: Vec<u8>, width: u32, height: u32, format: StillFormat },
    /// The frame is traced into SVG paths.
    Svg,
}

/// Whether `plan` is how an image of `w` x `h` pixels `pixels` is written for the
/// lowercase extension `e` (see `still_kind`): JPEG gets the RGB bytes (alpha
/// dropped) and the quality limited to 1..=100; an icon gets the bytes resized with
/// the Lanczos3 filter to its icon size (`icon_size_of`) when a side exceeds 256; the
/// other raster formats get the image's bytes.
pub open spec fn still_plan_for<F: Fn(u32, u32, bool) -> u32>(
    e: Seq<char>,
    w: nat,
    h: nat,
    pixels: Seq<Rgba>,
    quality: u8,
    scaled_short_side: &F,
    plan: StillPlan,
) -> bool {
    match plan {
        StillPlan::Jpeg { rgb, width, height, quality: q } => {
            &&& still_kind(e) == StillKind::Jpeg
            &&& rgb@ == rgb_bytes(pixels)
            &&& width == w
            &&& height == h
            &&& q == jpeg_quality(quality)
            &&& rgb@.len() == width * height * 3
        },
        StillPlan::Raster { rgba, width, height, format } => {
            &&& still_kind(e) == StillKind::Raster(format)
            &&& rgba@.len() == width * height * 4
            &&& if format == StillFormat::Ico && (w > 256 || h > 256) {
                &&& icon_size_of(w as u32, h as u32, scaled_short_side, width, height)
                &&& width <= 256 && height <= 256
                &&& rgba@ == resized_rgba(raw_bytes(pixels), w as u32, h as u32, width, height, 1)
            } else {
                &&& width == w
                &&& height == h
                &&& rgba@ == raw_bytes(pixels)
            }
        },
        StillPlan::Svg => still_kind(e) == StillKind::Svg,
    }
}

/// An icon is never written larger than 256 x 256: every plan for the ICO format
/// has both sides at most 256, whatever the image's size.
pub proof fn lemma_icon_plans_fit<F: Fn(u32, u32, bool) -> u32>(
    e: Seq<char>,
    w: nat,
    h: nat,
    pixels: Seq<Rgba>,
    quality: u8,
    scaled_short_side: &F,
    plan: StillPlan,
)
    requires
        still_plan_for(e, w, h, pixels, quality, scaled_short_side, plan),
        plan matches StillPlan::Raster { format, .. } && format == StillFormat::Ico,
    ensures
        plan matches StillPlan::Raster { width, height, .. } && width <= 256 && height <= 256,
{
}

/// Decides how `frame` is written for the lowercase extension `ext` (see
/// `still_plan_for`).
pub fn plan_still_export<F: Fn(u32, u32, bool) -> u32>(ext: &str, frame: &Frame, quality: u8, scaled_short_side: &F) -> (plan: StillPlan)
    requires
        forall|a: u32, b: u32, c: bool| #[trigger] scaled_short_side.requires((a, b, c)),
        short_side_bounded(scaled_short_side),
    ensures
        still_plan_for(
            ext@,
            frame.image.spec_width(),
            frame.image.spec_height(),
            frame.image.spec_pixels(),
            quality,
            scaled_short_side,
            plan,
        ),
{
    let (w, h) = frame.dimensions();
    match still_kind_of(ext) {
        StillKind::Jpeg => {
            let rgb = frame.image.to_rgb_raw();
            proof {
                assert(rgb@.len() == w * h * 3) by (nonlinear_arith)
                    requires rgb@.len() == 3 * (w * h);
            }
            let q = if quality < 1 {
                1
            } else if quality > 100 {
                100
            } else {
                quality
            };
            StillPlan::Jpeg { rgb, width: w, height: h, quality: q }
        },
        StillKind::Svg => StillPlan::Svg,
        StillKind::Raster(format) => {
            let raw = frame.image.to_raw();
            proof {
                assert(raw@.len() == w * h * 4) by (nonlinear_arith)
                    requires raw@.len() == 4 * (w * h);
            }
            if format == StillFormat::Ico && (w > ICON_MAX_SIDE || h > ICON_MAX_SIDE) {
                let (nw, nh) = icon_size(w, h, scaled_short_side);
                assert(nw * nh * 4 <= 256 * 256 * 4) by (nonlinear_arith)
                    requires nw <= 256, nh <= 256;
                proof {
                    if h != 0 {
                        if w >= h {
                            let s = choose|s: u32| #[trigger] scaled_short_side.ensures((w, h, true), s) && nh == icon_side(s);
                            assert(s <= h);
                        }
                        assert(nh <= h);
                        assert(w * nh * 4 <= w * h * 4) by (nonlinear_arith)
                            requires nh <= h;
                    }
                }
                let resized = resize_lanczos3(raw.as_slice(), w, h, nw, nh);
                StillPlan::Raster { rgba: resized, width: nw, height: nh, format }
            } else {
                StillPlan::Raster { rgba: raw, width: w, height: h, format }
            }
        },
    }
}

/// Why a single frame could not be written.
#[derive(Debug)]
pub enum ExportError {
    /// The JPEG encoder failed (its message).
    Jpeg(String),
    /// Writing in a raster format failed (the format and the encoder's message).
    Save(StillFormat, String),
    /// Tracing into SVG failed.
    Svg(SvgError),
}

/// The text of an optional extension, empty when there is none.
pub open spec fn given_extension(o: Option<Seq<char>>) -> Seq<char> {
    match o {
        Some(x) => x,
        None => ""@,
    }
}

/// An optional string as optional text.
pub open spec fn text_option(o: Option<&str>) -> Option<Seq<char>> {
    match o {
        Some(x) => Some(x@),
        None => None,
    }
}

/// Whether `res` is what writing by `plan` gives: the JPEG or raster encoder's bytes
/// for the planned input, or its error when it fails; for SVG, the traced document
/// or a tracing error.
pub open spec fn export_outcome(plan: StillPlan, res: Result<Vec<u8>, ExportError>) -> bool {
    match plan {
        StillPlan::Jpeg { rgb, width, height, quality } => match res {
            Ok(bytes) => jpeg_encoding(rgb@, width, height, quality) == Some(bytes@),
            Err(e) => jpeg_encoding(rgb@, width, height, quality) is None && e is Jpeg,
        },
        StillPlan::Raster { rgba, width, height, format } => match res {
            Ok(bytes) => still_encoding(rgba@, width, height, format) == Some(bytes@),
            Err(e) => still_encoding(rgba@, width, height, format) is None && (e matches ExportError::Save(f, _) && f == format),
        },
        StillPlan::Svg => match res {
            Ok(bytes) => vtracer_document(bytes@),
            Err(e) => e matches ExportError::Svg(se) && (se is Trace || se is EmptyImage),
        },
    }
}

/// Writes one frame as the still format its output path's extension asks for and
/// returns the file's bytes: the frame is planned for the lowercased extension
/// (`output_extension`, `still_plan_for`) and the plan handed to its encoder
/// (`export_outcome`).
pub fn export_single_frame<F: Fn(u32, u32, bool) -> u32>(ext: Option<&str>, frame: &Frame, quality: u8, scaled_short_side: &F) -> (res: Result<Vec<u8>, ExportError>)
    requires
        forall|a: u32, b: u32, c: bool| #[trigger] scaled_short_side.requires((a, b, c)),
        short_side_bounded(scaled_short_side),
    ensures
        exists|plan: StillPlan| {
            &&& #[trigger] still_plan_for(
                output_extension(text_option(ext)),
                frame.image.spec_width(),
                frame.image.spec_height(),
                frame.image.spec_pixels(),
                quality,
                scaled_short_side,
                plan,
            )
            &&& export_outcome(plan, res)
        },
        res matches Err(ExportError::Svg(SvgError::EmptyImage)) ==> frame.image.spec_width() == 0 || frame.image.spec_height() == 0,
{
    let e = output_extension_of(ext);
    let plan = plan_still_export(e.as_str(), frame, quality, scaled_short_side);
    let ghost planned = plan;
    let res = match plan {
        StillPlan::Jpeg { rgb, width, height, quality } => match encode_jpeg(rgb.as_slice(), width, height, quality) {
            Ok(bytes) => Ok(bytes),
            Err(err) => Err(ExportError::Jpeg(image_error_text(&err))),
        },
        StillPlan::Raster { rgba, width, height, format } => match encode_still(rgba, width, height, format) {
            Ok(bytes) => Ok(bytes),
            Err(err) => Err(ExportError::Save(format, image_error_text(&err))),
        },
        StillPlan::Svg => match export_svg(frame) {
            Ok(bytes) => Ok(bytes),
            Err(err) => Err(ExportError::Svg(err)),
        },
    };
    proof {
        assert(export_outcome(planned, res));
    }
    res
}

/// Why frames could not be converted.
#[derive(Debug)]
pub enum ConvertError {
    /// There is no frame to convert.
    NoFrames,
    /// GIF encoding failed.
    Gif(GifEncodeError),
    /// PNG/APNG encoding failed.
    Apng(ApngEncodeError),
    /// Writing a still image failed.
    Export(ExportError),
}

/// The name of a still format in messages.
pub open spec fn still_format_label(f: StillFormat) -> Seq<char> {
    match f {
        StillFormat::Png => "PNG"@,
        StillFormat::WebP => "WebP"@,
        StillFormat::Bmp => "BMP"@,
        StillFormat::Ico => "ICO"@,
        StillFormat::Tiff => "TIFF"@,
        StillFormat::Tga => "TGA"@,
    }
}

/// The name of a still format in messages (see `still_format_label`).
pub fn still_format_name(f: StillFormat) -> (n: &'static str)
    ensures
        n@ == still_format_label(f),
{
    match f {
        StillFormat::Png => "PNG",
        StillFormat::WebP => "WebP",
        StillFormat::Bmp => "BMP",
        StillFormat::Ico => "ICO",
        StillFormat::Tiff => "TIFF",
        StillFormat::Tga => "TGA",
    }
}

/// The message of an export error.
pub open spec fn export_error_text(e: ExportError) -> Seq<char> {
    match e {
        ExportError::Jpeg(m) => "JPEG encode failed: "@ + m@,
        ExportError::Save(f, m) => "Failed to save "@ + still_format_label(f) + ": "@ + m@,
        ExportError::Svg(s) => svg_error_text_of(s),
    }
}

impl ExportError {
    /// The error's message (see `export_error_text`).
    pub fn message(&self) -> (m: String)
        ensures
            m@ == export_error_text(*self),
    {
        let mut m = String::new();
        match self {
            ExportError::Jpeg(inner) => {
                m.append("JPEG encode failed: ");
                m.append(inner.as_str());
            },
            ExportError::Save(f, inner) => {
                m.append("Failed to save ");
                m.append(still_format_name(*f));
                m.append(": ");
                m.append(inner.as_str());
            },
            ExportError::Svg(err) => {
                m = err.message();
            },
        }
        m
    }
}

/// The message when the converted bytes cannot be written to the output file: an
/// animation reports the file it could not create; a still image reports by its
/// output kind (see `still_kind`), as its writer does.
pub open spec fn write_failure_text(format: TargetFormat, ext: Option<Seq<char>>, reason: Seq<char>) -> Seq<char> {
    if format == TargetFormat::Gif || format == TargetFormat::Apng {
        "Failed to create output file: "@ + reason
    } else {
        match still_kind(output_extension(ext)) {
            StillKind::Jpeg => "Failed to create file: "@ + reason,
            StillKind::Raster(f) => "Failed to save "@ + still_format_label(f) + ": "@ + reason,
            StillKind::Svg => "Vectorization failed: "@ + reason,
        }
    }
}

/// The message when the converted bytes cannot be written for `reason` (see
/// `write_failure_text`).
pub fn write_failure_message(format: TargetFormat, ext: Option<&str>, reason: &str) -> (m: String)
    ensures
        m@ == write_failure_text(format, text_option(ext), reason@),
{
    let mut m = String::new();
    if format.is_animated() {
        m.append("Failed to create output file: ");
    } else {
        let e = output_extension_of(ext);
        match still_kind_of(e.as_str()) {
            StillKind::Jpeg => m.append("Failed to create file: "),
            StillKind::Raster(f) => {
                m.append("Failed to save ");
                m.append(still_format_name(f));
                m.append(": ");
            },
            StillKind::Svg => m.append("Vectorization failed: "),
        }
    }
    m.append(reason);
    m
}

/// The message of a conversion error.
pub open spec fn convert_error_text(e: ConvertError) -> Seq<char> {
    match e {
        ConvertError::NoFrames => "No frames to convert"@,
        ConvertError::Gif(g) => gif_encode_error_text(g),
        ConvertError::Apng(a) => apng_encode_error_text(a),
        ConvertError::Export(x) => export_error_text(x),
    }
}

impl ConvertError {
    /// The error's message (see `convert_error_text`).
    pub fn message(&self) -> (m: String)
        ensures
            m@ == convert_error_text(*self),
    {
        match self {
            ConvertError::NoFrames => {
                let mut m = String::new();
                m.append("No frames to convert");
                m
            },
            ConvertError::Gif(g) => g.message(),
            ConvertError::Apng(a) => a.message(),
            ConvertError::Export(x) => x.message(),
        }
    }
}

/// The frames to write: the given frames, each shown for `custom_delay_ms` (raised to
/// the minimum) when one is given, else for its own delay.
pub fn prepare_frames(frames: &[Frame], custom_delay_ms: Option<u32>) -> (out: Vec<Frame>)
    ensures
        out@.len() == frames@.len(),
        forall|i: int| 0 <= i < frames@.len() ==> {
            &&& (#[trigger] out@[i]).image.spec_pixels() == frames@[i].image.spec_pixels()
            &&& out@[i].image.same_size(&frames@[i].image)
            &&& out@[i].image.well_formed()
            &&& out@[i].delay_ms == match custom_delay_ms {
                Some(d) => clamped_delay(d),
                None => frames@[i].delay_ms,
            }
        },
{
    let mut out: Vec<Frame> = Vec::new();
    let n = frames.len();
    let mut i: usize = 0;
    while i < n
        invariant
            i <= n,
            n == frames@.len(),
            out@.len() == i,
            forall|j: int| 0 <= j < i ==> {
                &&& (#[trigger] out@[j]).image.spec_pixels() == frames@[j].image.spec_pixels()
                &&& out@[j].image.same_size(&frames@[j].image)
                &&& out@[j].image.well_formed()
                &&& out@[j].delay_ms == match custom_delay_ms {
                    Some(d) => clamped_delay(d),
                    None => frames@[j].delay_ms,
                }
            },
        decreases n - i,
    {
        let copy = frames[i].duplicate();
        let f = match custom_delay_ms {
            Some(d) => Frame::new(copy.image, d),
            None => copy,
        };
        out.push(f);
        i = i + 1;
    }
    out
}

/// Whether a conversion's result is what the GIF encoder gives for `input` played as
/// `repeat` says: its bytes, or its frame error wrapped as `ConvertError::Gif`.
pub open spec fn converted_gif(input: Seq<(Seq<u8>, u32, u32, u32)>, repeat: GifRepeat, res: Result<Vec<u8>, ConvertError>) -> bool {
    match gif_encoding(input, repeat) {
        Some(bytes) => res matches Ok(b) && b@ == bytes,
        None => res matches Err(ConvertError::Gif(GifEncodeError::Frame(_))),
    }
}

/// Whether a conversion's result is what writing by `plan` gives (see
/// `export_outcome`), the writer's error wrapped as `ConvertError::Export`.
pub open spec fn converted_as(plan: StillPlan, res: Result<Vec<u8>, ConvertError>) -> bool {
    match res {
        Ok(bytes) => export_outcome(plan, Ok(bytes)),
        Err(ConvertError::Export(e)) => export_outcome(plan, Err(e)),
        Err(_) => false,
    }
}

/// Converts frames to `format`: GIF and APNG encode all frames (the repeat count
/// truncated to 16 bits for GIF); any other format writes the first frame as the
/// still format the output path's extension `out_ext` asks for (see
/// `export_single_frame`). A custom delay replaces every frame's delay
/// (`prepare_frames`). No frames is an error.
pub fn convert_image<F: Fn(u32, u32, bool) -> u32>(
    frames: &[Frame],
    out_ext: Option<&str>,
    format: TargetFormat,
    quality: u8,
    custom_delay_ms: Option<u32>,
    repeat_count: u32,
    scaled_short_side: &F,
) -> (res: Result<Vec<u8>, ConvertError>)
    requires
        forall|a: u32, b: u32, c: bool| #[trigger] scaled_short_side.requires((a, b, c)),
        short_side_bounded(scaled_short_side),
        format == TargetFormat::Apng ==> fits_first_frame(frames@),
    ensures
        (res matches Err(ConvertError::NoFrames)) <==> frames@.len() == 0,
        res matches Err(ConvertError::Gif(_)) ==> format == TargetFormat::Gif,
        res matches Err(ConvertError::Apng(_)) ==> format == TargetFormat::Apng,
        frames@.len() > 0 && format == TargetFormat::Gif ==> converted_gif(
            gif_input(frames@, custom_delay_ms),
            gif_repeat(repeat_count as u16),
            res,
        ),
        frames@.len() > 0 && format == TargetFormat::Apng ==> (res is Ok || (res matches Err(ConvertError::Apng(e)) && !(e is NoFrames))),
        frames@.len() > 0 && format != TargetFormat::Gif && format != TargetFormat::Apng ==> exists|plan: StillPlan| {
            &&& #[trigger] still_plan_for(
                output_extension(text_option(out_ext)),
                frames@[0].image.spec_width(),
                frames@[0].image.spec_height(),
                frames@[0].image.spec_pixels(),
                quality,
                scaled_short_side,
                plan,
            )
            &&& converted_as(plan, res)
        },
{
    if frames.len() == 0 {
        return Err(ConvertError::NoFrames);
    }
    let prepared = prepare_frames(frames, custom_delay_ms);
    match format {
        TargetFormat::Gif => {
            proof {
                assert forall|k: int| 0 <= k < frames@.len() implies gif_input(prepared@, None)[k] == gif_input(frames@, custom_delay_ms)[k] by {
                    assert(prepared@[k].image.spec_pixels() == frames@[k].image.spec_pixels());
                }
                assert(gif_input(prepared@, None) =~= gif_input(frames@, custom_delay_ms));
            }
            match encode_gif(prepared.as_slice(), repeat_count as u16) {
                Ok(bytes) => Ok(bytes),
                Err(e) => Err(ConvertError::Gif(e)),
            }
        },
        TargetFormat::Apng => match encode_apng(prepared.as_slice(), repeat_count) {
            Ok(bytes) => Ok(bytes),
            Err(e) => Err(ConvertError::Apng(e)),
        },
        _ => {
            let exported = export_single_frame(out_ext, &prepared[0], quality, scaled_short_side);
            let ghost plan = choose|plan: StillPlan| {
                &&& #[trigger] still_plan_for(
                    output_extension(text_option(out_ext)),
                    prepared@[0].image.spec_width(),
                    prepared@[0].image.spec_height(),
                    prepared@[0].image.spec_pixels(),
                    quality,
                    scaled_short_side,
                    plan,
                )
                &&& export_outcome(plan, exported)
            };
            let res = match exported {
                Ok(bytes) => Ok(bytes),
                Err(e) => Err(ConvertError::Export(e)),
            };
            proof {
                assert(converted_as(plan, res));
                assert(still_plan_for(
                    output_extension(text_option(out_ext)),
                    frames@[0].image.spec_width(),
                    frames@[0].image.spec_height(),
                    frames@[0].image.spec_pixels(),
                    quality,
                    scaled_short_side,
                    plan,
                ));
            }
            res
        },
    }
}

/// Encodes an animation into the format its output path's extension asks for: GIF
/// for "gif" in any letter case (the repeat count truncated to 16 bits), else
/// PNG/APNG. The encoder's errors are returned as they are; without frames that is
/// its `NoFrames`.
pub fn export_animated_file(ext: Option<&str>, frames: &[Frame], repeat_count: u32) -> (res: Result<Vec<u8>, ConvertError>)
    requires
        output_extension(text_option(ext)) != "gif"@ ==> fits_first_frame(frames@),
    ensures
        res matches Err(e) ==> if output_extension(text_option(ext)) == "gif"@ {
            e is Gif
        } else {
            e is Apng
        },
        frames@.len() == 0 <==> (res matches Err(ConvertError::Gif(GifEncodeError::NoFrames))
            || res matches Err(ConvertError::Apng(ApngEncodeError::NoFrames))),
        frames@.len() > 0 && output_extension(text_option(ext)) == "gif"@ ==> converted_gif(
            gif_input(frames@, None),
            gif_repeat(repeat_count as u16),
            res,
        ),
{
    let e = output_extension_of(ext);
    if same_text(e.as_str(), "gif") {
        match encode_gif(frames, repeat_count as u16) {
            Ok(bytes) => Ok(bytes),
            Err(err) => Err(ConvertError::Gif(err)),
        }
    } else {
        match encode_apng(frames, repeat_count) {
            Ok(bytes) => Ok(bytes),
            Err(err) => Err(ConvertError::Apng(err)),
        }
    }
}

/// Which decoder a file is read with, by its lowercase extension.
#[derive(Clone, Copy, Debug, PartialEq, Eq, Structural)]
pub enum LoaderKind {
    /// Rasterized as SVG.
    Svg,
    /// Decoded as a GIF animation.
    Gif,
    /// Decoded as PNG/APNG first, falling back to the generic decoder.
    Apng,
    /// Decoded as a still image of the format the extension names.
    Generic,
}

/// The decoder for a lowercase extension: "svg", "gif", "png"/"apng", anything else
/// generic.
pub open spec fn loader_for(e: Seq<char>) -> LoaderKind {
    if e == "svg"@ {
        LoaderKind::Svg
    } else if e == "gif"@ {
        LoaderKind::Gif
    } else if e == "png"@ || e == "apng"@ {
        LoaderKind::Apng
    } else {
        LoaderKind::Generic
    }
}

/// The decoder for a lowercase extension (see `loader_for`).
pub fn loader_kind(e: &str) -> (k: LoaderKind)
    ensures
        k == loader_for(e@),
{
    if same_text(e, "svg") {
        LoaderKind::Svg
    } else if same_text(e, "gif") {
        LoaderKind::Gif
    } else if same_text(e, "png") || same_text(e, "apng") {
        LoaderKind::Apng
    } else {
        LoaderKind::Generic
    }
}

/// The lowercased extension of an input path; empty when it has none.
pub open spec fn input_extension(ext: Option<Seq<char>>) -> Seq<char> {
    match ext {
        Some(e) => lowercase(e),
        None => ""@,
    }
}

/// The message when an input file cannot be read, by the decoder its extension
/// chooses: the reason follows "Failed to read SVG file: ", "Failed to open GIF: ",
/// "Failed to open image: " or "Failed to load image: ".
pub open spec fn read_failure_text(k: LoaderKind, reason: Seq<char>) -> Seq<char> {
    match k {
        LoaderKind::Svg => "Failed to read SVG file: "@ + reason,
        LoaderKind::Gif => "Failed to open GIF: "@ + reason,
        LoaderKind::Apng => "Failed to open image: "@ + reason,
        LoaderKind::Generic => "Failed to load image: "@ + reason,
    }
}

/// The message when an input file with extension `ext` cannot be read for `reason`
/// (see `read_failure_text`).
pub fn read_failure_message(ext: Option<&str>, reason: &str) -> (m: String)
    ensures
        m@ == read_failure_text(loader_for(input_extension(text_option(ext))), reason@),
{
    let raw_ext: &str = match ext {
        Some(x) => x,
        None => "",
    };
    let lower = to_lowercase(raw_ext);
    proof {
        if ext is None {
            reveal_strlit("");
            assert(ascii_lower(raw_ext@) =~= ""@);
        }
    }
    let mut m = String::new();
    match loader_kind(lower.as_str()) {
        LoaderKind::Svg => m.append("Failed to read SVG file: "),
        LoaderKind::Gif => m.append("Failed to open GIF: "),
        LoaderKind::Apng => m.append("Failed to open image: "),
        LoaderKind::Generic => m.append("Failed to load image: "),
    }
    m.append(reason);
    m
}

/// Why an image file could not be loaded.
#[derive(Debug)]
pub enum LoadError {
    /// The file could not be read (the message).
    Read(String),
    /// The SVG could not be rasterized.
    Svg(SvgError),
    /// The GIF could not be decoded.
    Gif(GifDecodeError),
    /// No decoder is known for the extension.
    UnknownFormat,
    /// The generic decoder failed (its message).
    Image(String),
    /// The decoded image did not hold its pixels.
    Malformed,
    /// None of the files gave a frame.
    NoFrames,
}

/// The message of a loading error.
pub open spec fn load_error_text(e: LoadError) -> Seq<char> {
    match e {
        LoadError::Read(m) => m@,
        LoadError::Svg(s) => svg_error_text_of(s),
        LoadError::Gif(g) => gif_decode_error_text(g),
        LoadError::UnknownFormat => "Failed to load image: The image format could not be determined"@,
        LoadError::Image(m) => "Failed to load image: "@ + m@,
        LoadError::Malformed => "Failed to load image: the decoded image is malformed"@,
        LoadError::NoFrames => "No valid frames could be loaded"@,
    }
}

impl LoadError {
    /// The error's message (see `load_error_text`).
    pub fn message(&self) -> (m: String)
        ensures
            m@ == load_error_text(*self),
    {
        let mut m = String::new();
        match self {
            LoadError::Read(inner) => {
                m.append(inner.as_str());
            },
            LoadError::Svg(s) => {
                m = s.message();
            },
            LoadError::Gif(g) => {
                m = g.message();
            },
            LoadError::UnknownFormat => {
                m.append("Failed to load image: The image format could not be determined");
            },
            LoadError::Image(inner) => {
                m.append("Failed to load image: ");
                m.append(inner.as_str());
            },
            LoadError::Malformed => {
                m.append("Failed to load image: the decoded image is malformed");
            },
            LoadError::NoFrames => {
                m.append("No valid frames could be loaded");
            },
        }
        m
    }
}

/// What loading a file by the format its extension names gives, for the extension
/// `ext` and the decoder's result `d` (`image_decoding`): the unknown-format error when
/// no format is named; the decoder's error when decoding fails; else one frame of the
/// decoded size, shown for 100 ms, whose pixels are the decoded bytes.
pub open spec fn generic_loaded(ext: Seq<char>, d: Option<(u32, u32, Seq<u8>)>, res: Result<Seq<Frame>, LoadError>) -> bool {
    if !image_extension_known(ascii_lower(ext)) {
        res matches Err(LoadError::UnknownFormat)
    } else {
        match d {
            None => res matches Err(LoadError::Image(_)),
            Some((w, h, p)) => res matches Ok(frames) && {
                &&& frames.len() == 1
                &&& frames[0].delay_ms == 100
                &&& frames[0].image.well_formed()
                &&& frames[0].image.spec_width() == w
                &&& frames[0].image.spec_height() == h
                &&& raw_bytes(frames[0].image.spec_pixels()) == p.subrange(0, w * h * 4)
            },
        }
    }
}

fn load_generic(ext: &str, data: &[u8]) -> (res: Result<Vec<Frame>, LoadError>)
    ensures
        generic_loaded(ext@, image_decoding(data@, ext@), match res { Ok(f) => Ok(f@), Err(e) => Err(e) }),
{
    match decode_by_extension(data, ext) {
        Ok((w, h, raw)) => match RgbaImage::from_raw(w, h, raw.as_slice()) {
            Some(image) => {
                let mut frames: Vec<Frame> = Vec::new();
                frames.push(Frame::new(image, 100));
                Ok(frames)
            },
            None => {
                // The decoder's buffer always holds the whole image.
                proof {
                    assert(false);
                }
                Err(LoadError::Malformed)
            },
        },
        Err(DecodeFailure::UnknownFormat) => Err(LoadError::UnknownFormat),
        Err(DecodeFailure::Image(e)) => Err(LoadError::Image(image_error_text(&e))),
    }
}

/// Whether `decode_apng` decodes frames from `data`: its header reads, the canvas fits
/// in memory, and decoding ends with frames where it stops (`ends_with_frames`).
pub open spec fn apng_decodes(data: Seq<u8>) -> bool {
    png_header(data) matches Some(hd) && hd.0 * hd.1 * 4 <= usize::MAX && exists|n: nat| #[trigger] stops_at(data, hd.2, n)
        && ends_with_frames(data, hd.2, n)
}

/// Whether `res` holds the `n` frames that the first `n` sub-frames of `data` show on a
/// blank canvas of the header's size (see `decoded_as`).
pub open spec fn apng_shown<F: Fn(Rgba, Rgba) -> Rgba>(data: Seq<u8>, n: nat, res: Result<Seq<Frame>, LoadError>, over: &F) -> bool {
    res matches Ok(frames) && frames.len() == n && exists|canvases: Seq<RgbaImage>| {
        &&& #[trigger] renders_in_order(subs_of(data, n), canvases, frames, over)
        &&& blank(canvases[0])
        &&& canvases[0].spec_width() == png_header(data).unwrap().0
        &&& canvases[0].spec_height() == png_header(data).unwrap().1
    }
}

/// What loading the bytes `data` of a file with the extension `ext` gives, by the
/// decoder the lowercased extension selects: for SVG the rasterizer's result
/// (`svg_loaded`); for GIF the frames of the decoder's parts, or its error; for
/// PNG/APNG the generic decoder's result (`generic_loaded`) when the PNG header cannot
/// be read, else frames of the header's size (one for a still PNG) or the generic
/// decoder's result; otherwise the generic decoder's result.
pub open spec fn image_loaded<F: Fn(Rgba, Rgba) -> Rgba>(ext: Option<Seq<char>>, data: Seq<u8>, res: Result<Seq<Frame>, LoadError>, over: &F) -> bool {
    match loader_for(input_extension(ext)) {
        LoaderKind::Svg => match res {
            Ok(frames) => svg_loaded(svg_size(data), Ok(frames)),
            Err(LoadError::Svg(e)) => svg_loaded(svg_size(data), Err(e)),
            Err(_) => false,
        },
        LoaderKind::Gif => match gif_decoding(data) {
            None => res matches Err(LoadError::Gif(e)) && (e is Read || e is Frames),
            Some(parts) => if parts.len() == 0 {
                res matches Err(LoadError::Gif(GifDecodeError::NoFrames))
            } else {
                res matches Ok(frames) && frames.len() == parts.len() && forall|i: int|
                    0 <= i < parts.len() ==> frame_of_parts(parts[i], #[trigger] frames[i])
            },
        },
        LoaderKind::Apng => if apng_decodes(data) {
            exists|n: nat| #[trigger] stops_at(data, png_header(data).unwrap().2, n) && apng_shown(data, n, res, over)
        } else {
            generic_loaded(given_extension(ext), image_decoding(data, given_extension(ext)), res)
        },
        LoaderKind::Generic => generic_loaded(given_extension(ext), image_decoding(data, given_extension(ext)), res),
    }
}

/// A file whose lowercased extension is "png" is read by the APNG decoder: when its
/// bytes decode as an animation of `n` sub-frames, loading gives exactly the `n` frames
/// they show on a blank canvas of the header's size, so an animated PNG keeps its
/// animation.
pub proof fn law_png_files_keep_their_animation<F: Fn(Rgba, Rgba) -> Rgba>(
    ext: Option<Seq<char>>,
    data: Seq<u8>,
    res: Result<Seq<Frame>, LoadError>,
    over: &F,
    n: nat,
)
    requires
        input_extension(ext) == "png"@,
        image_loaded(ext, data, res, over),
        png_header(data) is Some,
        png_header(data).unwrap().0 * png_header(data).unwrap().1 * 4 <= usize::MAX,
        stops_at(data, png_header(data).unwrap().2, n),
        ends_with_frames(data, png_header(data).unwrap().2, n),
    ensures
        res matches Ok(frames) && frames.len() == n && exists|canvases: Seq<RgbaImage>| {
            &&& #[trigger] renders_in_order(subs_of(data, n), canvases, frames, over)
            &&& blank(canvases[0])
            &&& canvases[0].spec_width() == png_header(data).unwrap().0
            &&& canvases[0].spec_height() == png_header(data).unwrap().1
        },
{
    reveal_strlit("png");
    reveal_strlit("svg");
    reveal_strlit("gif");
    assert(loader_for(input_extension(ext)) == LoaderKind::Apng) by {
        assert("png"@[0] != "svg"@[0]);
        assert("png"@[0] != "gif"@[0]);
    }
    let hd = png_header(data).unwrap();
    assert(apng_decodes(data));
    let m = choose|m: nat| #[trigger] stops_at(data, hd.2, m) && apng_shown(data, m, res, over);
    lemma_stops_at_unique(data, hd.2, n, m);
}

/// A file whose lowercased extension is "gif" is read by the GIF decoder alone: its
/// frames are those of the decoder's parts, one for each, and a file the decoder
/// cannot read is an error (no other decoder is tried). A file whose lowercased
/// extension is "svg" is rasterized: one frame of the drawing's size, shown for
/// 100 ms, or an SVG error.
pub proof fn law_gif_and_svg_files_use_their_decoders<F: Fn(Rgba, Rgba) -> Rgba>(
    ext: Option<Seq<char>>,
    data: Seq<u8>,
    res: Result<Seq<Frame>, LoadError>,
    over: &F,
)
    requires
        image_loaded(ext, data, res, over),
    ensures
        input_extension(ext) == "gif"@ ==> match gif_decoding(data) {
            None => res matches Err(LoadError::Gif(_)),
            Some(parts) => parts.len() > 0 ==> (res matches Ok(frames) && frames.len() == parts.len() && forall|i: int|
                0 <= i < parts.len() ==> frame_of_parts(parts[i], #[trigger] frames[i])),
        },
        input_extension(ext) == "svg"@ ==> match res {
            Ok(frames) => svg_size(data) matches Some(Some((w, h))) && frames.len() == 1 && frames[0].delay_ms == 100
                && frames[0].image.spec_width() == w && frames[0].image.spec_height() == h,
            Err(e) => e is Svg,
        },
{
    reveal_strlit("gif");
    reveal_strlit("svg");
    if input_extension(ext) == "gif"@ {
        assert(loader_for(input_extension(ext)) == LoaderKind::Gif) by {
            assert("gif"@[0] != "svg"@[0]);
        }
    }
    if input_extension(ext) == "svg"@ {
        assert(loader_for(input_extension(ext)) == LoaderKind::Svg);
    }
}

/// Decodes the bytes of an image file whose path has the extension `ext`, by the
/// decoder the lowercased extension selects (`loader_for`): SVG, GIF, or PNG/APNG
/// (composited with `over`) with a fallback to the generic decoder of the format the
/// extension names, which gives one frame shown for 100 ms.
#[verifier::spinoff_prover]
pub fn load_any_image<F: Fn(Rgba, Rgba) -> Rgba>(ext: Option<&str>, data: &[u8], over: &F) -> (res: Result<Vec<Frame>, LoadError>)
    requires
        forall|s: Rgba, d: Rgba| #[trigger] over.requires((s, d)),
    ensures
        res matches Ok(frames) ==> {
            &&& frames@.len() >= 1
            &&& forall|i: int| 0 <= i < frames@.len() ==> {
                &&& (#[trigger] frames@[i]).image.well_formed()
                &&& frames@[i].delay_ms >= 10
            }
        },
        res matches Err(LoadError::Svg(_)) ==> loader_for(input_extension(text_option(ext))) == LoaderKind::Svg,
        res matches Err(LoadError::Gif(_)) ==> loader_for(input_extension(text_option(ext))) == LoaderKind::Gif,
        !(res matches Err(LoadError::Read(_))) && !(res matches Err(LoadError::NoFrames)),
        image_loaded(text_option(ext), data@, match res { Ok(f) => Ok(f@), Err(e) => Err(e) }, over),
{
    let raw_ext: &str = match ext {
        Some(x) => x,
        None => "",
    };
    let lower = to_lowercase(raw_ext);
    proof {
        if ext is None {
            reveal_strlit("");
            assert(ascii_lower(raw_ext@) =~= ""@);
        }
    }
    match loader_kind(lower.as_str()) {
        LoaderKind::Svg => match load_svg(data) {
            Ok(frames) => Ok(frames),
            Err(e) => Err(LoadError::Svg(e)),
        },
        LoaderKind::Gif => match decode_gif(data) {
            Ok(frames) => Ok(frames),
            Err(e) => Err(LoadError::Gif(e)),
        },
        LoaderKind::Apng => {
            let decoded = decode_apng(data, over);
            proof {
                if let Some(hd) = png_header(data@) {
                    if hd.0 * hd.1 * 4 <= usize::MAX {
                        let n0 = choose|n: nat| #[trigger] stops_at(data@, hd.2, n) && decoded_as(data@, hd, n, decoded, over);
                        if ends_with_frames(data@, hd.2, n0) {
                            assert(apng_decodes(data@));
                            if decoded is Ok {
                                let fr = decoded->Ok_0;
                                assert(png_header(data@).unwrap() == hd);
                                let c = choose|c: Seq<RgbaImage>| {
                                    &&& #[trigger] renders_in_order(subs_of(data@, n0), c, fr@, over)
                                    &&& blank(c[0])
                                    &&& c[0].spec_width() == hd.0
                                    &&& c[0].spec_height() == hd.1
                                };
                                assert(renders_in_order(subs_of(data@, n0), c, fr@, over));
                                assert(apng_shown(data@, n0, Ok(fr@), over));
                                assert(stops_at(data@, hd.2, n0));
                            }
                        } else {
                            assert forall|n: nat| #[trigger] stops_at(data@, hd.2, n) implies !ends_with_frames(data@, hd.2, n) by {
                                lemma_stops_at_unique(data@, hd.2, n, n0);
                            }
                            assert(!apng_decodes(data@));
                        }
                    }
                }
            }
            if let Ok(frames) = decoded {
                if frames.len() > 0 {
                    return Ok(frames);
                }
            }
            load_generic(raw_ext, data)
        },
        LoaderKind::Generic => load_generic(raw_ext, data),
    }
}

/// The sequences of `parts`, one after the other.
pub open spec fn concat_all(parts: Seq<Seq<Frame>>) -> Seq<Frame>
    decreases parts.len(),
{
    if parts.len() == 0 {
        Seq::empty()
    } else {
        concat_all(parts.drop_last()) + parts.last()
    }
}

/// The contents of one input file: the path's extension and the bytes read, or the
/// message of the read error.
pub struct ImageSource {
    pub extension: Option<String>,
    pub data: Result<Vec<u8>, String>,
}

/// The extension of a source as text.
pub open spec fn source_extension(s: ImageSource) -> Option<Seq<char>> {
    match s.extension {
        Some(x) => Some(x@),
        None => None,
    }
}

/// Whether the source was read and its bytes load as the frames `f` (`image_loaded`).
pub open spec fn source_loads_as<F: Fn(Rgba, Rgba) -> Rgba>(s: ImageSource, f: Seq<Frame>, over: &F) -> bool {
    s.data matches Ok(d) && image_loaded(source_extension(s), d@, Ok(f), over)
}

/// Whether loading the source ends with `e`: its read error, or the error that its
/// bytes load as.
pub open spec fn source_fails_with<F: Fn(Rgba, Rgba) -> Rgba>(s: ImageSource, e: LoadError, over: &F) -> bool {
    match s.data {
        Err(m) => e == LoadError::Read(m),
        Ok(d) => image_loaded(source_extension(s), d@, Err(e), over),
    }
}

/// Whether the sources before the one at `parts.len()` load as `parts`, and loading
/// that one ends with `e`.
pub open spec fn first_failure<F: Fn(Rgba, Rgba) -> Rgba>(sources: Seq<ImageSource>, parts: Seq<Seq<Frame>>, e: LoadError, over: &F) -> bool {
    &&& parts.len() < sources.len()
    &&& forall|j: int| 0 <= j < parts.len() ==> source_loads_as(sources[j], #[trigger] parts[j], over)
    &&& source_fails_with(sources[parts.len() as int], e, over)
}

/// Loads several files in order and joins their frames; the first file that cannot be
/// read or decoded ends it with that error. No frames at all is an error.
pub fn load_multiple_images<F: Fn(Rgba, Rgba) -> Rgba>(sources: &[ImageSource], over: &F) -> (res: Result<Vec<Frame>, LoadError>)
    requires
        forall|s: Rgba, d: Rgba| #[trigger] over.requires((s, d)),
    ensures
        res matches Ok(frames) ==> {
            &&& frames@.len() >= 1
            &&& forall|i: int| 0 <= i < frames@.len() ==> {
                &&& (#[trigger] frames@[i]).image.well_formed()
                &&& frames@[i].delay_ms >= 10
            }
            &&& exists|parts: Seq<Seq<Frame>>| {
                &&& #[trigger] concat_all(parts) == frames@
                &&& parts.len() == sources@.len()
                &&& forall|i: int| 0 <= i < parts.len() ==> (#[trigger] parts[i]).len() >= 1
                &&& forall|i: int| 0 <= i < parts.len() ==> source_loads_as(sources@[i], #[trigger] parts[i], over)
            }
        },
        res matches Err(e) ==> (!(e is NoFrames) ==> exists|parts: Seq<Seq<Frame>>| #[trigger] first_failure(sources@, parts, e, over)),
        (res matches Err(LoadError::NoFrames)) <==> sources@.len() == 0,
        (exists|i: int| 0 <= i < sources@.len() && (#[trigger] sources@[i].data) is Err) ==> res is Err,
        res matches Err(LoadError::Read(m)) ==> exists|i: int| {
            &&& 0 <= i < sources@.len()
            &&& #[trigger] sources@[i].data == Err::<Vec<u8>, String>(m)
            &&& forall|j: int| 0 <= j < i ==> (#[trigger] sources@[j].data) is Ok
        },
{
    let mut all: Vec<Frame> = Vec::new();
    let ghost mut parts: Seq<Seq<Frame>> = Seq::empty();
    let n = sources.len();
    let mut i: usize = 0;
    while i < n
        invariant
            i <= n,
            n == sources@.len(),
            all@ == concat_all(parts),
            parts.len() == i,
            forall|j: int| 0 <= j < parts.len() ==> (#[trigger] parts[j]).len() >= 1,
            forall|j: int| 0 <= j < parts.len() ==> source_loads_as(sources@[j], #[trigger] parts[j], over),
            forall|j: int| 0 <= j < i ==> (#[trigger] sources@[j].data) is Ok,
            i == 0 ==> all@.len() == 0,
            i > 0 ==> all@.len() >= 1,
            forall|s: Rgba, d: Rgba| #[trigger] over.requires((s, d)),
            forall|j: int| 0 <= j < all@.len() ==> {
                &&& (#[trigger] all@[j]).image.well_formed()
                &&& all@[j].delay_ms >= 10
            },
        decreases n - i,
    {
        let source = &sources[i];
        let data = match &source.data {
            Ok(d) => d,
            Err(msg) => {
                let m = msg.clone();
                proof {
                    assert(sources@[i as int].data == Err::<Vec<u8>, String>(m));
                    assert(source_fails_with(sources@[i as int], LoadError::Read(m), over));
                    assert(first_failure(sources@, parts, LoadError::Read(m), over));
                }
                return Err(LoadError::Read(m));
            },
        };
        let ext: Option<&str> = match &source.extension {
            Some(e) => Some(e.as_str()),
            None => None,
        };
        let mut frames = match load_any_image(ext, data.as_slice(), over) {
            Ok(f) => f,
            Err(e) => {
                proof {
                    assert forall|j: int| 0 <= j < sources@.len() && (#[trigger] sources@[j].data) is Err implies j > i by {}
                    assert(source_extension(sources@[i as int]) == text_option(ext));
                    assert(source_fails_with(sources@[i as int], e, over));
                    assert(first_failure(sources@, parts, e, over));
                }
                return Err(e);
            },
        };
        let ghost before = all@;
        let ghost loaded = frames@;
        all.append(&mut frames);
        proof {
            assert forall|j: int| 0 <= j < all@.len() implies {
                &&& (#[trigger] all@[j]).image.well_formed()
                &&& all@[j].delay_ms >= 10
            } by {
                if j >= before.len() {
                    assert(all@[j] == loaded[j - before.len()]);
                }
            }
            let old_parts = parts;
            assert(source_extension(sources@[i as int]) == text_option(ext));
            assert(source_loads_as(sources@[i as int], loaded, over));
            parts = parts.push(loaded);
            assert(parts.drop_last() =~= old_parts);
            assert(all@ =~= concat_all(old_parts) + loaded);
        }
        i = i + 1;
    }
    if all.len() == 0 {
        return Err(LoadError::NoFrames);
    }
    Ok(all)
}

} // verus!
