use rustyimage::app_state::{CloseAction, ImportedImage, RustImageApp};
use rustyimage::codec::apng_codec::{
    apng_delay_ms, compose_subframe, decode_apng, encode_apng, raw_to_rgba, render_subframe,
    ApngDecodeError, ApngEncodeError, ApngFrameControl, BlendOp, DisposeOp, PngBitDepth,
    PngColorType, RawImageError,
};
use rustyimage::codec::gif_codec::{
    decode_gif, encode_gif, frame_from_parts, repeat_setting, GifDecodeError, GifEncodeError,
};
use rustyimage::codec::image_bridge::{GifRepeat, StillFormat};
use rustyimage::codec::static_codec::{
    convert_image, export_animated_file, export_single_frame, icon_size, load_any_image,
    load_multiple_images, named_format, output_extension_of, plan_still_export, prepare_frames,
    read_failure_message, still_kind_of, write_failure_message, ConvertError, ExportError, ImageSource, LoadError,
    StillKind, StillPlan, TargetFormat,
};
use rustyimage::codec::svg_codec::{export_svg, load_svg, SvgError};
use rustyimage::converter::{AsyncConverter, BatchProgress, ConvertEvent, ConvertJob};
use rustyimage::frame::{Frame, MIN_DELAY_MS};
use rustyimage::i18n::{Language, Loc};
use rustyimage::raster::{Rgba, RgbaImage};
use rustyimage::registry::{
    is_context_menu_registered, register_context_menu, registration_queries, stop_after,
    unregister_context_menu, RegCommand, RegistryError, LEGACY_KEY_IMAGE, LEGACY_KEY_STAR,
    MENU_TEXT, REG_KEY_IMAGE, REG_KEY_STAR,
};
use rustyimage::text::{decimal_text, same_text};

fn rgba(r: u8, g: u8, b: u8, a: u8) -> Rgba {
    Rgba { r, g, b, a }
}

/// Alpha compositing of `src` over `dst`, as the interface renders APNG frames.
fn over(src: Rgba, dst: Rgba) -> Rgba {
    let src_a = src.a as f32 / 255.0;
    let dst_a = dst.a as f32 / 255.0;
    let out_a = src_a + dst_a * (1.0 - src_a);
    if out_a > 0.0 {
        let blend = |sc: u8, dc: u8| -> u8 {
            let s = sc as f32 / 255.0;
            let d = dc as f32 / 255.0;
            let out = (s * src_a + d * dst_a * (1.0 - src_a)) / out_a;
            (out * 255.0).round().clamp(0.0, 255.0) as u8
        };
        Rgba {
            r: blend(src.r, dst.r),
            g: blend(src.g, dst.g),
            b: blend(src.b, dst.b),
            a: (out_a * 255.0).round().clamp(0.0, 255.0) as u8,
        }
    } else {
        dst
    }
}

/// The shorter side of an icon whose longer side becomes 256.
fn scaled_short_side(w: u32, h: u32, wide: bool) -> u32 {
    let ratio = (w as f32) / (h as f32);
    if wide {
        (256.0 / ratio).round() as u32
    } else {
        (256.0 * ratio).round() as u32
    }
}

fn filled(w: u32, h: u32, p: Rgba) -> RgbaImage {
    let mut img = RgbaImage::new(w, h);
    for y in 0..h {
        for x in 0..w {
            img.put_pixel(x, y, p);
        }
    }
    img
}

fn image_input(path: &str, frames: Vec<Frame>) -> ImportedImage {
    ImportedImage { path: path.to_string(), frames, file_size: 0 }
}

// ---------------------------------------------------------------- frames and pixels

#[test]
fn frame_delay_is_raised_to_the_minimum() {
    assert_eq!(Frame::new(RgbaImage::new(1, 1), 0).delay_ms, MIN_DELAY_MS);
    assert_eq!(Frame::new(RgbaImage::new(1, 1), 9).delay_ms, 10);
    assert_eq!(Frame::new(RgbaImage::new(1, 1), 10).delay_ms, 10);
    assert_eq!(Frame::new(RgbaImage::new(1, 1), 250).delay_ms, 250);
}

#[test]
fn frame_update_keeps_delay() {
    let mut f = Frame::new(RgbaImage::new(2, 2), 40);
    f.update_image(RgbaImage::new(3, 5));
    assert_eq!(f.dimensions(), (3, 5));
    assert_eq!(f.width(), 3);
    assert_eq!(f.height(), 5);
    assert_eq!(f.delay_ms, 40);
}

#[test]
fn new_image_is_transparent() {
    let img = RgbaImage::new(3, 2);
    assert_eq!(img.dimensions(), (3, 2));
    assert_eq!(img.get_pixel(2, 1), rgba(0, 0, 0, 0));
    assert_eq!(img.to_raw(), vec![0u8; 24]);
}

#[test]
fn raw_bytes_round_trip() {
    let raw: Vec<u8> = (0u8..16).collect();
    let img = RgbaImage::from_raw(2, 2, &raw).expect("enough bytes");
    assert_eq!(img.get_pixel(1, 0), rgba(4, 5, 6, 7));
    assert_eq!(img.get_pixel(0, 1), rgba(8, 9, 10, 11));
    assert_eq!(img.to_raw(), raw);
    assert_eq!(img.to_rgb_raw(), vec![0, 1, 2, 4, 5, 6, 8, 9, 10, 12, 13, 14]);
}

#[test]
fn from_raw_uses_leading_bytes_and_rejects_short_input() {
    let raw: Vec<u8> = (0u8..10).collect();
    assert!(RgbaImage::from_raw(1, 3, &raw).is_none());
    let img = RgbaImage::from_raw(1, 2, &raw).expect("eight bytes suffice");
    assert_eq!(img.to_raw(), raw[..8].to_vec());
}

#[test]
fn put_pixel_changes_one_pixel() {
    let mut img = RgbaImage::new(2, 2);
    img.put_pixel(1, 1, rgba(9, 8, 7, 6));
    assert_eq!(img.get_pixel(1, 1), rgba(9, 8, 7, 6));
    assert_eq!(img.get_pixel(0, 1), rgba(0, 0, 0, 0));
    let copy = img.duplicate();
    assert_eq!(copy.to_raw(), img.to_raw());
}

#[test]
fn paint_is_clipped_to_the_canvas() {
    let mut canvas = filled(3, 3, rgba(1, 1, 1, 255));
    let src = filled(2, 2, rgba(200, 0, 0, 255));
    canvas.paint(&src, 2, 2, &over, false);
    assert_eq!(canvas.get_pixel(2, 2), rgba(200, 0, 0, 255));
    assert_eq!(canvas.get_pixel(1, 1), rgba(1, 1, 1, 255));
    assert_eq!(canvas.get_pixel(2, 1), rgba(1, 1, 1, 255));
}

#[test]
fn clear_rect_clears_only_the_rectangle() {
    let mut canvas = filled(3, 2, rgba(5, 5, 5, 255));
    canvas.clear_rect(1, 0, 5, 1);
    assert_eq!(canvas.get_pixel(0, 0), rgba(5, 5, 5, 255));
    assert_eq!(canvas.get_pixel(1, 0), rgba(0, 0, 0, 0));
    assert_eq!(canvas.get_pixel(2, 0), rgba(0, 0, 0, 0));
    assert_eq!(canvas.get_pixel(2, 1), rgba(5, 5, 5, 255));
}

// ---------------------------------------------------------------- PNG samples

#[test]
fn raw_to_rgba_converts_each_layout() {
    let gray = raw_to_rgba(&[10, 20], 2, 1, PngColorType::Grayscale, PngBitDepth::Eight).unwrap();
    assert_eq!(gray.get_pixel(1, 0), rgba(20, 20, 20, 255));
    let gray_alpha =
        raw_to_rgba(&[10, 99], 1, 1, PngColorType::GrayscaleAlpha, PngBitDepth::Eight).unwrap();
    assert_eq!(gray_alpha.get_pixel(0, 0), rgba(10, 10, 10, 99));
    let rgb = raw_to_rgba(&[1, 2, 3, 4, 5, 6], 1, 2, PngColorType::Rgb, PngBitDepth::Eight).unwrap();
    assert_eq!(rgb.get_pixel(0, 1), rgba(4, 5, 6, 255));
    let full = raw_to_rgba(&[1, 2, 3, 4], 1, 1, PngColorType::Rgba, PngBitDepth::Eight).unwrap();
    assert_eq!(full.get_pixel(0, 0), rgba(1, 2, 3, 4));
}

#[test]
fn raw_to_rgba_errors() {
    assert!(matches!(
        raw_to_rgba(&[0; 4], 1, 1, PngColorType::Rgba, PngBitDepth::Sixteen),
        Err(RawImageError::UnsupportedBitDepth(PngBitDepth::Sixteen))
    ));
    assert!(matches!(
        raw_to_rgba(&[0; 4], 2, 2, PngColorType::Indexed, PngBitDepth::Eight),
        Err(RawImageError::UnsupportedColorType(PngColorType::Indexed))
    ));
    assert!(matches!(
        raw_to_rgba(&[0; 5], 2, 1, PngColorType::Rgb, PngBitDepth::Eight),
        Err(RawImageError::InsufficientData(PngColorType::Rgb))
    ));
    // The bit depth is checked before the color type.
    assert!(matches!(
        raw_to_rgba(&[], 1, 1, PngColorType::Indexed, PngBitDepth::Four),
        Err(RawImageError::UnsupportedBitDepth(PngBitDepth::Four))
    ));
}

#[test]
fn raw_to_rgba_undoes_to_raw() {
    let mut img = RgbaImage::new(2, 1);
    img.put_pixel(0, 0, rgba(1, 2, 3, 4));
    img.put_pixel(1, 0, rgba(5, 6, 7, 8));
    let back = raw_to_rgba(&img.to_raw(), 2, 1, PngColorType::Rgba, PngBitDepth::Eight).unwrap();
    assert_eq!(back.to_raw(), img.to_raw());
}

#[test]
fn raw_image_error_messages() {
    assert_eq!(
        RawImageError::UnsupportedBitDepth(PngBitDepth::Sixteen).message(),
        "Unsupported PNG bit depth: Sixteen"
    );
    assert_eq!(
        RawImageError::UnsupportedColorType(PngColorType::Indexed).message(),
        "Unsupported PNG color type: Indexed"
    );
    assert_eq!(
        RawImageError::InsufficientData(PngColorType::Rgba).message(),
        "Insufficient RGBA buffer length"
    );
    assert_eq!(
        RawImageError::InsufficientData(PngColorType::GrayscaleAlpha).message(),
        "Insufficient GrayscaleAlpha buffer length"
    );
}

// ---------------------------------------------------------------- APNG frames

fn control(x: u32, y: u32, num: u16, den: u16, dispose: DisposeOp, blend: BlendOp) -> ApngFrameControl {
    ApngFrameControl {
        x_offset: x,
        y_offset: y,
        delay_num: num,
        delay_den: den,
        dispose_op: dispose,
        blend_op: blend,
    }
}

#[test]
fn apng_delays() {
    assert_eq!(apng_delay_ms(None), 100);
    assert_eq!(apng_delay_ms(Some(control(0, 0, 3, 2, DisposeOp::Keep, BlendOp::Source))), 1500);
    // A zero denominator means hundredths of a second.
    assert_eq!(apng_delay_ms(Some(control(7, 0, 7, 0, DisposeOp::Keep, BlendOp::Source))), 70);
    assert_eq!(apng_delay_ms(Some(control(0, 0, 1, 1000, DisposeOp::Keep, BlendOp::Source))), 10);
    assert_eq!(apng_delay_ms(Some(control(0, 0, 0, 5, DisposeOp::Keep, BlendOp::Source))), 10);
}

#[test]
fn render_subframe_dispose_operations() {
    let base = filled(3, 1, rgba(1, 1, 1, 255));
    let sub = filled(1, 1, rgba(200, 100, 50, 255));

    let mut keep = base.duplicate();
    let shown = render_subframe(&mut keep, &sub, 1, 0, DisposeOp::Keep, BlendOp::Source, &over);
    assert_eq!(shown.get_pixel(1, 0), rgba(200, 100, 50, 255));
    assert_eq!(shown.get_pixel(0, 0), rgba(1, 1, 1, 255));
    assert_eq!(keep.to_raw(), shown.to_raw());

    let mut background = base.duplicate();
    let shown = render_subframe(&mut background, &sub, 1, 0, DisposeOp::Background, BlendOp::Source, &over);
    assert_eq!(shown.get_pixel(1, 0), rgba(200, 100, 50, 255));
    assert_eq!(background.get_pixel(1, 0), rgba(0, 0, 0, 0));
    assert_eq!(background.get_pixel(2, 0), rgba(1, 1, 1, 255));

    let mut previous = base.duplicate();
    let shown = render_subframe(&mut previous, &sub, 1, 0, DisposeOp::Previous, BlendOp::Source, &over);
    assert_eq!(shown.get_pixel(1, 0), rgba(200, 100, 50, 255));
    assert_eq!(previous.to_raw(), base.to_raw());
}

#[test]
fn render_subframe_blends_over() {
    let mut canvas = filled(1, 1, rgba(0, 0, 255, 255));
    let sub = filled(1, 1, rgba(255, 0, 0, 0));
    let shown = render_subframe(&mut canvas, &sub, 0, 0, DisposeOp::Keep, BlendOp::Over, &over);
    // A fully transparent source leaves an opaque canvas pixel as it was.
    assert_eq!(shown.get_pixel(0, 0), rgba(0, 0, 255, 255));
}

#[test]
fn compose_subframe_appends_the_shown_frame() {
    let mut canvas = RgbaImage::new(2, 1);
    let mut frames: Vec<Frame> = Vec::new();
    let fc = control(1, 0, 1, 20, DisposeOp::Background, BlendOp::Source);
    compose_subframe(&mut canvas, &mut frames, &[9, 8, 7, 6], 1, 1, PngColorType::Rgba, PngBitDepth::Eight, Some(fc), &over)
        .expect("8-bit RGBA samples convert");
    assert_eq!(frames.len(), 1);
    assert_eq!(frames[0].delay_ms, 50);
    assert_eq!(frames[0].image.get_pixel(1, 0), rgba(9, 8, 7, 6));
    assert_eq!(canvas.get_pixel(1, 0), rgba(0, 0, 0, 0));

    let err = compose_subframe(&mut canvas, &mut frames, &[1], 1, 1, PngColorType::Rgb, PngBitDepth::Eight, None, &over);
    assert!(matches!(err, Err(RawImageError::InsufficientData(PngColorType::Rgb))));
    assert_eq!(frames.len(), 1);
}

#[test]
fn apng_encode_errors_and_still_png() {
    assert!(matches!(encode_apng(&[], 0), Err(ApngEncodeError::NoFrames)));
    assert_eq!(ApngEncodeError::NoFrames.message(), "No frames to encode into APNG");

    let frames = vec![Frame::new(filled(4, 3, rgba(10, 20, 30, 255)), 100)];
    let bytes = encode_apng(&frames, 0).expect("a still PNG");
    let decoded = decode_apng(&bytes, &over).expect("it decodes");
    assert_eq!(decoded.len(), 1);
    assert_eq!(decoded[0].dimensions(), (4, 3));
    assert_eq!(decoded[0].delay_ms, 100);
    assert_eq!(decoded[0].image.to_raw(), frames[0].image.to_raw());
}

#[test]
fn apng_frames_are_fitted_to_the_first_frame() {
    let frames = vec![
        Frame::new(filled(4, 4, rgba(1, 2, 3, 255)), 40),
        Frame::new(filled(2, 2, rgba(9, 9, 9, 255)), 60),
    ];
    let bytes = encode_apng(&frames, 3).expect("APNG");
    let decoded = decode_apng(&bytes, &over).expect("decodes");
    assert_eq!(decoded.len(), 2);
    assert_eq!(decoded[1].dimensions(), (4, 4));
    assert_eq!(decoded[1].image.get_pixel(3, 3), rgba(9, 9, 9, 255));
    assert_eq!(decoded[0].delay_ms, 40);
    assert_eq!(decoded[1].delay_ms, 60);
}

#[test]
fn apng_decode_errors() {
    assert!(matches!(decode_apng(&[1, 2, 3], &over), Err(ApngDecodeError::Header(_))));
    assert_eq!(ApngDecodeError::NoFrames.message(), "No frames could be decoded from PNG");
    assert_eq!(
        ApngDecodeError::Header("bad".to_string()).message(),
        "Failed to read PNG header: bad"
    );
}

// ---------------------------------------------------------------- GIF

#[test]
fn gif_frame_parts() {
    let raw: Vec<u8> = vec![1, 2, 3, 4, 5, 6, 7, 8, 99];
    let f = frame_from_parts(2, 1, &raw, 0, 0).expect("enough bytes");
    assert_eq!(f.delay_ms, 100);
    assert_eq!(f.image.to_raw(), raw[..8].to_vec());
    assert_eq!(frame_from_parts(1, 1, &raw, 5, 1).unwrap().delay_ms, 10);
    assert_eq!(frame_from_parts(1, 1, &raw, 250, 2).unwrap().delay_ms, 125);
    assert!(frame_from_parts(3, 1, &raw, 1, 1).is_none());
}

#[test]
fn gif_repeat_settings() {
    assert_eq!(repeat_setting(0), GifRepeat::Infinite);
    assert_eq!(repeat_setting(4), GifRepeat::Finite(4));
}

#[test]
fn gif_errors() {
    assert!(matches!(encode_gif(&[], 0), Err(GifEncodeError::NoFrames)));
    assert!(matches!(decode_gif(b"not a gif"), Err(GifDecodeError::Read(_))));
    assert_eq!(GifEncodeError::NoFrames.message(), "No frames to encode into GIF");
    assert_eq!(GifDecodeError::NoFrames.message(), "GIF has no frames");
}

#[test]
fn gif_delays_survive_encoding() {
    let frames = vec![
        Frame::new(filled(2, 2, rgba(255, 0, 0, 255)), 200),
        Frame::new(filled(2, 2, rgba(0, 0, 255, 255)), 50),
    ];
    let bytes = encode_gif(&frames, 2).expect("GIF");
    let decoded = decode_gif(&bytes).expect("decodes");
    assert_eq!(decoded.len(), 2);
    assert_eq!(decoded[0].delay_ms, 200);
    assert_eq!(decoded[1].delay_ms, 50);
}

// ---------------------------------------------------------------- formats and export

#[test]
fn format_names_round_trip() {
    for f in TargetFormat::ALL {
        assert_eq!(TargetFormat::from_extension(f.extension()), Some(f));
        assert_eq!(TargetFormat::from_extension(&f.display_name().to_lowercase()), Some(f));
    }
    assert_eq!(TargetFormat::from_extension("PNG"), Some(TargetFormat::Png));
    assert_eq!(TargetFormat::from_extension("TIF"), Some(TargetFormat::Tiff));
    assert_eq!(TargetFormat::from_extension("Jpeg"), Some(TargetFormat::Jpg));
    assert_eq!(TargetFormat::from_extension(""), None);
    assert_eq!(named_format("PNG"), None);
    assert_eq!(named_format("apng"), Some(TargetFormat::Apng));
    let animated: Vec<TargetFormat> = TargetFormat::ALL.into_iter().filter(|f| f.is_animated()).collect();
    assert_eq!(animated, vec![TargetFormat::Gif, TargetFormat::Apng]);
}

#[test]
fn still_kinds_and_extensions() {
    assert_eq!(still_kind_of("jpeg"), StillKind::Jpeg);
    assert_eq!(still_kind_of("tif"), StillKind::Raster(StillFormat::Tiff));
    assert_eq!(still_kind_of("svg"), StillKind::Svg);
    assert_eq!(still_kind_of("xyz"), StillKind::Raster(StillFormat::Png));
    assert_eq!(output_extension_of(None), "png");
    assert_eq!(output_extension_of(Some("WebP")), "webp");
}

#[test]
fn icon_sizes() {
    assert_eq!(icon_size(100, 50, &scaled_short_side), (100, 50));
    assert_eq!(icon_size(256, 256, &scaled_short_side), (256, 256));
    assert_eq!(icon_size(1024, 512, &scaled_short_side), (256, 128));
    assert_eq!(icon_size(300, 900, &scaled_short_side), (85, 256));
    // A very thin image keeps at least one pixel.
    assert_eq!(icon_size(5000, 1, &scaled_short_side), (256, 1));
}

#[test]
fn jpeg_plan_limits_quality_and_drops_alpha() {
    let frame = Frame::new(filled(2, 1, rgba(1, 2, 3, 4)), 100);
    match plan_still_export("jpg", &frame, 0, &scaled_short_side) {
        StillPlan::Jpeg { rgb, width, height, quality } => {
            assert_eq!(rgb, vec![1, 2, 3, 1, 2, 3]);
            assert_eq!((width, height, quality), (2, 1, 1));
        }
        _ => panic!("expected a JPEG plan"),
    }
    match plan_still_export("jpeg", &frame, 200, &scaled_short_side) {
        StillPlan::Jpeg { quality, .. } => assert_eq!(quality, 100),
        _ => panic!("expected a JPEG plan"),
    }
}

#[test]
fn icon_plan_downscales_large_images() {
    let frame = Frame::new(filled(512, 256, rgba(0, 255, 0, 255)), 100);
    match plan_still_export("ico", &frame, 90, &scaled_short_side) {
        StillPlan::Raster { rgba, width, height, format } => {
            assert_eq!(format, StillFormat::Ico);
            assert_eq!((width, height), (256, 128));
            assert_eq!(rgba.len(), 256 * 128 * 4);
        }
        _ => panic!("expected a raster plan"),
    }
    match plan_still_export("bmp", &frame, 90, &scaled_short_side) {
        StillPlan::Raster { width, height, format, .. } => {
            assert_eq!(format, StillFormat::Bmp);
            assert_eq!((width, height), (512, 256));
        }
        _ => panic!("expected a raster plan"),
    }
}

#[test]
fn export_writes_each_still_format() {
    let frame = Frame::new(filled(8, 8, rgba(30, 60, 90, 255)), 100);
    let png = export_single_frame(None, &frame, 90, &scaled_short_side).expect("PNG");
    assert_eq!(&png[..8], &[0x89, b'P', b'N', b'G', 0x0D, 0x0A, 0x1A, 0x0A]);
    let jpg = export_single_frame(Some("JPG"), &frame, 90, &scaled_short_side).expect("JPEG");
    assert_eq!(&jpg[..2], &[0xFF, 0xD8]);
    let bmp = export_single_frame(Some("bmp"), &frame, 90, &scaled_short_side).expect("BMP");
    assert_eq!(&bmp[..2], b"BM");
    let decoded = image::load_from_memory(&png).expect("readable").to_rgba8();
    assert_eq!(decoded.into_raw(), frame.image.to_raw());
}

#[test]
fn export_error_messages() {
    assert_eq!(ExportError::Jpeg("x".to_string()).message(), "JPEG encode failed: x");
    assert_eq!(
        ExportError::Save(StillFormat::WebP, "y".to_string()).message(),
        "Failed to save WebP: y"
    );
    assert_eq!(ExportError::Svg(SvgError::ZeroSize).message(), "SVG has zero dimensions");
    assert_eq!(ConvertError::NoFrames.message(), "No frames to convert");
    assert_eq!(
        ConvertError::Gif(GifEncodeError::Frame("z".to_string())).message(),
        "Failed to encode GIF frame: z"
    );
}

#[test]
fn prepare_frames_applies_custom_delay() {
    let frames = vec![
        Frame::new(RgbaImage::new(1, 1), 70),
        Frame::new(RgbaImage::new(2, 1), 80),
    ];
    let kept = prepare_frames(&frames, None);
    assert_eq!(kept.iter().map(|f| f.delay_ms).collect::<Vec<_>>(), vec![70, 80]);
    let custom = prepare_frames(&frames, Some(3));
    assert_eq!(custom.iter().map(|f| f.delay_ms).collect::<Vec<_>>(), vec![10, 10]);
    assert_eq!(custom[1].dimensions(), (2, 1));
}

#[test]
fn convert_without_frames_fails() {
    let res = convert_image(&[], Some("png"), TargetFormat::Png, 90, None, 0, &scaled_short_side);
    assert!(matches!(res, Err(ConvertError::NoFrames)));
    assert!(matches!(
        export_animated_file(Some("GIF"), &[], 0),
        Err(ConvertError::Gif(GifEncodeError::NoFrames))
    ));
    assert!(matches!(
        export_animated_file(None, &[], 0),
        Err(ConvertError::Apng(ApngEncodeError::NoFrames))
    ));
}

#[test]
fn convert_still_uses_first_frame() {
    let frames = vec![
        Frame::new(filled(3, 2, rgba(1, 1, 1, 255)), 100),
        Frame::new(filled(5, 5, rgba(2, 2, 2, 255)), 100),
    ];
    let bytes = convert_image(&frames, Some("png"), TargetFormat::Png, 90, None, 0, &scaled_short_side)
        .expect("PNG");
    let decoded = image::load_from_memory(&bytes).expect("readable");
    assert_eq!((decoded.width(), decoded.height()), (3, 2));
}

#[test]
fn animated_file_by_extension() {
    let frames = vec![Frame::new(filled(2, 2, rgba(3, 3, 3, 255)), 100)];
    let gif = export_animated_file(Some("Gif"), &frames, 0).expect("GIF");
    assert_eq!(&gif[..3], b"GIF");
    let png = export_animated_file(Some("apng"), &frames, 0).expect("PNG");
    assert_eq!(&png[1..4], b"PNG");
}

// ---------------------------------------------------------------- loading

#[test]
fn load_errors() {
    assert!(matches!(load_any_image(Some("xyz"), &[1, 2, 3], &over), Err(LoadError::UnknownFormat)));
    assert!(matches!(load_any_image(None, &[1, 2, 3], &over), Err(LoadError::UnknownFormat)));
    assert!(matches!(load_any_image(Some("bmp"), &[1, 2, 3], &over), Err(LoadError::Image(_))));
    assert!(matches!(load_any_image(Some("GIF"), &[1, 2, 3], &over), Err(LoadError::Gif(_))));
    assert!(matches!(load_any_image(Some("svg"), b"<nope", &over), Err(LoadError::Svg(SvgError::Parse(_)))));
    assert!(matches!(load_multiple_images(&[], &over), Err(LoadError::NoFrames)));
    let unreadable = ImageSource { extension: Some("png".to_string()), data: Err("gone".to_string()) };
    assert!(matches!(load_multiple_images(&[unreadable], &over), Err(LoadError::Read(m)) if m == "gone"));
    assert_eq!(LoadError::NoFrames.message(), "No valid frames could be loaded");
    assert_eq!(LoadError::Image("e".to_string()).message(), "Failed to load image: e");
}

#[test]
fn load_png_through_the_apng_path() {
    let frames = vec![Frame::new(filled(3, 3, rgba(7, 8, 9, 255)), 100)];
    let bytes = encode_apng(&frames, 0).unwrap();
    let loaded = load_any_image(Some("PNG"), &bytes, &over).expect("loads");
    assert_eq!(loaded.len(), 1);
    assert_eq!(loaded[0].image.get_pixel(2, 2), rgba(7, 8, 9, 255));
}

#[test]
fn generic_loading_gives_the_decoded_pixels() {
    let mut image = filled(3, 2, rgba(10, 20, 30, 255));
    image.put_pixel(1, 1, rgba(200, 100, 50, 255));
    let frames = vec![Frame::new(image, 100)];
    let bytes = convert_image(&frames, Some("bmp"), TargetFormat::Bmp, 90, None, 0, &scaled_short_side).expect("BMP");
    let loaded = load_any_image(Some("BMP"), &bytes, &over).expect("loads");
    assert_eq!(loaded.len(), 1);
    assert_eq!(loaded[0].delay_ms, 100);
    assert_eq!(loaded[0].dimensions(), (3, 2));
    assert_eq!(loaded[0].image.get_pixel(1, 1), rgba(200, 100, 50, 255));
    assert_eq!(loaded[0].image.get_pixel(2, 0), rgba(10, 20, 30, 255));
}

#[test]
fn load_multiple_images_stops_at_the_first_failure() {
    let one = vec![Frame::new(filled(2, 2, rgba(1, 0, 0, 255)), 100)];
    let sources = vec![
        ImageSource { extension: Some("png".to_string()), data: Ok(encode_apng(&one, 0).unwrap()) },
        ImageSource { extension: Some("xyz".to_string()), data: Ok(vec![1, 2, 3]) },
        ImageSource { extension: Some("png".to_string()), data: Err("gone".to_string()) },
    ];
    assert!(matches!(load_multiple_images(&sources, &over), Err(LoadError::UnknownFormat)));
}

#[test]
fn load_multiple_images_concatenates_frames() {
    let one = vec![Frame::new(filled(2, 2, rgba(1, 0, 0, 255)), 100)];
    let two = vec![
        Frame::new(filled(2, 2, rgba(0, 1, 0, 255)), 100),
        Frame::new(filled(2, 2, rgba(0, 0, 1, 255)), 100),
    ];
    let sources = vec![
        ImageSource { extension: Some("png".to_string()), data: Ok(encode_apng(&one, 0).unwrap()) },
        ImageSource { extension: Some("gif".to_string()), data: Ok(encode_gif(&two, 0).unwrap()) },
    ];
    let frames = load_multiple_images(&sources, &over).expect("loads");
    assert_eq!(frames.len(), 3);
}

#[test]
fn read_failure_messages() {
    assert_eq!(read_failure_message(Some("SVG"), "denied"), "Failed to read SVG file: denied");
    assert_eq!(read_failure_message(Some("gif"), "denied"), "Failed to open GIF: denied");
    assert_eq!(read_failure_message(Some("apng"), "denied"), "Failed to open image: denied");
    assert_eq!(read_failure_message(None, "denied"), "Failed to load image: denied");
}

#[test]
fn svg_load_and_trace() {
    let svg = br#"<svg xmlns="http://www.w3.org/2000/svg" width="4.2" height="3"><rect width="4.2" height="3" fill="red"/></svg>"#;
    let frames = load_svg(svg).expect("rasterizes");
    assert_eq!(frames.len(), 1);
    assert_eq!(frames[0].dimensions(), (5, 3));
    assert_eq!(frames[0].delay_ms, 100);
    let zero = br#"<svg xmlns="http://www.w3.org/2000/svg" width="0" height="3"></svg>"#;
    assert!(load_svg(zero).is_err());
    let traced = export_svg(&Frame::new(filled(6, 6, rgba(0, 0, 0, 255)), 100)).expect("traces");
    assert!(String::from_utf8(traced).unwrap().contains("<svg"));
}

#[test]
fn svg_pixels_are_the_drawing() {
    let svg = br#"<svg xmlns="http://www.w3.org/2000/svg" width="4" height="2"><rect width="4" height="2" fill="blue"/></svg>"#;
    let frames = load_svg(svg).expect("rasterizes");
    assert_eq!(frames[0].dimensions(), (4, 2));
    assert_eq!(frames[0].image.get_pixel(3, 1), rgba(0, 0, 255, 255));
    let raw = frames[0].image.to_raw();
    assert_eq!(raw.len(), 4 * 2 * 4);
    assert!(raw.chunks(4).all(|p| p == [0, 0, 255, 255]));
    assert!(matches!(load_svg(b"<svg"), Err(SvgError::Parse(_))));
    let zero = br#"<svg xmlns="http://www.w3.org/2000/svg" width="3" height="0"></svg>"#;
    assert!(matches!(load_svg(zero), Err(SvgError::ZeroSize) | Err(SvgError::Parse(_))));
}

// ---------------------------------------------------------------- text

#[test]
fn decimal_numbers() {
    assert_eq!(decimal_text(0), "0");
    assert_eq!(decimal_text(7), "7");
    assert_eq!(decimal_text(1234), "1234");
    assert_eq!(decimal_text(u64::MAX), "18446744073709551615");
    assert!(same_text("abc", "abc"));
    assert!(!same_text("abc", "abd"));
    assert!(!same_text("ab", "abc"));
}

#[test]
fn interface_texts() {
    assert_eq!(Language::English.label(), "English");
    assert_eq!(Language::Chinese.label(), "简体中文");
    assert_eq!(Loc::app_name(), "RustyImage");
    assert_eq!(Loc::convert_btn(Language::English, true), "Converting...");
    assert_eq!(Loc::convert_btn(Language::Chinese, false), "开始转换");
    assert_eq!(Loc::anim_info(Language::English, 12, 80), "12 frames • 80ms/f (Animated)");
    assert_eq!(Loc::anim_info(Language::Chinese, 3, 100), "3 帧 • 100ms/帧 (动图)");
    assert_eq!(Loc::batch_converting_progress(Language::English, 2, 5), "Converting 2/5...");
    assert_eq!(Loc::batch_completed(Language::Chinese, 4), "成功转换 4 个文件！");
    assert_eq!(Loc::batch_completed(Language::English, 1), "Converted 1 files successfully!");
}

// ---------------------------------------------------------------- batch bookkeeping

#[test]
fn batch_progress_reports_each_item() {
    let mut p = BatchProgress::new(2);
    match p.record("a.png".to_string(), Ok(())) {
        ConvertEvent::ItemSuccess { out_path, current, total } => {
            assert_eq!((out_path.as_str(), current, total), ("a.png", 1, 2));
        }
        _ => panic!("expected a success"),
    }
    match p.record("b.png".to_string(), Err("disk full".to_string())) {
        ConvertEvent::ItemError { out_path, error, current, total } => {
            assert_eq!(out_path, "b.png");
            assert_eq!(error, "b.png: disk full");
            assert_eq!((current, total), (2, 2));
        }
        _ => panic!("expected an error"),
    }
    match p.finish(7) {
        ConvertEvent::AllFinished { successful, errors, duration_ms } => {
            assert_eq!(successful, vec!["a.png".to_string()]);
            assert_eq!(errors, vec!["b.png: disk full".to_string()]);
            assert_eq!(duration_ms, 7);
        }
        _ => panic!("expected the end"),
    }
}

#[test]
fn converter_follows_events() {
    let mut c = AsyncConverter::default();
    assert!(c.poll(Some(ConvertEvent::ItemSuccess { out_path: "x".to_string(), current: 1, total: 1 })).is_none());
    c.start(3);
    assert_eq!(c.progress, Some((0, 3)));
    assert!(c.poll(None).is_none());
    let e = c.poll(Some(ConvertEvent::ItemError {
        out_path: "x".to_string(),
        error: "x: bad".to_string(),
        current: 1,
        total: 3,
    }));
    assert!(e.is_some());
    assert_eq!(c.progress, Some((1, 3)));
    assert!(c.is_converting);
    c.poll(Some(ConvertEvent::AllFinished { successful: vec![], errors: vec![], duration_ms: 0 }));
    assert!(!c.is_converting && !c.receiving);
    assert_eq!(c.progress, None);
}

#[test]
fn single_job() {
    let job = ConvertJob::single(vec![], "o.png".to_string(), TargetFormat::Bmp, 50, Some(20), 2);
    assert_eq!(job.items.len(), 1);
    assert_eq!(job.items[0].out_path, "o.png");
    assert_eq!((job.format, job.quality, job.custom_delay_ms, job.repeat_count), (TargetFormat::Bmp, 50, Some(20), 2));
}

// ---------------------------------------------------------------- window state

#[test]
fn window_opens_with_defaults() {
    let app = RustImageApp::new(true);
    assert!(app.context_menu_active);
    assert_eq!(app.target_format, TargetFormat::Png);
    assert_eq!(app.compression_quality, 80);
    assert_eq!(app.close_action, CloseAction::Quit);
    assert!(!app.minimizes_on_close());
    assert!(!app.can_convert());
    assert_eq!(app.input_heading(), "INPUT");
    assert_eq!(app.destination_label(), "Destination:");
    assert_eq!(app.destination_hint(), "(Select input file)");
}

#[test]
fn batch_mode_and_merging() {
    let mut app = RustImageApp::new(false);
    app.add_image(image_input("/in/a.png", vec![Frame::new(RgbaImage::new(1, 1), 100)]));
    assert!(!app.is_batch_mode());
    app.add_image(image_input("/in/b.png", vec![Frame::new(RgbaImage::new(1, 1), 100)]));
    assert!(app.is_batch_mode());
    assert_eq!(app.input_heading(), "INPUT (2)");
    assert_eq!(app.destination_label(), "Folder:");
    assert!(!app.offers_merge());
    assert!(!app.offers_frame_delay());
    app.select_format(TargetFormat::Gif);
    assert!(app.offers_merge());
    assert!(app.offers_frame_delay());
    app.set_merge_into_animation(true);
    assert!(!app.is_batch_mode());
    assert!(app.contains_image("/in/a.png"));
    assert!(!app.contains_image("/in/c.png"));
    app.remove_image(0);
    assert_eq!(app.imported_images.len(), 1);
    app.clear_input();
    assert!(app.imported_images.is_empty());
    assert!(app.destination_text.is_empty());
}

#[test]
fn first_files_propose_their_delay() {
    let mut app = RustImageApp::new(false);
    app.add_image(image_input(
        "/in/anim.gif",
        vec![Frame::new(RgbaImage::new(1, 1), 70), Frame::new(RgbaImage::new(1, 1), 90)],
    ));
    app.finish_loading(true);
    assert_eq!(app.custom_delay_ms, Some(70));
    assert!(app.status_message.is_none());
    assert!(!app.manual_destination);
    assert!(app.offers_frame_delay());
}

#[test]
fn conversion_plans() {
    let mut app = RustImageApp::new(false);
    assert!(app.trigger_conversion().is_none());

    app.add_image(image_input("/in/a.png", vec![Frame::new(RgbaImage::new(2, 2), 100)]));
    app.add_image(image_input("/in/b.png", vec![Frame::new(RgbaImage::new(3, 3), 100)]));
    app.compression_enabled = true;
    app.compression_quality = 55;
    let plan = app.trigger_conversion().expect("a batch");
    assert!(plan.folder_required);
    assert_eq!(plan.job.items.len(), 2);
    assert_eq!(plan.job.quality, 55);
    assert_eq!(plan.job.items[1].frames[0].dimensions(), (3, 3));

    app.begin_conversion(2);
    assert!(app.converter.is_converting);
    assert!(app.trigger_conversion().is_none());
}

#[test]
fn merged_conversion_takes_all_frames() {
    let mut app = RustImageApp::new(false);
    app.add_image(image_input("/in/a.png", vec![Frame::new(RgbaImage::new(2, 2), 100)]));
    app.add_image(image_input(
        "/in/b.gif",
        vec![Frame::new(RgbaImage::new(2, 2), 30), Frame::new(RgbaImage::new(2, 2), 40)],
    ));
    app.select_format(TargetFormat::Apng);
    app.set_merge_into_animation(true);
    let plan = app.trigger_conversion().expect("one animation");
    assert!(!plan.folder_required);
    assert_eq!(plan.job.items.len(), 1);
    assert_eq!(plan.job.items[0].frames.len(), 3);
    assert_eq!(plan.job.quality, 98);
}

#[test]
fn conversion_needs_a_destination() {
    let mut app = RustImageApp::new(false);
    // A path without a parent gives no default destination.
    app.add_image(image_input("/", vec![Frame::new(RgbaImage::new(1, 1), 100)]));
    assert!(app.trigger_conversion().is_none());
    assert_eq!(
        app.status_message,
        Some(("Please specify a valid destination path".to_string(), true))
    );
}

#[test]
fn conversion_events_update_the_window() {
    let mut app = RustImageApp::new(false);
    app.apply_convert_event(ConvertEvent::ItemSuccess { out_path: "/o/a.png".to_string(), current: 1, total: 2 });
    app.apply_convert_event(ConvertEvent::ItemSuccess { out_path: "/o/a.png".to_string(), current: 2, total: 2 });
    assert_eq!(app.output_files, vec!["/o/a.png".to_string()]);
    assert_eq!(app.status_message, Some(("Converting 2/2...".to_string(), false)));

    app.apply_convert_event(ConvertEvent::ItemError {
        out_path: "/o/b.png".to_string(),
        error: "/o/b.png: bad".to_string(),
        current: 2,
        total: 2,
    });
    assert_eq!(app.status_message, Some(("/o/b.png: bad".to_string(), true)));

    app.apply_convert_event(ConvertEvent::AllFinished {
        successful: vec!["/o/a.png".to_string(), "/o/c.png".to_string()],
        errors: vec![],
        duration_ms: 5,
    });
    assert_eq!(app.output_files, vec!["/o/a.png".to_string(), "/o/c.png".to_string()]);
    assert_eq!(app.status_message, Some(("Converted 2 files successfully!".to_string(), false)));

    app.apply_convert_event(ConvertEvent::AllFinished {
        successful: vec![],
        errors: vec!["x".to_string(), "y".to_string()],
        duration_ms: 5,
    });
    assert_eq!(app.status_message, Some(("Completed with 2 error(s)".to_string(), true)));
}

#[test]
fn messages_of_the_window() {
    let mut app = RustImageApp::new(true);
    app.report_load_error("/in/x.png", "broken");
    assert_eq!(app.status_message, Some(("Error loading /in/x.png: broken".to_string(), true)));
    app.report_folder_error("denied");
    assert_eq!(
        app.status_message,
        Some(("Failed to create destination directory: denied".to_string(), true))
    );
    app.registry_toggled(Err("no access".to_string()));
    assert!(app.context_menu_active);
    assert_eq!(app.status_message, Some(("Failed to unregister: no access".to_string(), true)));
    app.registry_toggled(Ok(()));
    assert!(!app.context_menu_active);
    assert_eq!(app.status_message, Some(("Right-click context menu removed".to_string(), false)));
    app.registry_toggled(Ok(()));
    assert_eq!(app.status_message, Some(("Right-click context menu installed!".to_string(), false)));
}

// ---------------------------------------------------------------- registry

fn args_of(c: &RegCommand) -> Vec<&str> {
    c.args.iter().map(|s| s.as_str()).collect()
}

#[test]
fn registry_plans() {
    assert!(matches!(register_context_menu(false, Ok("x".to_string())), Err(RegistryError::Unsupported)));
    assert!(matches!(register_context_menu(true, Err("e".to_string())), Err(RegistryError::ExePath(m)) if m == "e"));
    assert!(matches!(unregister_context_menu(false), Err(RegistryError::Unsupported)));
    assert_eq!(
        RegistryError::Unsupported.message(),
        "Windows registry integration is only supported on Windows"
    );

    let cmds = register_context_menu(true, Ok(r"C:\app.exe".to_string())).unwrap();
    assert_eq!(cmds.len(), 9);
    assert_eq!(args_of(&cmds[0]), vec!["delete", LEGACY_KEY_STAR, "/f"]);
    assert_eq!(args_of(&cmds[2]), vec!["add", REG_KEY_STAR, "/ve", "/d", MENU_TEXT, "/f"]);
    assert_eq!(args_of(&cmds[3]), vec!["add", REG_KEY_STAR, "/v", "Icon", "/d", "\"C:\\app.exe\"", "/f"]);
    let star_command = format!("{REG_KEY_STAR}\\command");
    assert_eq!(
        args_of(&cmds[5]),
        vec!["add", star_command.as_str(), "/ve", "/d", "\"C:\\app.exe\" \"%1\"", "/f"]
    );
    assert!(cmds[2].must_succeed && !cmds[6].must_succeed && !cmds[0].must_succeed);

    let removal = unregister_context_menu(true).unwrap();
    assert_eq!(removal.len(), 4);
    assert_eq!(args_of(&removal[3]), vec!["delete", LEGACY_KEY_IMAGE, "/f"]);

    let queries = registration_queries();
    assert_eq!(queries[1], vec!["query".to_string(), REG_KEY_IMAGE.to_string()]);
    assert!(!is_context_menu_registered(false, &[true]));
    assert!(!is_context_menu_registered(true, &[false, false]));
    assert!(is_context_menu_registered(true, &[false, true]));
}

#[test]
fn required_commands_stop_on_failure() {
    let required = RegCommand { args: vec![], must_succeed: true };
    let optional = RegCommand { args: vec![], must_succeed: false };
    assert_eq!(stop_after(&required, Err("bad".to_string())), Some("bad".to_string()));
    assert_eq!(stop_after(&required, Ok(())), None);
    assert_eq!(stop_after(&optional, Err("bad".to_string())), None);
}

#[test]
fn default_destination_for_bare_file_names() {
    let mut app = RustImageApp::new(false);
    app.add_image(image_input("photo.v2.png", vec![Frame::new(RgbaImage::new(1, 1), 100)]));
    assert_eq!(app.compute_default_destination(), "photo.v2_converted.png");
    app.select_format(TargetFormat::Gif);
    assert!(app.compute_default_destination().ends_with("photo.v2_converted.gif"));
    app.add_image(image_input("other.png", vec![Frame::new(RgbaImage::new(1, 1), 100)]));
    assert!(app.compute_default_destination().ends_with("converted"));
    app.set_merge_into_animation(true);
    assert!(app.compute_default_destination().ends_with("animation_merged.gif"));
    assert!(app.contains_image("other.png"));
    assert!(!app.contains_image("other.gif"));
}

#[test]
fn traced_svg_is_a_document() {
    let traced = export_svg(&Frame::new(filled(4, 4, rgba(200, 10, 10, 255)), 100)).expect("traces");
    let text = String::from_utf8(traced).unwrap();
    assert!(text.starts_with("<?xml version=\"1.0\" encoding=\"UTF-8\"?>\n<!-- Generator: visioncortex VTracer 0.6.5 -->\n<svg version=\"1.1\""));
    assert!(text.ends_with("</svg>\n"));
}

#[test]
fn destinations_follow_the_user_and_the_format() {
    let mut app = RustImageApp::new(false);
    app.add_image(image_input("pic.png", vec![Frame::new(RgbaImage::new(1, 1), 100)]));
    app.destination_text = "  out.png \n".to_string();
    app.manual_destination = true;
    let plan = app.trigger_conversion().expect("one file");
    assert_eq!(plan.job.items[0].out_path, "out.png");
    app.select_format(TargetFormat::Bmp);
    assert_eq!(app.destination_text, "  out.bmp");
    app.destination_text = "   ".to_string();
    app.select_format(TargetFormat::Tga);
    assert_eq!(app.destination_text, "pic_converted.tga");
}

#[test]
fn batch_outputs_are_named_by_stem() {
    let mut app = RustImageApp::new(false);
    app.add_image(image_input("a.bmp", vec![Frame::new(RgbaImage::new(1, 1), 100)]));
    app.add_image(image_input("b.png", vec![Frame::new(RgbaImage::new(1, 1), 100)]));
    app.destination_text = "dest".to_string();
    let plan = app.trigger_conversion().expect("a batch");
    assert_eq!(plan.folder, Some("dest".to_string()));
    let outs: Vec<String> = plan.job.items.iter().map(|i| i.out_path.clone()).collect();
    assert!(outs[0].ends_with("a.png") && outs[1].ends_with("b.png"));
    app.destination_text = "   ".to_string();
    let plan = app.trigger_conversion().expect("a batch");
    assert_eq!(plan.folder, Some("converted".to_string()));
}

#[test]
fn outputs_go_into_folders() {
    let sep = std::path::MAIN_SEPARATOR;
    let mut app = RustImageApp::new(false);
    app.add_image(image_input("photos/a.bmp", vec![Frame::new(RgbaImage::new(1, 1), 100)]));
    app.add_image(image_input("photos/b.png", vec![Frame::new(RgbaImage::new(1, 1), 100)]));
    assert_eq!(app.compute_default_destination(), format!("photos{sep}converted"));
    app.destination_text = "out/dir".to_string();
    let plan = app.trigger_conversion().expect("a batch");
    let outs: Vec<String> = plan.job.items.iter().map(|i| i.out_path.clone()).collect();
    assert_eq!(outs, vec![format!("out/dir{sep}a.png"), format!("out/dir{sep}b.png")]);
    app.destination_text = "photos".to_string();
    let plan = app.trigger_conversion().expect("a batch");
    assert_eq!(plan.job.items[1].out_path, format!("photos{sep}b_converted.png"));

    let mut one = RustImageApp::new(false);
    one.add_image(image_input("photos/pic.gif", vec![Frame::new(RgbaImage::new(1, 1), 100)]));
    assert_eq!(one.compute_default_destination(), format!("photos{sep}pic_converted.png"));
    one.destination_text = "out/dir/x.png".to_string();
    one.manual_destination = true;
    let plan = one.trigger_conversion().expect("one file");
    assert_eq!(plan.folder, Some("out/dir".to_string()));
    one.select_format(TargetFormat::Bmp);
    assert_eq!(one.destination_text, "out/dir/x.bmp");
}

#[test]
fn sixteen_bit_png_is_refused_by_its_depth() {
    let mut bytes: Vec<u8> = Vec::new();
    {
        let mut enc = png::Encoder::new(&mut bytes, 1, 1);
        enc.set_color(png::ColorType::Grayscale);
        enc.set_depth(png::BitDepth::Sixteen);
        let mut w = enc.write_header().unwrap();
        w.write_image_data(&[0x12, 0x34]).unwrap();
        w.finish().unwrap();
    }
    let err = match decode_apng(&bytes, &over) {
        Err(e) => e,
        Ok(_) => panic!("a 16-bit PNG decoded"),
    };
    assert!(matches!(err, ApngDecodeError::Samples(RawImageError::UnsupportedBitDepth(PngBitDepth::Sixteen))));
    assert_eq!(err.message(), "Unsupported PNG bit depth: Sixteen");
}

#[test]
fn a_cut_animation_keeps_its_first_frames() {
    let frames = vec![
        Frame::new(filled(2, 2, rgba(9, 9, 9, 255)), 100),
        Frame::new(filled(2, 2, rgba(1, 2, 3, 255)), 100),
        Frame::new(filled(2, 2, rgba(4, 5, 6, 255)), 100),
    ];
    let bytes = encode_apng(&frames, 0).unwrap();
    let whole = decode_apng(&bytes, &over).unwrap();
    assert_eq!(whole.len(), 3);
    let cut = &bytes[..bytes.len() - 20];
    let kept = decode_apng(cut, &over).unwrap();
    assert!(!kept.is_empty() && kept.len() < 3);
    assert_eq!(kept[0].image.get_pixel(1, 1), rgba(9, 9, 9, 255));
    assert!(matches!(decode_apng(&bytes[..40], &over), Err(_)));
}

#[test]
fn write_failures_name_the_writer() {
    assert_eq!(write_failure_message(TargetFormat::Gif, Some("gif"), "x"), "Failed to create output file: x");
    assert_eq!(write_failure_message(TargetFormat::Jpg, Some("JPG"), "x"), "Failed to create file: x");
    assert_eq!(write_failure_message(TargetFormat::Tiff, Some("tif"), "x"), "Failed to save TIFF: x");
    assert_eq!(write_failure_message(TargetFormat::Png, None, "x"), "Failed to save PNG: x");
}

#[test]
fn empty_images_are_not_traced() {
    assert!(matches!(export_svg(&Frame::new(RgbaImage::new(0, 3), 100)), Err(SvgError::EmptyImage)));
    assert_eq!(Loc::choose_file(Language::English), "Choose Files...");
}
