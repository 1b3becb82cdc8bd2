use rustyimage::codec::apng_codec::{decode_apng, encode_apng};
use rustyimage::codec::gif_codec::{decode_gif, encode_gif};
use rustyimage::codec::static_codec::{convert_image, load_any_image, TargetFormat};
use rustyimage::converter::{AsyncConverter, BatchProgress, ConvertEvent, ConvertItem, ConvertJob};
use rustyimage::frame::Frame;
use rustyimage::raster::{Rgba, RgbaImage};

fn rgba(r: u8, g: u8, b: u8, a: u8) -> Rgba {
    Rgba { r, g, b, a }
}

/// Alpha compositing of `src` over `dst`, as the interface renders APNG frames.
fn over(src: Rgba, dst: Rgba) -> Rgba {
    let src_a = src.a as f32 / 255.0;
    let dst_a = dst.a as f32 / 255.0;
    let out_a = src_a + dst_a * (1.0 - src_a);
    if out_a > 0.0 {
        let blend = |sc: u8, dc: u8| -> u8 {
            let s = sc as f32 / 255.0;
            let d = dc as f32 / 255.0;
            let out = (s * src_a + d * dst_a * (1.0 - src_a)) / out_a;
            (out * 255.0).round().clamp(0.0, 255.0) as u8
        };
        Rgba {
            r: blend(src.r, dst.r),
            g: blend(src.g, dst.g),
            b: blend(src.b, dst.b),
            a: (out_a * 255.0).round().clamp(0.0, 255.0) as u8,
        }
    } else {
        dst
    }
}

/// The shorter side of an icon whose longer side becomes 256.
fn scaled_short_side(w: u32, h: u32, wide: bool) -> u32 {
    let ratio = (w as f32) / (h as f32);
    if wide {
        (256.0 / ratio).round() as u32
    } else {
        (256.0 * ratio).round() as u32
    }
}

#[test]
fn test_gif_roundtrip() {
    let mut img1 = RgbaImage::new(16, 16);
    img1.put_pixel(0, 0, rgba(255, 0, 0, 255));
    let mut img2 = RgbaImage::new(16, 16);
    img2.put_pixel(1, 1, rgba(0, 255, 0, 255));

    let frames = vec![Frame::new(img1, 100), Frame::new(img2, 120)];

    let buf = encode_gif(&frames, 0).expect("GIF encoding failed");
    assert!(!buf.is_empty());

    let decoded = decode_gif(&buf).expect("GIF decoding failed");
    assert_eq!(decoded.len(), 2);
    assert_eq!(decoded[0].dimensions(), (16, 16));
}

#[test]
fn test_apng_roundtrip() {
    let mut img1 = RgbaImage::new(16, 16);
    img1.put_pixel(0, 0, rgba(255, 0, 0, 128));
    let mut img2 = RgbaImage::new(16, 16);
    img2.put_pixel(1, 1, rgba(0, 255, 0, 255));

    let frames = vec![Frame::new(img1, 100), Frame::new(img2, 150)];

    let buf = encode_apng(&frames, 0).expect("APNG encoding failed");
    assert!(!buf.is_empty());

    let decoded = decode_apng(&buf, &over).expect("APNG decoding failed");
    assert_eq!(decoded.len(), 2);
    assert_eq!(decoded[0].dimensions(), (16, 16));
    let p0 = decoded[0].image.get_pixel(0, 0);
    assert_eq!(p0.r, 255);
    assert_eq!(p0.a, 128);
}

#[test]
fn test_target_format_properties() {
    assert_eq!(TargetFormat::ALL.len(), 10);
    for fmt in TargetFormat::ALL {
        assert!(!fmt.extension().is_empty());
        assert!(!fmt.display_name().is_empty());
        assert_eq!(TargetFormat::from_extension(fmt.extension()), Some(fmt));
    }
    assert_eq!(TargetFormat::from_extension("jpeg"), Some(TargetFormat::Jpg));
    assert_eq!(TargetFormat::from_extension("tif"), Some(TargetFormat::Tiff));
    assert_eq!(TargetFormat::from_extension("svg"), Some(TargetFormat::Svg));
    assert_eq!(TargetFormat::from_extension("unknown"), None);
}

#[test]
fn test_convert_image_file_outputs() {
    let mut img = RgbaImage::new(32, 32);
    for x in 0..32 {
        for y in 0..32 {
            img.put_pixel(x, y, rgba(x as u8 * 8, y as u8 * 8, 120, 255));
        }
    }
    let frames = vec![Frame::new(img, 100)];

    for fmt in [
        TargetFormat::Png,
        TargetFormat::Jpg,
        TargetFormat::Webp,
        TargetFormat::Bmp,
        TargetFormat::Gif,
        TargetFormat::Apng,
        TargetFormat::Ico,
        TargetFormat::Tiff,
        TargetFormat::Tga,
        TargetFormat::Svg,
    ] {
        let res = convert_image(&frames, Some(fmt.extension()), fmt, 85, None, 0, &scaled_short_side);
        assert!(res.is_ok(), "Failed to convert to {:?}: {:?}", fmt, res);
        assert!(!res.unwrap().is_empty());
    }
}

#[test]
fn test_svg_vector_export_and_import_roundtrip() {
    // A 64x64 high-contrast icon: a red box on white.
    let mut img = RgbaImage::new(64, 64);
    for x in 0..64 {
        for y in 0..64 {
            if (16..48).contains(&x) && (16..48).contains(&y) {
                img.put_pixel(x, y, rgba(220, 40, 40, 255));
            } else {
                img.put_pixel(x, y, rgba(255, 255, 255, 255));
            }
        }
    }
    let frames = vec![Frame::new(img, 100)];

    // 1. Raster to vector SVG.
    let res = convert_image(&frames, Some("svg"), TargetFormat::Svg, 90, None, 0, &scaled_short_side);
    assert!(res.is_ok(), "SVG export failed: {:?}", res);
    let svg_bytes = res.unwrap();

    let svg_content = String::from_utf8(svg_bytes.clone()).expect("Failed to read generated SVG");
    assert!(svg_content.contains("<svg"));
    assert!(svg_content.contains("<path"));

    // 2. Vector SVG back to raster.
    let loaded_frames = load_any_image(Some("svg"), &svg_bytes, &over).expect("Failed to load/rasterize generated SVG");
    assert!(!loaded_frames.is_empty());
    assert_eq!(loaded_frames[0].dimensions(), (64, 64));
}

#[test]
fn test_ico_large_image_auto_downscaling() {
    // A 1024x512 image, beyond the 256x256 icon limit.
    let mut large_img = RgbaImage::new(1024, 512);
    for x in 0..1024 {
        for y in 0..512 {
            large_img.put_pixel(x, y, rgba((x % 256) as u8, (y % 256) as u8, 128, 255));
        }
    }
    let frames = vec![Frame::new(large_img, 100)];

    let res = convert_image(&frames, Some("ico"), TargetFormat::Ico, 90, None, 0, &scaled_short_side);
    assert!(res.is_ok(), "Failed to auto-downscale and export large ICO: {:?}", res);
    let bytes = res.unwrap();

    let decoded = image::load_from_memory(&bytes).expect("Failed to decode saved ICO");
    assert!(decoded.width() <= 256, "ICO width {} exceeds 256", decoded.width());
    assert!(decoded.height() <= 256, "ICO height {} exceeds 256", decoded.height());
    assert_eq!(decoded.width(), 256);
    assert_eq!(decoded.height(), 128);
}

#[test]
fn test_batch_converter_multi_item() {
    let mut img1 = RgbaImage::new(16, 16);
    img1.put_pixel(0, 0, rgba(255, 0, 0, 255));
    let item1 = ConvertItem { frames: vec![Frame::new(img1, 100)], out_path: "batch_out1.png".to_string() };
    let mut img2 = RgbaImage::new(16, 16);
    img2.put_pixel(0, 0, rgba(0, 255, 0, 255));
    let item2 = ConvertItem { frames: vec![Frame::new(img2, 100)], out_path: "batch_out2.png".to_string() };

    let job = ConvertJob {
        items: vec![item1, item2],
        format: TargetFormat::Png,
        quality: 90,
        custom_delay_ms: None,
        repeat_count: 0,
    };

    let mut converter = AsyncConverter::new();
    converter.start(job.items.len());

    // The worker's side: convert each item and report it.
    let mut progress = BatchProgress::new(job.items.len());
    let mut events = Vec::new();
    for item in &job.items {
        let res = convert_image(&item.frames, Some("png"), job.format, job.quality, job.custom_delay_ms, job.repeat_count, &scaled_short_side);
        let outcome = res.map(|bytes| assert!(!bytes.is_empty())).map_err(|e| format!("{e:?}"));
        events.push(progress.record(item.out_path.clone(), outcome));
    }
    events.push(progress.finish(5));

    let mut finished = false;
    let mut item_count = 0;
    for event in events {
        match converter.poll(Some(event)) {
            Some(ConvertEvent::ItemSuccess { .. }) => item_count += 1,
            Some(ConvertEvent::AllFinished { successful, errors, .. }) => {
                assert_eq!(successful.len(), 2);
                assert!(errors.is_empty());
                finished = true;
            }
            _ => {}
        }
    }

    assert!(finished, "Batch converter should have finished");
    assert_eq!(item_count, 2, "Expected 2 item success events");
    assert!(!converter.is_converting);
    assert_eq!(converter.progress, None);
}
