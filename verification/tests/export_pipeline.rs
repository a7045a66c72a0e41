use textrender::codec::reencode_png;
use textrender::input::{OutputMode, PnmKind, SampleKind};
use textrender::save::{add_ending, output, OutputAction, OutputError};

fn png_bytes(width: u32, height: u32, rgba: [u8; 4]) -> Vec<u8> {
    let img = image::RgbaImage::from_pixel(width, height, image::Rgba(rgba));
    let mut out = std::io::Cursor::new(Vec::new());
    image::DynamicImage::ImageRgba8(img)
        .write_to(&mut out, image::ImageOutputFormat::Png)
        .expect("png encoding");
    out.into_inner()
}

fn decode(bytes: &[u8]) -> (u32, u32, Vec<u8>) {
    let img = image::load_from_memory(bytes).expect("decodable").to_rgba8();
    (img.width(), img.height(), img.into_raw())
}

fn segments(parts: &[&str]) -> Vec<String> {
    parts.iter().map(|s| s.to_string()).collect()
}

#[test]
fn add_ending_appends_to_the_last_segment() {
    let r = add_ending(segments(&["out", "poster"]), "png").unwrap();
    assert_eq!(r, segments(&["out", "poster.png"]));
    let r = add_ending(segments(&["poster.v2"]), "svg").unwrap();
    assert_eq!(r, segments(&["poster.v2.svg"]));
}

#[test]
fn add_ending_rejects_an_empty_path() {
    assert_eq!(add_ending(Vec::new(), "png").unwrap_err(), "No file name");
}

#[test]
fn direct_modes_write_the_surface_bytes_unchanged() {
    let surface = vec![1u8, 2, 3, 4];
    for mode in [
        OutputMode::Svg,
        OutputMode::Ps,
        OutputMode::Png(false),
        OutputMode::Pdf(false),
    ] {
        let (path, action) = output(mode, segments(&["poster"]), surface.clone(), false).unwrap();
        assert_eq!(path, segments(&["poster"]));
        assert_eq!(action, OutputAction::Write(surface.clone()));
    }
}

#[test]
fn in_memory_document_mode_returns_the_buffer() {
    let surface = vec![7u8, 8, 9];
    let (_, action) = output(OutputMode::Pdf(true), segments(&["poster"]), surface.clone(), false)
        .unwrap();
    assert_eq!(action, OutputAction::Return(surface));
}

#[test]
fn extension_synthesis_per_mode() {
    let surface = vec![0u8; 4];
    let cases = [
        (OutputMode::Svg, "poster.svg"),
        (OutputMode::Ps, "poster.ps"),
        (OutputMode::Pdf(false), "poster.pdf"),
        (OutputMode::Png(false), "poster.png"),
    ];
    for (mode, expected) in cases {
        let (path, _) = output(mode, segments(&["out", "poster"]), surface.clone(), true).unwrap();
        assert_eq!(path, segments(&["out", expected]));
    }
    let jpeg_src = png_bytes(4, 4, [1, 2, 3, 255]);
    let (path, _) = output(OutputMode::Jpeg(80), segments(&["poster"]), jpeg_src, true).unwrap();
    assert_eq!(path, segments(&["poster.jpeg"]));
}

#[test]
fn empty_path_with_extension_synthesis_is_a_path_error() {
    let r = output(OutputMode::Svg, Vec::new(), vec![1u8], true);
    match r.unwrap_err() {
        OutputError::Custom(m) => assert_eq!(m, "No file name"),
        other => panic!("unexpected error: {:?}", other),
    }
}

#[test]
fn optimized_png_preserves_pixels_and_never_grows() {
    let surface = png_bytes(64, 64, [200, 40, 40, 255]);
    let (_, action) = output(OutputMode::Png(true), segments(&["poster"]), surface.clone(), false)
        .unwrap();
    let optimized = match action {
        OutputAction::Write(b) => b,
        other => panic!("unexpected action: {:?}", other),
    };
    assert!(optimized.len() <= surface.len());
    assert_eq!(decode(&optimized), decode(&surface));
}

#[test]
fn optimizer_failure_is_a_compression_error() {
    let r = output(OutputMode::Png(true), segments(&["poster"]), vec![5u8, 6, 7], false);
    assert!(matches!(r.unwrap_err(), OutputError::CompressionError(_)));
}

#[test]
fn png_reencode_preserves_pixel_values_exactly() {
    let surface = png_bytes(9, 7, [13, 77, 200, 255]);
    let again = reencode_png(&surface).unwrap();
    // really re-encoded, and still the same image
    assert_eq!(&again[1..4], b"PNG");
    assert_eq!(decode(&again), decode(&surface));
    let (w, h, data) = decode(&again);
    assert_eq!((w, h), (9, 7));
    assert!(data.chunks(4).all(|p| p == [13, 77, 200, 255]));
}

#[test]
fn reencode_of_a_lossy_stream_keeps_its_decoded_samples() {
    // encode a flat image as JPEG, then re-encode the JPEG losslessly as PNG
    let img = image::RgbaImage::from_pixel(16, 16, image::Rgba([90, 120, 30, 255]));
    let mut out = std::io::Cursor::new(Vec::new());
    image::DynamicImage::ImageRgba8(img)
        .write_to(&mut out, image::ImageOutputFormat::Jpeg(90))
        .expect("jpeg encoding");
    let jpeg = out.into_inner();
    let png = reencode_png(&jpeg).unwrap();
    assert_eq!(&png[1..4], b"PNG");
    assert_eq!(decode(&png), decode(&jpeg));
}

#[test]
fn reencode_rejects_undecodable_bytes() {
    assert!(reencode_png(&vec![1u8, 2, 3]).is_err());
}

#[test]
fn exported_png_declares_the_requested_dimensions() {
    let surface = png_bytes(1518, 2150, [200, 40, 40, 255]);
    let (_, action) = output(OutputMode::Png(false), segments(&["poster"]), surface.clone(), false)
        .unwrap();
    let written = match action {
        OutputAction::Write(b) => b,
        other => panic!("unexpected action: {:?}", other),
    };
    assert_eq!(written, surface);
    assert_eq!(&written[1..4], b"PNG");
    let (w, h, _) = decode(&written);
    assert_eq!((w, h), (1518, 2150));
}

#[test]
fn jpeg_export_of_a_flat_red_surface_stays_red() {
    let surface = png_bytes(32, 32, [255, 0, 0, 255]);
    let (_, action) = output(OutputMode::Jpeg(80), segments(&["poster"]), surface, false).unwrap();
    let jpeg = match action {
        OutputAction::Write(b) => b,
        other => panic!("unexpected action: {:?}", other),
    };
    let (w, h, data) = decode(&jpeg);
    assert_eq!((w, h), (32, 32));
    let (r, g, b) = (data[0] as i32, data[1] as i32, data[2] as i32);
    assert!((255 - r).abs() <= 16, "red channel off: {}", r);
    assert!(g <= 16, "green channel off: {}", g);
    assert!(b <= 16, "blue channel off: {}", b);
}

#[test]
fn reencode_targets_produce_their_containers() {
    let surface = png_bytes(6, 6, [10, 200, 10, 255]);
    // the arbitrary-map PNM container is the one that takes RGBA samples
    let (_, action) = output(
        OutputMode::Pnm(PnmKind::ArbitraryMap),
        segments(&["poster"]),
        surface.clone(),
        false,
    )
    .unwrap();
    match action {
        OutputAction::Write(b) => assert_eq!(&b[..2], b"P7"),
        other => panic!("unexpected action: {:?}", other),
    }
    // a pixmap cannot carry the alpha channel and is refused by its encoder
    let r = output(
        OutputMode::Pnm(PnmKind::Pixmap(SampleKind::Binary)),
        segments(&["poster"]),
        surface.clone(),
        false,
    );
    assert!(matches!(r.unwrap_err(), OutputError::ImageError(_)));
    let (_, action) = output(OutputMode::Bmp, segments(&["poster"]), surface.clone(), false)
        .unwrap();
    match action {
        OutputAction::Write(b) => assert_eq!(&b[..2], b"BM"),
        other => panic!("unexpected action: {:?}", other),
    }
    let (_, action) = output(OutputMode::Qoi, segments(&["poster"]), surface, false).unwrap();
    match action {
        OutputAction::Write(b) => assert_eq!(&b[..4], b"qoif"),
        other => panic!("unexpected action: {:?}", other),
    }
}

#[test]
fn undecodable_surface_for_a_raster_target_is_an_image_error() {
    let r = output(OutputMode::Jpeg(80), segments(&["poster"]), vec![1u8, 2, 3], false);
    assert!(matches!(r.unwrap_err(), OutputError::ImageError(_)));
}

#[test]
fn encoder_refusal_is_an_image_error() {
    // the farbfeld encoder takes 16-bit samples only, so 8-bit RGBA is refused
    let surface = png_bytes(4, 4, [1, 2, 3, 255]);
    let r = output(OutputMode::Farbfeld, segments(&["poster"]), surface, false);
    assert!(matches!(r.unwrap_err(), OutputError::ImageError(_)));
}
