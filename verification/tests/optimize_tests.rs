use img2pdf::{
    choose_action, create_optimized_image, optimize_image, optimize_jpeg, optimize_png,
    plan_optimized_image, AppError, ChunkStripping, ImageKind, OptimizeAction, JPEG_QUALITY,
    PNG_STRIPPING,
};

fn recompress(data: &[u8]) -> Result<Vec<u8>, oxipng::PngError> {
    let strip = match PNG_STRIPPING {
        ChunkStripping::Keep => oxipng::StripChunks::None,
        ChunkStripping::Safe => oxipng::StripChunks::Safe,
    };
    oxipng::optimize_from_memory(data, &oxipng::Options { strip, ..Default::default() })
}

fn create_test_png() -> Vec<u8> {
    let img = image::ImageBuffer::from_fn(100, 100, |x, y| {
        if (x + y) % 2 == 0 {
            image::Rgb([255u8, 0u8, 0u8])
        } else {
            image::Rgb([0u8, 255u8, 0u8])
        }
    });
    let mut bytes = Vec::new();
    image::DynamicImage::ImageRgb8(img)
        .write_to(&mut std::io::Cursor::new(&mut bytes), image::ImageFormat::Png)
        .unwrap();
    bytes
}

#[test]
fn test_optimize_png() {
    let input = create_test_png();
    let result = optimize_png(recompress(&input));
    assert!(result.is_ok(), "PNG optimization failed: {:?}", result);
    let output = result.unwrap();
    assert!(!output.is_empty(), "Optimized PNG file was not created");
    assert!(output.len() <= input.len(), "Optimized file is larger than original");
    // what comes back is still the same picture
    let before = image::load_from_memory(&input).unwrap().to_rgb8();
    let after = image::load_from_memory(&output).unwrap().to_rgb8();
    assert_eq!(before.dimensions(), after.dimensions());
    assert_eq!(before.into_raw(), after.into_raw());
}

#[test]
fn test_jpeg_quality_clamping() {
    assert_eq!(optimize_jpeg(150), 100);
}

#[test]
fn jpeg_quality_stays_within_one_and_hundred() {
    assert_eq!(optimize_jpeg(0), 1);
    assert_eq!(optimize_jpeg(1), 1);
    assert_eq!(optimize_jpeg(85), 85);
    assert_eq!(optimize_jpeg(100), 100);
    assert_eq!(optimize_jpeg(101), 100);
    assert_eq!(optimize_jpeg(255), 100);
    assert_eq!(JPEG_QUALITY, 85);
}

#[test]
fn broken_png_is_a_processing_error() {
    let failure = recompress(b"this is no png").unwrap_err();
    let expected = format!("PNG optimization failed: {}", failure);
    assert!(expected.len() > "PNG optimization failed: ".len());
    match optimize_png(recompress(b"this is no png")) {
        Err(AppError::ImageProcessingError(text)) => assert_eq!(text, expected),
        other => panic!("{:?}", other),
    }
}

#[test]
fn only_png_and_jpeg_get_an_optimised_copy() {
    assert_eq!(create_optimized_image("/in/photo.png"), Some("optimized_photo.png".to_string()));
    assert_eq!(create_optimized_image("/in/photo.JPG"), Some("optimized_photo.JPG".to_string()));
    assert_eq!(create_optimized_image("/in/photo.jpeg"), Some("optimized_photo.jpeg".to_string()));
    assert_eq!(create_optimized_image("/in/photo.gif"), None);
    assert_eq!(create_optimized_image("/in/photo.webp"), None);
    assert_eq!(create_optimized_image("/in/photo.txt"), None);
    assert_eq!(create_optimized_image("/in/photo"), None);
}

#[test]
fn optimised_copy_is_named_after_the_file() {
    assert_eq!(
        plan_optimized_image(Some(ImageKind::Png), Some("a.png".to_string())),
        Some("optimized_a.png".to_string())
    );
    assert_eq!(plan_optimized_image(Some(ImageKind::Jpeg), None), Some("optimized_temp".to_string()));
    assert_eq!(plan_optimized_image(Some(ImageKind::Other), Some("a.gif".to_string())), None);
    assert_eq!(plan_optimized_image(None, Some("a".to_string())), None);
}

#[test]
fn optimising_goes_by_the_format() {
    assert_eq!(optimize_image("a.png", 85).unwrap(), OptimizeAction::StripPng);
    assert_eq!(optimize_image("a.jpg", 85).unwrap(), OptimizeAction::ReencodeJpeg(85));
    assert_eq!(optimize_image("a.jpeg", 40).unwrap(), OptimizeAction::ReencodeJpeg(40));
    assert_eq!(optimize_image("a.bmp", 85).unwrap(), OptimizeAction::CopyFile);
    match optimize_image("a.txt", 85) {
        Err(AppError::UnsupportedFormat(text)) => {
            assert!(text.starts_with("Cannot detect image format: "))
        }
        other => panic!("{:?}", other),
    }
}

#[test]
fn action_for_a_detected_format() {
    assert_eq!(choose_action(Ok(ImageKind::Png), 85).unwrap(), OptimizeAction::StripPng);
    assert_eq!(choose_action(Ok(ImageKind::Jpeg), 70).unwrap(), OptimizeAction::ReencodeJpeg(70));
    assert_eq!(choose_action(Ok(ImageKind::Other), 85).unwrap(), OptimizeAction::CopyFile);
    let undetected = image::ImageFormat::from_path("a.txt").unwrap_err();
    let expected = format!("Cannot detect image format: {}", undetected);
    assert!(matches!(
        choose_action(Err(undetected), 85),
        Err(AppError::UnsupportedFormat(text)) if text == expected
    ));
}

#[test]
fn every_known_extension_has_its_action() {
    for ext in ["png", "apng", "PNG", "ApNg"] {
        assert_eq!(optimize_image(&format!("a.{}", ext), 85).unwrap(), OptimizeAction::StripPng);
    }
    for ext in ["jpg", "jpeg", "jfif", "JPG", "Jpeg", "JFIF"] {
        assert_eq!(
            optimize_image(&format!("dir/a.{}", ext), 60).unwrap(),
            OptimizeAction::ReencodeJpeg(60)
        );
    }
    for ext in [
        "avif", "gif", "webp", "tif", "tiff", "tga", "dds", "bmp", "ico", "hdr", "exr", "pbm",
        "pam", "ppm", "pgm", "pnm", "ff", "qoi", "GIF", "WebP",
    ] {
        assert_eq!(optimize_image(&format!("a.{}", ext), 85).unwrap(), OptimizeAction::CopyFile);
    }
    for path in ["a.txt", "a.pdf", "a.pcx", "a.jpe", "a.", "a", ".png", "dir.png/a", "a.pn\u{212A}"] {
        assert!(matches!(optimize_image(path, 85), Err(AppError::UnsupportedFormat(_))), "{}", path);
    }
}

#[test]
fn optimised_file_is_handed_on_as_it_is() {
    let input = create_test_png();
    let made = recompress(&input).unwrap();
    assert!(made.len() < input.len());
    assert_eq!(optimize_png(Ok(made.clone())).unwrap(), made);
    assert_eq!(optimize_png(Ok(vec![])).unwrap(), Vec::<u8>::new());
    assert_eq!(optimize_png(Ok(vec![1, 2, 3])).unwrap(), vec![1, 2, 3]);
}

#[test]
fn png_is_stripped_of_what_does_not_show() {
    assert_eq!(PNG_STRIPPING, ChunkStripping::Safe);
}
