use img2pdf::text::decimal_string;
use img2pdf::{AppError, GenerationResult};

#[test]
fn every_error_has_its_text() {
    assert_eq!(
        AppError::UnsupportedFormat(".txt".to_string()).message(),
        "Unsupported image format: .txt"
    );
    assert_eq!(AppError::ImageNotFound("a.png".to_string()).message(), "Image file not found: a.png");
    assert_eq!(AppError::ImageReadError("bad".to_string()).message(), "Failed to read image: bad");
    assert_eq!(
        AppError::ImageProcessingError("bad".to_string()).message(),
        "Image processing error: bad"
    );
    assert_eq!(
        AppError::ImageTooLarge(52_428_801).message(),
        "Image file too large: 52428801 bytes (max 50 MB)"
    );
    assert_eq!(
        AppError::PdfGenerationError("bad".to_string()).message(),
        "Failed to generate PDF: bad"
    );
    assert_eq!(AppError::IoError("bad".to_string()).message(), "IO error: bad");
    assert_eq!(AppError::InvalidDimensions.message(), "Invalid custom page dimensions");
    assert_eq!(AppError::NoImages.message(), "No images provided");
}

#[test]
fn decimal_numerals() {
    assert_eq!(decimal_string(0), "0");
    assert_eq!(decimal_string(7), "7");
    assert_eq!(decimal_string(10), "10");
    assert_eq!(decimal_string(1234567890), "1234567890");
    assert_eq!(decimal_string(u64::MAX), "18446744073709551615");
}

#[test]
fn errors_from_outside_failures() {
    let io = std::io::Error::new(std::io::ErrorKind::NotFound, "gone");
    assert!(matches!(AppError::from_io(&io), AppError::IoError(text) if text == "gone"));
    let decode = image::load_from_memory(b"not an image").unwrap_err();
    let expected = decode.to_string();
    assert!(matches!(AppError::from_image(&decode), AppError::ImageReadError(text) if text == expected));
}

#[test]
fn generation_result_of_success() {
    let report = GenerationResult::from_outcome(&Ok(()), "/tmp/out.pdf".to_string());
    assert!(report.success);
    assert_eq!(report.output_path, Some("/tmp/out.pdf".to_string()));
    assert_eq!(report.error, None);
}

#[test]
fn generation_result_of_failure() {
    let report = GenerationResult::from_outcome(&Err(AppError::NoImages), "/tmp/out.pdf".to_string());
    assert!(!report.success);
    assert_eq!(report.output_path, None);
    assert_eq!(report.error, Some("No images provided".to_string()));
}
