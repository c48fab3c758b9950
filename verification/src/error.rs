//! The errors that the library reports, and the text of each.

use crate::text::{decimal, decimal_string};
use vstd::prelude::*;

verus! {

/// `std::io::Error`, carried to where its text is taken.
#[verifier::external_type_specification]
#[verifier::external_body]
pub struct ExIoError(std::io::Error);

/// `image::ImageError`, carried to where its text is taken.
#[verifier::external_type_specification]
#[verifier::external_body]
pub struct ExImageError(image::ImageError);

/// Why an operation failed.
#[derive(Debug)]
pub enum AppError {
    /// The file's extension names no supported image format.
    UnsupportedFormat(String),
    /// No file at the given path.
    ImageNotFound(String),
    /// The image could not be decoded.
    ImageReadError(String),
    /// The image could not be optimised.
    ImageProcessingError(String),
    /// The file holds more bytes than the limit; the field is its size.
    ImageTooLarge(u64),
    /// The document could not be assembled or written.
    PdfGenerationError(String),
    /// The file system refused an operation.
    IoError(String),
    /// A custom page size lacks a dimension, or one is not positive.
    InvalidDimensions,
    /// No image was given.
    NoImages,
}

/// An error with its texts as character sequences.
pub enum ErrorView {
    UnsupportedFormat(Seq<char>),
    ImageNotFound(Seq<char>),
    ImageReadError(Seq<char>),
    ImageProcessingError(Seq<char>),
    ImageTooLarge(u64),
    PdfGenerationError(Seq<char>),
    IoError(Seq<char>),
    InvalidDimensions,
    NoImages,
}

impl View for AppError {
    type V = ErrorView;

    open spec fn view(&self) -> ErrorView {
        match self {
            AppError::UnsupportedFormat(s) => ErrorView::UnsupportedFormat(s@),
            AppError::ImageNotFound(s) => ErrorView::ImageNotFound(s@),
            AppError::ImageReadError(s) => ErrorView::ImageReadError(s@),
            AppError::ImageProcessingError(s) => ErrorView::ImageProcessingError(s@),
            AppError::ImageTooLarge(n) => ErrorView::ImageTooLarge(*n),
            AppError::PdfGenerationError(s) => ErrorView::PdfGenerationError(s@),
            AppError::IoError(s) => ErrorView::IoError(s@),
            AppError::InvalidDimensions => ErrorView::InvalidDimensions,
            AppError::NoImages => ErrorView::NoImages,
        }
    }
}

/// The text shown for an error.
pub open spec fn message_of(e: ErrorView) -> Seq<char> {
    match e {
        ErrorView::UnsupportedFormat(s) => "Unsupported image format: "@ + s,
        ErrorView::ImageNotFound(s) => "Image file not found: "@ + s,
        ErrorView::ImageReadError(s) => "Failed to read image: "@ + s,
        ErrorView::ImageProcessingError(s) => "Image processing error: "@ + s,
        ErrorView::ImageTooLarge(n) => "Image file too large: "@ + decimal(n as nat)
            + " bytes (max 50 MB)"@,
        ErrorView::PdfGenerationError(s) => "Failed to generate PDF: "@ + s,
        ErrorView::IoError(s) => "IO error: "@ + s,
        ErrorView::InvalidDimensions => "Invalid custom page dimensions"@,
        ErrorView::NoImages => "No images provided"@,
    }
}

/// Whether `text` is what the `Display` of a decoding failure shows, as
/// `to_string` gives it.
pub open spec fn shown_as(error: &image::ImageError, text: String) -> bool {
    vstd::string::to_string_from_display_ensures::<image::ImageError>(error, text)
}

/// Whether the characters `text` are what the `Display` of a decoding failure
/// shows.
pub open spec fn image_text(error: &image::ImageError, text: Seq<char>) -> bool {
    exists|shown: String| #[trigger] shown_as(error, shown) && shown@ == text
}

/// Whether `text` is what the `Display` of a failure of the file system
/// shows, as `to_string` gives it.
pub open spec fn io_shown_as(error: &std::io::Error, text: String) -> bool {
    vstd::string::to_string_from_display_ensures::<std::io::Error>(error, text)
}

/// Whether the characters `text` are what the `Display` of a failure of the
/// file system shows.
pub open spec fn io_text(error: &std::io::Error, text: Seq<char>) -> bool {
    exists|shown: String| #[trigger] io_shown_as(error, shown) && shown@ == text
}

/// The outcome of a check, with the error seen through its view.
pub open spec fn outcome(checked: Result<(), AppError>) -> Result<(), ErrorView> {
    match checked {
        Ok(_) => Ok(()),
        Err(e) => Err(e@),
    }
}

impl AppError {
    /// The error for a failure of the file system: `IoError` with the text of
    /// the failure, which is what the failure's `Display` shows.
    pub fn from_io(error: &std::io::Error) -> (e: AppError)
        ensures
            e@ is IoError,
            match e {
                AppError::IoError(text) => io_shown_as(error, text),
                _ => false,
            },
    {
        AppError::IoError(error.to_string())
    }

    /// The error for an image that could not be decoded: `ImageReadError` with
    /// the text of the failure, which is what the failure's `Display` shows.
    pub fn from_image(error: &image::ImageError) -> (e: AppError)
        ensures
            e@ is ImageReadError,
            match e {
                AppError::ImageReadError(text) => shown_as(error, text),
                _ => false,
            },
    {
        AppError::ImageReadError(error.to_string())
    }

    /// The text shown for this error.
    pub fn message(&self) -> (text: String)
        ensures
            text@ == message_of(self@),
    {
        match self {
            AppError::UnsupportedFormat(s) => String::from_str("Unsupported image format: ").concat(
                s.as_str(),
            ),
            AppError::ImageNotFound(s) => String::from_str("Image file not found: ").concat(
                s.as_str(),
            ),
            AppError::ImageReadError(s) => String::from_str("Failed to read image: ").concat(
                s.as_str(),
            ),
            AppError::ImageProcessingError(s) => String::from_str(
                "Image processing error: ",
            ).concat(s.as_str()),
            AppError::ImageTooLarge(n) => {
                let size = decimal_string(*n);
                String::from_str("Image file too large: ").concat(size.as_str()).concat(
                    " bytes (max 50 MB)",
                )
            },
            AppError::PdfGenerationError(s) => String::from_str("Failed to generate PDF: ").concat(
                s.as_str(),
            ),
            AppError::IoError(s) => String::from_str("IO error: ").concat(s.as_str()),
            AppError::InvalidDimensions => String::from_str("Invalid custom page dimensions"),
            AppError::NoImages => String::from_str("No images provided"),
        }
    }
}

} // verus!
