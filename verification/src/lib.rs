//! Images to a paginated PDF: the page geometry, the validation rules and the
//! object graph of the document, with the contracts that Verus proves of them.

pub mod text;
pub mod error;
pub mod objects;
pub mod document;
pub mod builder;
pub mod validation;
pub mod geometry;
pub mod optimize;
pub mod generation;
pub mod images;

pub use builder::{serialize, Builder, DecodedImage, PageBox, Placement, MAX_PAGES};
pub use error::AppError;
pub use generation::GenerationResult;
pub use geometry::{custom_dimensions, FitMode, Orientation, PageSize};
pub use images::{get_image_info, validate_images, ImageInfo, InvalidImage, ValidationResult};
pub use optimize::{
    choose_action, create_optimized_image, optimize_image, optimize_jpeg, optimize_png,
    plan_optimized_image, ChunkStripping, ImageKind, OptimizeAction, JPEG_QUALITY, PNG_STRIPPING,
};
pub use validation::{
    is_supported_format, validate_extension, validate_file_exists, validate_file_size, validate_image,
    validate_image_format, FileFacts, MAX_FILE_SIZE,
};
