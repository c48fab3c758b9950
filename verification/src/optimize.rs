//! What is done to an image before it is embedded: which formats are
//! optimised, under what temporary name, and with what settings.

use crate::error::{image_text, AppError, ErrorView};
use crate::text::{ascii_lowercase, optional_text};
use crate::validation::extension_of;
use vstd::prelude::*;

verus! {

/// The quality with which a JPEG is encoded again before it is embedded.
pub const JPEG_QUALITY: u8 = 85;

/// Which chunks of a PNG file are dropped when it is optimised.
#[derive(Debug, Clone, Copy, PartialEq, Eq, Structural)]
pub enum ChunkStripping {
    /// None: every chunk is kept.
    Keep,
    /// Those that do not change how the image looks.
    Safe,
}

/// What is dropped from a PNG before it is embedded: the chunks that do not
/// change how it looks.
pub const PNG_STRIPPING: ChunkStripping = ChunkStripping::Safe;

/// The format of an image as far as optimisation tells formats apart.
#[derive(Debug, Clone, Copy, PartialEq, Eq, Structural)]
pub enum ImageKind {
    Png,
    Jpeg,
    Other,
}

/// What optimising an image comes to.
#[derive(Debug, Clone, Copy, PartialEq, Eq, Structural)]
pub enum OptimizeAction {
    /// Compress the PNG again without loss and strip the chunks that do not
    /// change how it looks.
    StripPng,
    /// Encode the JPEG again with the given quality.
    ReencodeJpeg(u8),
    /// Copy the file as it is.
    CopyFile,
}

/// `oxipng::PngError`, carried to where its text is taken.
#[verifier::external_type_specification]
#[verifier::external_body]
pub struct ExPngError(oxipng::PngError);

/// The format that an extension in lowercase names, if it names one: the
/// extensions that `image` knows.
pub open spec fn named_format(lowered: Seq<char>) -> Option<ImageKind> {
    if lowered == "png"@ || lowered == "apng"@ {
        Some(ImageKind::Png)
    } else if lowered == "jpg"@ || lowered == "jpeg"@ || lowered == "jfif"@ {
        Some(ImageKind::Jpeg)
    } else if lowered == "avif"@ || lowered == "gif"@ || lowered == "webp"@ || lowered == "tif"@
        || lowered == "tiff"@ || lowered == "tga"@ || lowered == "dds"@ || lowered == "bmp"@
        || lowered == "ico"@ || lowered == "hdr"@ || lowered == "exr"@ || lowered == "pbm"@
        || lowered == "pam"@ || lowered == "ppm"@ || lowered == "pgm"@ || lowered == "pnm"@
        || lowered == "ff"@ || lowered == "qoi"@ {
        Some(ImageKind::Other)
    } else {
        None
    }
}

/// The format of a file with the given extension: the one that the extension
/// names whatever the case of its letters from `A` to `Z`, and none without an
/// extension.
pub open spec fn extension_format(extension: Option<Seq<char>>) -> Option<ImageKind> {
    match extension {
        Some(e) => named_format(ascii_lowercase(e)),
        None => None,
    }
}

/// The format that was detected, if one was.
pub open spec fn detected_kind(detected: Result<ImageKind, image::ImageError>) -> Option<
    ImageKind,
> {
    match detected {
        Ok(kind) => Some(kind),
        Err(_) => None,
    }
}

/// The last component of a path as `Path::file_name` finds it, if it finds
/// one.
pub uninterp spec fn file_name_of(path: Seq<char>) -> Option<Seq<char>>;

/// `ImageFormat::from_path`: the format that the path's extension names, told
/// apart as far as `ImageKind` does, or the error for a path without an
/// extension or with one that names no format. The extension is the one that
/// `Path::extension` finds, of which a path without a dot has none;
/// `ImageFormat::from_extension` looks it up in lowercase among the names that
/// `named_format` lists.
#[verifier::external_body]
pub(crate) fn detect_format(path: &str) -> (detected: Result<ImageKind, image::ImageError>)
    ensures
        detected_kind(detected) == extension_format(extension_of(path@)),
        !path@.contains('.') ==> detected is Err,
{
    image::ImageFormat::from_path(path).map(
        |format| match format {
            image::ImageFormat::Png => ImageKind::Png,
            image::ImageFormat::Jpeg => ImageKind::Jpeg,
            _ => ImageKind::Other,
        },
    )
}

/// `Path::file_name`: the last component of the path, if it has one.
#[verifier::external_body]
pub(crate) fn path_file_name(path: &str) -> (name: Option<String>)
    ensures
        optional_text(name) == file_name_of(path@),
{
    std::path::Path::new(path).file_name().and_then(|n| n.to_str()).map(|n| n.to_string())
}

/// The name of the temporary file that holds the optimised copy of an image:
/// `optimized_` and the file's own name, or `temp` where it has none. Only
/// PNG and JPEG files are optimised.
pub open spec fn optimized_name(kind: Option<ImageKind>, file_name: Option<Seq<char>>) -> Option<
    Seq<char>,
> {
    match kind {
        Some(ImageKind::Png) | Some(ImageKind::Jpeg) => Some(
            "optimized_"@ + match file_name {
                Some(name) => name,
                None => "temp"@,
            },
        ),
        _ => None,
    }
}

/// Names the temporary file for the optimised copy of an image of the given
/// format and file name, or says that the image is embedded as it is.
pub fn plan_optimized_image(kind: Option<ImageKind>, file_name: Option<String>) -> (planned: Option<
    String,
>)
    ensures
        optional_text(planned) == optimized_name(kind, optional_text(file_name)),
{
    match kind {
        Some(ImageKind::Png) | Some(ImageKind::Jpeg) => {
            let prefix = String::from_str("optimized_");
            match file_name {
                Some(name) => Some(prefix.concat(name.as_str())),
                None => Some(prefix.concat("temp")),
            }
        },
        _ => None,
    }
}

/// Says whether the image at `path` is optimised before it is embedded, and
/// if so names the temporary file for the optimised copy: by the format that
/// the path's extension names and by the path's file name.
pub fn create_optimized_image(path: &str) -> (planned: Option<String>)
    ensures
        optional_text(planned) == optimized_name(
            extension_format(extension_of(path@)),
            file_name_of(path@),
        ),
{
    let kind = match detect_format(path) {
        Ok(kind) => Some(kind),
        Err(_) => None,
    };
    plan_optimized_image(kind, path_file_name(path))
}

/// Whether `text` is the text of the error for a format that was not
/// detected: that it was not, and what the failure shows.
pub open spec fn undetected_text(error: image::ImageError, text: Seq<char>) -> bool {
    exists|shown: Seq<char>| #[trigger]
        image_text(&error, shown) && text == "Cannot detect image format: "@ + shown
}

/// Whether `chosen` is what optimising comes to after the given detection: a
/// PNG is stripped, a JPEG encoded again with the given quality, a file of
/// another format copied, and a failed detection is an `UnsupportedFormat`
/// whose text is that of `undetected_text`.
pub open spec fn action_chosen(
    detected: Result<ImageKind, image::ImageError>,
    jpeg_quality: u8,
    chosen: Result<OptimizeAction, AppError>,
) -> bool {
    match detected {
        Ok(ImageKind::Png) => chosen == Ok::<OptimizeAction, AppError>(OptimizeAction::StripPng),
        Ok(ImageKind::Jpeg) => chosen == Ok::<OptimizeAction, AppError>(
            OptimizeAction::ReencodeJpeg(jpeg_quality),
        ),
        Ok(ImageKind::Other) => chosen == Ok::<OptimizeAction, AppError>(
            OptimizeAction::CopyFile,
        ),
        Err(error) => chosen matches Err(e) && e@ matches ErrorView::UnsupportedFormat(text)
            && undetected_text(error, text),
    }
}

/// What optimising comes to for a file whose format was detected, or not.
pub fn choose_action(detected: Result<ImageKind, image::ImageError>, jpeg_quality: u8) -> (chosen:
    Result<OptimizeAction, AppError>)
    ensures
        action_chosen(detected, jpeg_quality, chosen),
{
    match detected {
        Ok(ImageKind::Png) => Ok(OptimizeAction::StripPng),
        Ok(ImageKind::Jpeg) => Ok(OptimizeAction::ReencodeJpeg(jpeg_quality)),
        Ok(ImageKind::Other) => Ok(OptimizeAction::CopyFile),
        Err(error) => {
            let shown = error.to_string();
            let text = String::from_str("Cannot detect image format: ").concat(shown.as_str());
            proof {
                assert(crate::error::shown_as(&error, shown) && shown@ == shown@);
                assert(image_text(&error, shown@));
                assert(undetected_text(error, text@));
            }
            Err(AppError::UnsupportedFormat(text))
        },
    }
}

/// What optimising comes to for a file of the given format, or without one:
/// a PNG is stripped, a JPEG encoded again with the given quality, a file of
/// another format copied, and a file of no known format is an error.
pub open spec fn chosen_for(
    format: Option<ImageKind>,
    jpeg_quality: u8,
    chosen: Result<OptimizeAction, AppError>,
) -> bool {
    match format {
        Some(ImageKind::Png) => chosen == Ok::<OptimizeAction, AppError>(OptimizeAction::StripPng),
        Some(ImageKind::Jpeg) => chosen == Ok::<OptimizeAction, AppError>(
            OptimizeAction::ReencodeJpeg(jpeg_quality),
        ),
        Some(ImageKind::Other) => chosen == Ok::<OptimizeAction, AppError>(
            OptimizeAction::CopyFile,
        ),
        None => chosen matches Err(e) && e@ matches ErrorView::UnsupportedFormat(text)
            && "Cannot detect image format: "@.is_prefix_of(text),
    }
}

/// Says what optimising the image at `path` comes to, by the format that its
/// extension names: a PNG is stripped, a JPEG encoded again with the given
/// quality, a file of another format that `image` knows is copied. A path
/// without an extension, or with one that names no format, is an error.
pub fn optimize_image(path: &str, jpeg_quality: u8) -> (chosen: Result<OptimizeAction, AppError>)
    ensures
        chosen_for(extension_format(extension_of(path@)), jpeg_quality, chosen),
        !path@.contains('.') ==> chosen is Err,
{
    let detected = detect_format(path);
    let ghost found = detected;
    let chosen = choose_action(detected, jpeg_quality);
    proof {
        if found is Err {
            let error = found->Err_0;
            let text = chosen->Err_0@->UnsupportedFormat_0;
            let shown = choose|shown: Seq<char>| #[trigger]
                image_text(&error, shown) && text == "Cannot detect image format: "@ + shown;
            assert(text.subrange(0, "Cannot detect image format: "@.len() as int)
                =~= "Cannot detect image format: "@);
        }
    }
    chosen
}

/// The quality that a JPEG encoder is given: what was asked for, kept within
/// 1 and 100.
pub open spec fn clamped_quality(quality: u8) -> u8 {
    if quality < 1 {
        1
    } else if quality > 100 {
        100
    } else {
        quality
    }
}

/// Keeps a JPEG quality within 1 and 100.
pub fn optimize_jpeg(quality: u8) -> (clamped: u8)
    ensures
        clamped == clamped_quality(quality),
        1 <= clamped <= 100,
{
    if quality < 1 {
        1
    } else if quality > 100 {
        100
    } else {
        quality
    }
}

/// Whether the characters `text` are what the `Display` of a failure of the
/// PNG optimiser shows.
pub open spec fn png_text(error: &oxipng::PngError, text: Seq<char>) -> bool {
    exists|shown: String| #[trigger]
        vstd::string::to_string_from_display_ensures::<oxipng::PngError>(error, shown) && shown@
            == text
}

/// Whether `optimized` is what optimising a PNG file comes to, given what the
/// optimiser made of it: the optimised file as it is, or an
/// `ImageProcessingError` that says that the optimisation failed and shows the
/// failure.
pub open spec fn png_outcome(
    recompressed: Result<Vec<u8>, oxipng::PngError>,
    optimized: Result<Vec<u8>, AppError>,
) -> bool {
    match recompressed {
        Ok(bytes) => optimized matches Ok(kept) && kept == bytes,
        Err(error) => optimized matches Err(e) && e@ matches ErrorView::ImageProcessingError(text)
            && exists|shown: Seq<char>| #[trigger]
            png_text(&error, shown) && text == "PNG optimization failed: "@ + shown,
    }
}

/// Says what optimising a PNG file comes to, given what the optimiser made of
/// the file: on success the optimised file, on failure the error that carries
/// the text of the failure. The optimiser itself is called by the caller, with
/// `PNG_STRIPPING`: it panics on some malformed files, and no function of this
/// library does.
pub fn optimize_png(recompressed: Result<Vec<u8>, oxipng::PngError>) -> (optimized: Result<
    Vec<u8>,
    AppError,
>)
    ensures
        png_outcome(recompressed, optimized),
{
    match recompressed {
        Ok(bytes) => Ok(bytes),
        Err(error) => {
            let shown = error.to_string();
            let text = String::from_str("PNG optimization failed: ").concat(shown.as_str());
            proof {
                assert(vstd::string::to_string_from_display_ensures::<oxipng::PngError>(
                    &error,
                    shown,
                ) && shown@ == shown@);
                assert(png_text(&error, shown@));
            }
            Err(AppError::ImageProcessingError(text))
        },
    }
}

} // verus!
