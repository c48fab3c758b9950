//! The checks that a file passes before it is taken as an image: it exists,
//! its extension names a supported format, and it is not too large.

use crate::error::{io_text, outcome, AppError, ErrorView};
use crate::text::{
    ascii_lowercase, ascii_only, lowercase, optional_text, reads_as, to_lowercase,
};
use vstd::prelude::*;

verus! {

/// The most bytes that an image file may hold: 50 MiB.
pub const MAX_FILE_SIZE: u64 = 50 * 1024 * 1024;

/// What the file system told of a file: whether it exists, and its size in
/// bytes or why the size could not be had.
pub struct FileFacts {
    pub present: bool,
    pub size: Result<u64, std::io::Error>,
}

/// The extension that `Path::extension` finds in a path, if it finds one.
pub uninterp spec fn extension_of(path: Seq<char>) -> Option<Seq<char>>;

/// What `std` may find as the extension of a path: none where the path holds
/// no dot, and never one with a dot in it.
pub open spec fn possible_extension(path: Seq<char>, extension: Option<Seq<char>>) -> bool {
    &&& !path.contains('.') ==> extension is None
    &&& extension matches Some(e) ==> !e.contains('.')
}

/// `Path::extension`: the extension of the path's file name, if it has one. An
/// extension is what follows the last dot of the file name, so it holds no
/// dot, and a path without a dot has none.
#[verifier::external_body]
pub(crate) fn path_extension(path: &str) -> (extension: Option<String>)
    ensures
        optional_text(extension) == extension_of(path@),
        possible_extension(path@, optional_text(extension)),
{
    std::path::Path::new(path).extension().and_then(|e| e.to_str()).map(|e| e.to_string())
}

/// Whether an extension, in lowercase, names a supported image format.
pub open spec fn is_supported(extension: Seq<char>) -> bool {
    ||| extension == "png"@
    ||| extension == "jpg"@
    ||| extension == "jpeg"@
    ||| extension == "webp"@
    ||| extension == "bmp"@
    ||| extension == "gif"@
    ||| extension == "tiff"@
    ||| extension == "tif"@
}

/// The verdict on a file's extension: it must be there and, in lowercase, name
/// a supported format.
pub open spec fn format_verdict(extension: Option<Seq<char>>) -> Result<(), ErrorView> {
    match extension {
        None => Err(ErrorView::UnsupportedFormat("No file extension"@)),
        Some(e) => lowered_verdict(lowercase(e)),
    }
}

/// The verdict on an extension given its lowercase form.
pub open spec fn lowered_verdict(lowered: Seq<char>) -> Result<(), ErrorView> {
    if is_supported(lowered) {
        Ok(())
    } else {
        Err(
            ErrorView::UnsupportedFormat(
                "."@ + lowered + " (supported: png, jpg, jpeg, webp, bmp, gif, tiff, tif)"@,
            ),
        )
    }
}

/// Whether an extension, if there is one, holds characters of ASCII only.
pub open spec fn plain(extension: Option<Seq<char>>) -> bool {
    match extension {
        Some(e) => ascii_only(e),
        None => true,
    }
}

/// The verdict on an extension of ASCII characters, written out: its
/// lowercase form is the one with the letters `A` to `Z` made small.
pub open spec fn plain_verdict(extension: Option<Seq<char>>) -> Result<(), ErrorView> {
    match extension {
        None => Err(ErrorView::UnsupportedFormat("No file extension"@)),
        Some(e) => lowered_verdict(ascii_lowercase(e)),
    }
}

/// The verdict on whether a file is there.
pub open spec fn presence_verdict(path: Seq<char>, present: bool) -> Result<(), ErrorView> {
    if present {
        Ok(())
    } else {
        Err(ErrorView::ImageNotFound(path))
    }
}

/// The verdict on a file's size.
pub open spec fn size_verdict(size: u64) -> Result<(), ErrorView> {
    if size > MAX_FILE_SIZE {
        Err(ErrorView::ImageTooLarge(size))
    } else {
        Ok(())
    }
}

/// Whether `verdict` is the one on a file's size as the file system gave it:
/// that of `size_verdict` for a size, and where the size could not be had an
/// `IoError` with the text of the failure.
pub open spec fn size_outcome(
    size: Result<u64, std::io::Error>,
    verdict: Result<(), ErrorView>,
) -> bool {
    match size {
        Ok(n) => verdict == size_verdict(n),
        Err(error) => verdict matches Err(e) && e matches ErrorView::IoError(text) && io_text(
            &error,
            text,
        ),
    }
}

/// Whether `verdict` is the one on a file that exists and has the given
/// extension: the extension is judged first, the size after.
pub open spec fn verdict_with(
    extension: Option<Seq<char>>,
    facts: FileFacts,
    verdict: Result<(), ErrorView>,
) -> bool {
    if format_verdict(extension) is Err {
        verdict == format_verdict(extension)
    } else {
        size_outcome(facts.size, verdict)
    }
}

/// Whether `verdict` is the one on the file at `path`: a file that does not
/// exist is not found; one that exists is judged by the extension of its path
/// first and by its size after.
pub open spec fn image_verdict(
    path: Seq<char>,
    facts: FileFacts,
    verdict: Result<(), ErrorView>,
) -> bool {
    if !facts.present {
        verdict == presence_verdict(path, false)
    } else {
        verdict_with(extension_of(path), facts, verdict)
    }
}

/// Whether `verdict` refuses a file for its format where the file exists and
/// its extension, of ASCII characters, names no supported format whatever the
/// case of its letters: so it is with `txt`, and the size is not looked at.
pub open spec fn refused_for_format(
    path: Seq<char>,
    facts: FileFacts,
    verdict: Result<(), ErrorView>,
) -> bool {
    facts.present && plain(extension_of(path)) && plain_verdict(extension_of(path)) is Err
        ==> verdict == plain_verdict(extension_of(path))
}

/// A file that exists and whose extension names no supported format is
/// refused for its format, whatever its size and whether or not the size could
/// be had.
pub proof fn lemma_format_before_size(
    path: Seq<char>,
    facts: FileFacts,
    verdict: Result<(), ErrorView>,
)
    requires
        facts.present,
        format_verdict(extension_of(path)) is Err,
        image_verdict(path, facts, verdict),
    ensures
        verdict == format_verdict(extension_of(path)),
        verdict matches Err(e) && e is UnsupportedFormat,
{
}

/// A file that does not exist is not found, whatever its path and size.
pub proof fn lemma_missing_file(path: Seq<char>, facts: FileFacts, verdict: Result<(), ErrorView>)
    requires
        !facts.present,
        image_verdict(path, facts, verdict),
    ensures
        verdict == Err::<(), ErrorView>(ErrorView::ImageNotFound(path)),
{
}

/// Whether a lowercase extension names a supported image format.
pub fn is_supported_format(lowered: &str) -> (supported: bool)
    ensures
        supported == is_supported(lowered@),
{
    let lowered = String::from_str(lowered);
    reads_as(&lowered, "png") || reads_as(&lowered, "jpg") || reads_as(&lowered, "jpeg")
        || reads_as(&lowered, "webp") || reads_as(&lowered, "bmp") || reads_as(&lowered, "gif")
        || reads_as(&lowered, "tiff") || reads_as(&lowered, "tif")
}

/// Checks an extension: it must be there and, in lowercase, name a supported
/// format. For an extension of ASCII characters the lowercase form is the
/// one with the letters `A` to `Z` made small.
pub fn validate_extension(extension: Option<String>) -> (checked: Result<(), AppError>)
    ensures
        outcome(checked) == format_verdict(optional_text(extension)),
        plain(optional_text(extension)) ==> outcome(checked) == plain_verdict(
            optional_text(extension),
        ),
{
    match extension {
        None => Err(AppError::UnsupportedFormat(String::from_str("No file extension"))),
        Some(e) => {
            let lowered = to_lowercase(e.as_str());
            if is_supported_format(lowered.as_str()) {
                Ok(())
            } else {
                let text = String::from_str(".").concat(lowered.as_str()).concat(
                    " (supported: png, jpg, jpeg, webp, bmp, gif, tiff, tif)",
                );
                Err(AppError::UnsupportedFormat(text))
            }
        },
    }
}

/// Checks that the extension of `path` names a supported image format,
/// whatever the letters' case. A path without a dot has no extension.
pub fn validate_image_format(path: &str) -> (checked: Result<(), AppError>)
    ensures
        outcome(checked) == format_verdict(extension_of(path@)),
        !path@.contains('.') ==> outcome(checked) == format_verdict(None),
        plain(extension_of(path@)) ==> outcome(checked) == plain_verdict(extension_of(path@)),
{
    validate_extension(path_extension(path))
}

/// Checks that a file is no larger than `MAX_FILE_SIZE`, given its size or why
/// the size could not be had.
pub fn validate_file_size(size: &Result<u64, std::io::Error>) -> (checked: Result<(), AppError>)
    ensures
        size_outcome(*size, outcome(checked)),
{
    match size {
        Ok(n) => {
            if *n > MAX_FILE_SIZE {
                Err(AppError::ImageTooLarge(*n))
            } else {
                Ok(())
            }
        },
        Err(error) => {
            let failed = AppError::from_io(error);
            proof {
                let text = failed->IoError_0;
                assert(crate::error::io_shown_as(error, text) && text@ == text@);
                assert(io_text(error, text@));
            }
            Err(failed)
        },
    }
}

/// Checks that the file at `path` exists, given whether it does.
pub fn validate_file_exists(path: &str, present: bool) -> (checked: Result<(), AppError>)
    ensures
        outcome(checked) == presence_verdict(path@, present),
{
    if !present {
        return Err(AppError::ImageNotFound(String::from_str(path)));
    }
    Ok(())
}

/// Checks a file in full: that it exists, then the extension of its path,
/// then its size. The first check that fails gives the error.
pub fn validate_image(path: &str, facts: &FileFacts) -> (checked: Result<(), AppError>)
    ensures
        image_verdict(path@, *facts, outcome(checked)),
        refused_for_format(path@, *facts, outcome(checked)),
{
    match validate_file_exists(path, facts.present) {
        Err(e) => {
            return Err(e);
        },
        Ok(_) => {},
    }
    match validate_image_format(path) {
        Err(e) => {
            return Err(e);
        },
        Ok(_) => {},
    }
    validate_file_size(&facts.size)
}

} // verus!
