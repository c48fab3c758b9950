//! What is told of image files before a document is made of them: which of
//! them pass the checks, and the size and format of one.

use crate::error::{message_of, outcome, ErrorView};
use crate::text::{ascii_uppercase, to_uppercase, uppercase};
use crate::validation::{
    extension_of, image_verdict, path_extension, plain, validate_image, FileFacts,
};
use vstd::prelude::*;

verus! {

/// The size and format of an image.
#[derive(Debug)]
pub struct ImageInfo {
    pub width: u32,
    pub height: u32,
    pub format: String,
    pub size_bytes: u64,
}

/// The files that passed the checks and those that did not, each list in the
/// order in which the files were given.
#[derive(Debug)]
pub struct ValidationResult {
    pub valid: Vec<String>,
    pub invalid: Vec<InvalidImage>,
}

/// A file that did not pass, with the text of the error.
#[derive(Debug)]
pub struct InvalidImage {
    pub path: String,
    pub error: String,
}

impl ValidationResult {
    /// The paths that passed, as texts.
    pub open spec fn valid_paths(&self) -> Seq<Seq<char>> {
        self.valid@.map_values(|path: String| path@)
    }

    /// The paths that did not pass, each with the text of its error.
    pub open spec fn invalid_paths(&self) -> Seq<(Seq<char>, Seq<char>)> {
        self.invalid@.map_values(|image: InvalidImage| (image.path@, image.error@))
    }
}

/// One verdict for each file, each of them the one that the checks give.
pub open spec fn image_verdicts(
    files: Seq<(String, FileFacts)>,
    verdicts: Seq<Result<(), ErrorView>>,
) -> bool {
    &&& verdicts.len() == files.len()
    &&& forall|i: int|
        0 <= i < files.len() ==> image_verdict(files[i].0@, files[i].1, #[trigger] verdicts[i])
}

/// The paths of the files whose verdict is `Ok`, in order.
pub open spec fn accepted(
    files: Seq<(String, FileFacts)>,
    verdicts: Seq<Result<(), ErrorView>>,
) -> Seq<Seq<char>>
    decreases files.len(),
{
    if files.len() == 0 || verdicts.len() != files.len() {
        Seq::empty()
    } else {
        let before = accepted(files.drop_last(), verdicts.drop_last());
        match verdicts.last() {
            Ok(_) => before.push(files.last().0@),
            Err(_) => before,
        }
    }
}

/// The paths of the files whose verdict is an error, each with the error's
/// text, in order.
pub open spec fn rejected(
    files: Seq<(String, FileFacts)>,
    verdicts: Seq<Result<(), ErrorView>>,
) -> Seq<(Seq<char>, Seq<char>)>
    decreases files.len(),
{
    if files.len() == 0 || verdicts.len() != files.len() {
        Seq::empty()
    } else {
        let before = rejected(files.drop_last(), verdicts.drop_last());
        match verdicts.last() {
            Ok(_) => before,
            Err(e) => before.push((files.last().0@, message_of(e))),
        }
    }
}

/// Checks each file and sorts the paths into those that passed and those that
/// did not, keeping the order in which they were given. A file that does not
/// pass is listed with the text of its error.
pub fn validate_images(files: &Vec<(String, FileFacts)>) -> (sorted: ValidationResult)
    ensures
        exists|verdicts: Seq<Result<(), ErrorView>>| #[trigger]
            image_verdicts(files@, verdicts) && sorted.valid_paths() == accepted(
                files@,
                verdicts,
            ) && sorted.invalid_paths() == rejected(files@, verdicts),
        sorted.valid@.len() + sorted.invalid@.len() == files@.len(),
{
    let mut sorted = ValidationResult { valid: Vec::new(), invalid: Vec::new() };
    let ghost mut verdicts: Seq<Result<(), ErrorView>> = Seq::empty();
    let mut i: usize = 0;
    proof {
        assert(sorted.valid_paths() =~= accepted(files@.take(0), verdicts));
        assert(sorted.invalid_paths() =~= rejected(files@.take(0), verdicts));
    }
    while i < files.len()
        invariant
            i <= files@.len(),
            image_verdicts(files@.take(i as int), verdicts),
            sorted.valid_paths() == accepted(files@.take(i as int), verdicts),
            sorted.invalid_paths() == rejected(files@.take(i as int), verdicts),
            sorted.valid@.len() + sorted.invalid@.len() == i,
        decreases files@.len() - i,
    {
        let file = &files[i];
        let checked = validate_image(file.0.as_str(), &file.1);
        let ghost earlier = verdicts;
        let ghost was_valid = sorted.valid_paths();
        let ghost was_invalid = sorted.invalid_paths();
        proof {
            verdicts = verdicts.push(outcome(checked));
            assert(files@.take(i as int + 1).drop_last() =~= files@.take(i as int));
            assert(verdicts.drop_last() =~= earlier);
            assert(files@.take(i as int + 1).last() == files@[i as int]);
            assert forall|j: int| 0 <= j < i + 1 implies image_verdict(
                files@.take(i as int + 1)[j].0@,
                files@.take(i as int + 1)[j].1,
                #[trigger] verdicts[j],
            ) by {
                if j < i {
                    assert(verdicts[j] == earlier[j]);
                    assert(files@.take(i as int)[j] == files@.take(i as int + 1)[j]);
                }
            }
        }
        match checked {
            Ok(_) => {
                sorted.valid.push(file.0.clone());
                proof {
                    assert(sorted.valid_paths() =~= was_valid.push(file.0@));
                    assert(sorted.invalid_paths() =~= was_invalid);
                }
            },
            Err(e) => {
                sorted.invalid.push(InvalidImage { path: file.0.clone(), error: e.message() });
                proof {
                    assert(sorted.invalid_paths() =~= was_invalid.push((file.0@, message_of(e@))));
                    assert(sorted.valid_paths() =~= was_valid);
                }
            },
        }
        i = i + 1;
    }
    proof {
        assert(files@.take(i as int) =~= files@);
    }
    sorted
}

/// The format shown for a file with the given extension: the extension in
/// uppercase, or `UNKNOWN` in uppercase where there is none.
pub open spec fn format_label(extension: Option<Seq<char>>) -> Seq<char> {
    match extension {
        Some(e) => uppercase(e),
        None => uppercase("unknown"@),
    }
}

/// The format shown for a file with an extension of ASCII characters, written
/// out: its uppercase form is the one with the letters `a` to `z` made
/// capitals.
pub open spec fn plain_label(extension: Option<Seq<char>>) -> Seq<char> {
    match extension {
        Some(e) => ascii_uppercase(e),
        None => ascii_uppercase("unknown"@),
    }
}

/// Describes an image: its size in pixels and in bytes as given, and as its
/// format the extension of its path in uppercase.
pub fn get_image_info(path: &str, width: u32, height: u32, size_bytes: u64) -> (info: ImageInfo)
    ensures
        info.width == width,
        info.height == height,
        info.size_bytes == size_bytes,
        info.format@ == format_label(extension_of(path@)),
        !path@.contains('.') ==> info.format@ == format_label(None),
        plain(extension_of(path@)) ==> info.format@ == plain_label(extension_of(path@)),
{
    let extension = path_extension(path);
    proof {
        reveal_strlit("unknown");
    }
    let format = match extension {
        Some(e) => to_uppercase(e.as_str()),
        None => to_uppercase("unknown"),
    };
    ImageInfo { width, height, format, size_bytes }
}

} // verus!
