//! The result of a generation as the caller sees it.

use crate::error::{message_of, AppError};
use vstd::prelude::*;

verus! {

/// How a generation ended: whether it succeeded, where the document was
/// written if it did, and what went wrong if it did not.
#[derive(Debug)]
pub struct GenerationResult {
    pub success: bool,
    pub output_path: Option<String>,
    pub error: Option<String>,
}

impl GenerationResult {
    /// Reports how a generation ended: on success the output path and no
    /// error, on failure the error's text and no path.
    pub fn from_outcome(outcome: &Result<(), AppError>, output_path: String) -> (report:
        GenerationResult)
        ensures
            match *outcome {
                Ok(_) => {
                    &&& report.success
                    &&& report.output_path == Some(output_path)
                    &&& report.error is None
                },
                Err(e) => {
                    &&& !report.success
                    &&& report.output_path is None
                    &&& report.error matches Some(text)
                    &&& text@ == message_of(e@)
                },
            },
    {
        match outcome {
            Ok(_) => GenerationResult {
                success: true,
                output_path: Some(output_path),
                error: None,
            },
            Err(e) => GenerationResult {
                success: false,
                output_path: None,
                error: Some(e.message()),
            },
        }
    }
}

} // verus!
