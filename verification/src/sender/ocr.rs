//! What the sender makes of a finished recognition process: its text,
//! which must be UTF-8, trimmed; or the failure it reported.

use vstd::prelude::*;
use vstd::utf8::*;
use crate::decode::{lossy_text, lossy_utf8, utf8_text};
use crate::text::{trim, trimmed};

verus! {

/// Why recognition produced no text.
#[derive(Debug, Clone, PartialEq, Eq)]
pub enum OcrError {
    /// The process exited unsuccessfully; its trimmed error output.
    Failed { stderr: String },
    /// The process printed bytes that are not UTF-8.
    NotUtf8,
}

/// The recognised text of a finished process: on success its output, which
/// must be valid UTF-8, trimmed; otherwise its trimmed error output.
pub fn text_from_output(success: bool, stdout: Vec<u8>, stderr: &[u8]) -> (r: Result<
    String,
    OcrError,
>)
    ensures
        !success ==> (r matches Err(OcrError::Failed { stderr: s }) && s@ == trimmed(
            lossy_utf8(stderr@),
        )),
        success && !valid_utf8(stdout@) ==> r == Err::<String, OcrError>(OcrError::NotUtf8),
        success && valid_utf8(stdout@) ==> (r matches Ok(text) && text@ == trimmed(
            decode_utf8(stdout@),
        )),
{
    if !success {
        let err = lossy_text(stderr);
        return Err(OcrError::Failed { stderr: trim(err.as_str()).to_owned() });
    }
    match utf8_text(stdout) {
        Some(text) => Ok(trim(text.as_str()).to_owned()),
        None => Err(OcrError::NotUtf8),
    }
}

} // verus!
