//! What the receiver makes of a finished recognition process: its text,
//! decoded leniently and trimmed, or the failure it reported.

use vstd::prelude::*;
use crate::decode::{lossy_text, lossy_utf8};
use crate::text::{trim, trimmed};

verus! {

/// A recognition process that exited unsuccessfully, with its trimmed
/// error output.
#[derive(Debug, Clone, PartialEq, Eq)]
pub struct OcrFailure {
    pub stderr: String,
}

/// The recognised text of a finished process: on success its output decoded
/// leniently (invalid UTF-8 replaced) and trimmed; otherwise the trimmed,
/// leniently decoded error output.
pub fn text_from_output(success: bool, stdout: &[u8], stderr: &[u8]) -> (r: Result<
    String,
    OcrFailure,
>)
    ensures
        r is Ok <==> success,
        r matches Ok(text) ==> text@ == trimmed(lossy_utf8(stdout@)),
        r matches Err(f) ==> f.stderr@ == trimmed(lossy_utf8(stderr@)),
{
    if !success {
        let err = lossy_text(stderr);
        return Err(OcrFailure { stderr: trim(err.as_str()).to_owned() });
    }
    let out = lossy_text(stdout);
    Ok(trim(out.as_str()).to_owned())
}

} // verus!
