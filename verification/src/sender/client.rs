//! How the sender judges the receiver's reply to a submission.

use vstd::prelude::*;
use crate::decode::{lossy_text, lossy_utf8};

verus! {

/// A reply outside the 2xx range, with the message to report for it.
#[derive(Debug, Clone, PartialEq, Eq)]
pub struct ReplyError {
    pub status: u16,
    pub message: String,
}

/// Whether an HTTP status is a success (200..=299).
pub open spec fn is_success_status(status: u16) -> bool {
    200 <= status < 300
}

/// The message reported for a refused submission: the `error` field of the
/// reply's JSON body when it has one, else the body decoded leniently.
pub open spec fn reply_message(error_field: Option<String>, body: Seq<u8>) -> Seq<char> {
    match error_field {
        Some(e) => e@,
        None => lossy_utf8(body),
    }
}

/// Judges a reply by its status: a success lets the caller read the receipt
/// from the body; anything else is an error that carries the status and
/// the reply's message. `error_field` is the `error` of the body read as an
/// error response, if it reads as one.
pub fn check_reply(status: u16, error_field: Option<String>, body: &[u8]) -> (r: Result<
    (),
    ReplyError,
>)
    ensures
        r is Ok <==> is_success_status(status),
        200 <= status <= 299 ==> r is Ok,
        status < 200 || status > 299 ==> (r matches Err(e) && e.status == status),
        r matches Err(e) ==> e.status == status && e.message@ == reply_message(error_field, body@),
{
    if 200 <= status && status < 300 {
        return Ok(());
    }
    let message = match error_field {
        Some(e) => e,
        None => lossy_text(body),
    };
    Err(ReplyError { status, message })
}

/// The success statuses are exactly 200 through 299: every other status, such
/// as 400, 413 or 500, is a refusal.
pub proof fn lemma_success_statuses(status: u16)
    ensures
        is_success_status(status) <==> 200 <= status <= 299,
        status < 200 || status >= 300 ==> !is_success_status(status),
{
}

} // verus!
