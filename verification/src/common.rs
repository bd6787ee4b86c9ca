//! The messages that sender and receiver exchange.

use vstd::prelude::*;

verus! {

/// Recognised text, with what the sender knows about the capture it came from.
#[derive(Debug, Clone, PartialEq, Eq)]
pub struct TextSubmission {
    pub device_id: String,
    pub text: String,
    pub image_sha256: String,
    pub monitor_name: String,
    pub width: u32,
    pub height: u32,
    pub local_ocr_ms: u128,
}

/// The receiver's answer to an accepted submission. `request_id` is the
/// 128-bit value of the request's UUID.
#[derive(Debug, Clone, PartialEq, Eq)]
pub struct TextReceipt {
    pub request_id: u128,
    pub device_id: String,
    pub text: String,
    pub received_chars: usize,
    pub image_sha256: String,
    pub text_saved_to: Option<String>,
}

/// The body of an error answer.
#[derive(Debug, Clone, PartialEq, Eq)]
pub struct ErrorResponse {
    pub error: String,
}

} // verus!
