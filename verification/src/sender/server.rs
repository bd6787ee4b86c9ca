//! The sender's trigger endpoint: how a capture becomes a submission, and
//! which status each failure is answered with.

use vstd::prelude::*;
use vstd::string::*;
use crate::api::{status_code, ApiError, ApiStatus};
use crate::common::TextSubmission;
use crate::sender::capture::{CaptureError, CapturedRegion};

verus! {

/// The prefix of the monitor name that a region submission carries.
pub open spec fn region_name_prefix() -> Seq<char> {
    "selected-region:"@
}

/// The submission for the text recognised in `region`: the device id, the
/// text, the image fingerprint, `selected-region:<geometry>` as the monitor
/// name, the region's size and the recognition time.
pub fn submission_for_region(
    device_id: &String,
    text: String,
    region: CapturedRegion,
    local_ocr_ms: u128,
) -> (r: TextSubmission)
    ensures
        r.device_id@ == device_id@,
        r.text == text,
        r.image_sha256 == region.sha256,
        r.monitor_name@ == region_name_prefix() + region.geometry@,
        r.width == region.width,
        r.height == region.height,
        r.local_ocr_ms == local_ocr_ms,
{
    let mut monitor_name = "selected-region:".to_owned();
    monitor_name.append(region.geometry.as_str());
    TextSubmission {
        device_id: device_id.as_str().to_owned(),
        text,
        image_sha256: region.sha256,
        monitor_name,
        width: region.width,
        height: region.height,
        local_ocr_ms,
    }
}

/// The status a failed capture is answered with: a cancelled or failed
/// selection is a conflict; any other capture failure is an internal error.
pub open spec fn capture_failure_status(error: CaptureError) -> ApiStatus {
    if error is SelectionFailed {
        ApiStatus::Conflict
    } else {
        ApiStatus::InternalServerError
    }
}

/// The answer to a failed capture, with `message` as its text.
pub fn capture_failure(error: &CaptureError, message: String) -> (r: ApiError)
    ensures
        r.message == message,
        r.status == capture_failure_status(*error),
{
    match error {
        CaptureError::SelectionFailed { .. } => ApiError::conflict(message),
        _ => ApiError::internal(message),
    }
}

/// A selection that is cancelled (or that `slurp` otherwise fails) is answered
/// with HTTP 409 and its message; every other capture failure with 500.
pub proof fn lemma_cancelled_selection_is_conflict(error: CaptureError)
    ensures
        status_code(capture_failure_status(error)) == if error is SelectionFailed {
            409u16
        } else {
            500u16
        },
{
}

} // verus!
