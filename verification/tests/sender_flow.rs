use std::time::Duration;

use screen_ocr::api::ApiStatus;
use screen_ocr::digest::image_digest;
use screen_ocr::sender::capture::{CaptureError, CapturedRegion};
use screen_ocr::sender::client::{check_reply, ReplyError};
use screen_ocr::sender::config::{
    default_format, default_interval_ms, default_jpeg_quality, default_timeout_secs, default_true, ServerConfig,
};
use screen_ocr::sender::ocr::{text_from_output, OcrError};
use screen_ocr::sender::server::{capture_failure, submission_for_region};
use screen_ocr::sender::watch::{capture_interval_ms, FrameFilter, MIN_INTERVAL_MS};

fn server(url: &str) -> ServerConfig {
    ServerConfig { url: url.to_string(), token: "tok".to_string(), timeout_secs: 30 }
}

#[test]
fn sender_defaults() {
    assert!(default_true());
    assert_eq!(default_timeout_secs(), 30);
    assert_eq!(default_format(), "png");
    assert_eq!(default_jpeg_quality(), 90);
    assert_eq!(default_interval_ms(), 1000);
}

#[test]
fn timeout_is_configured_seconds() {
    assert_eq!(server("http://h").timeout(), Duration::from_secs(30));
    let mut s = server("http://h");
    s.timeout_secs = 5;
    assert_eq!(s.timeout(), Duration::from_secs(5));
}

#[test]
fn endpoint_urls_drop_trailing_slashes() {
    assert_eq!(server("http://192.168.1.10:4489").ocr_url(), "http://192.168.1.10:4489/v1/ocr");
    assert_eq!(server("http://192.168.1.10:4489//").ocr_url(), "http://192.168.1.10:4489/v1/ocr");
    assert_eq!(server("http://192.168.1.10:4489/").text_url(), "http://192.168.1.10:4489/v1/text");
    assert_eq!(server("").text_url(), "/v1/text");
}

#[test]
fn image_digest_of_empty_image() {
    assert_eq!(image_digest(b""), "e3b0c44298fc1c149afbf4c8996fb92427ae41e4649b934ca495991b7852b855");
}

#[test]
fn check_reply_accepts_2xx_only() {
    assert_eq!(check_reply(200, None, b"{}"), Ok(()));
    assert_eq!(check_reply(299, None, b""), Ok(()));
    assert_eq!(
        check_reply(401, Some("missing or invalid bearer token".to_string()), b"{\"error\":\"missing or invalid bearer token\"}"),
        Err(ReplyError { status: 401, message: "missing or invalid bearer token".to_string() })
    );
    assert_eq!(check_reply(502, None, b"Bad Gateway"), Err(ReplyError { status: 502, message: "Bad Gateway".to_string() }));
    assert_eq!(check_reply(199, None, b"x"), Err(ReplyError { status: 199, message: "x".to_string() }));
    assert_eq!(check_reply(300, None, &[0x80]), Err(ReplyError { status: 300, message: "\u{fffd}".to_string() }));
}

#[test]
fn sender_ocr_requires_utf8_and_trims() {
    assert_eq!(text_from_output(true, b"\n Hello\n".to_vec(), b""), Ok("Hello".to_string()));
    assert_eq!(text_from_output(true, vec![0xff], b""), Err(OcrError::NotUtf8));
    assert_eq!(text_from_output(false, b"partial".to_vec(), b" failed\n"), Err(OcrError::Failed { stderr: "failed".to_string() }));
}

#[test]
fn submission_names_the_selected_region() {
    let region = CapturedRegion {
        png: vec![1, 2, 3],
        sha256: "ab".repeat(32),
        geometry: "100,200 800x600".to_string(),
        width: 800,
        height: 600,
    };
    let sub = submission_for_region(&"dwl-desktop".to_string(), "recognized text".to_string(), region, 214);
    assert_eq!(sub.device_id, "dwl-desktop");
    assert_eq!(sub.text, "recognized text");
    assert_eq!(sub.image_sha256, "ab".repeat(32));
    assert_eq!(sub.monitor_name, "selected-region:100,200 800x600");
    assert_eq!((sub.width, sub.height, sub.local_ocr_ms), (800, 600, 214));
}

#[test]
fn cancelled_selection_is_answered_with_409() {
    let cancel = capture_failure(&CaptureError::SelectionFailed { stderr: "cancelled".to_string() }, "region selection cancelled or slurp failed: cancelled".to_string());
    assert_eq!(cancel.status, ApiStatus::Conflict);
    let (code, body) = cancel.into_response();
    assert_eq!(code, 409);
    assert_eq!(body.error, "region selection cancelled or slurp failed: cancelled");
    let other = capture_failure(&CaptureError::EmptyImage, "grim returned an empty PNG".to_string());
    assert_eq!(other.status, ApiStatus::InternalServerError);
    assert_eq!(other.into_response().0, 500);
}

#[test]
fn capture_interval_has_a_floor() {
    assert_eq!(MIN_INTERVAL_MS, 50);
    assert_eq!(capture_interval_ms(1000), 1000);
    assert_eq!(capture_interval_ms(10), 50);
    assert_eq!(capture_interval_ms(0), 50);
    assert_eq!(capture_interval_ms(50), 50);
}

#[test]
fn frame_filter_skips_unchanged_frames() {
    let mut filter = FrameFilter::new();
    assert!(filter.should_send(false, "aa".to_string()));
    assert!(!filter.should_send(false, "aa".to_string()));
    assert!(filter.should_send(false, "bb".to_string()));
    assert!(filter.should_send(false, "aa".to_string()));
    assert!(filter.should_send(true, "aa".to_string()));
    assert!(!filter.should_send(false, "aa".to_string()));
}
