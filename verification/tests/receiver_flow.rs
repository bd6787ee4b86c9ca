use screen_ocr::api::ApiStatus;
use screen_ocr::common::TextSubmission;
use screen_ocr::receiver::config::{default_bind, default_max_text_kb, default_storage_dir, ServerConfig, StorageConfig};
use screen_ocr::receiver::ocr::{text_from_output, OcrFailure};
use screen_ocr::receiver::server::{authorize, begin_receipt, body_limit, finish_receipt, PendingReceipt};
use screen_ocr::receiver::storage::text_path;

fn submission(device: &str, text: &str) -> TextSubmission {
    TextSubmission {
        device_id: device.to_string(),
        text: text.to_string(),
        image_sha256: "ab".repeat(32),
        monitor_name: "selected-region:100,200 800x600".to_string(),
        width: 800,
        height: 600,
        local_ocr_ms: 214,
    }
}

#[test]
fn receiver_defaults() {
    assert_eq!(default_bind(), "0.0.0.0:4489");
    assert_eq!(default_max_text_kb(), 1024);
    assert_eq!(default_storage_dir(), "./received");
}

#[test]
fn body_limit_is_kib_times_1024() {
    let cfg = ServerConfig { bind: default_bind(), token: "t".to_string(), max_text_kb: 1024 };
    assert_eq!(body_limit(&cfg), 1024 * 1024);
    let small = ServerConfig { bind: default_bind(), token: "t".to_string(), max_text_kb: 3 };
    assert_eq!(body_limit(&small), 3072);
}

#[test]
fn authorize_accepts_exact_bearer_token() {
    assert_eq!(authorize(Some(b"Bearer secret"), "secret"), Ok(()));
}

#[test]
fn authorize_refuses_everything_else_with_401() {
    for header in [None, Some(&b"Bearer wrong"[..]), Some(&b"bearer secret"[..]), Some(&b"Bearer secret "[..]), Some(&b"Bearersecret"[..]), Some(&b"secret"[..]), Some(&b"Bearer sec\x01ret"[..]), Some(&b"Bearer "[..])] {
        let err = authorize(header, "secret").unwrap_err();
        assert_eq!(err.status, ApiStatus::Unauthorized);
        assert_eq!(err.status.code(), 401);
        assert_eq!(err.message, "missing or invalid bearer token");
    }
}

#[test]
fn authorize_rejects_non_ascii_header_even_if_token_matches() {
    let token = "s\u{e9}cret";
    let mut header = b"Bearer ".to_vec();
    header.extend_from_slice(token.as_bytes());
    assert!(authorize(Some(&header), token).is_err());
}

#[test]
fn begin_receipt_counts_chars_and_issues_v4_id() {
    let sub = submission("dwl-desktop", "h\u{e9}llo \u{1f600}");
    let pending = begin_receipt(Some(b"Bearer tok"), "tok", &sub).unwrap();
    assert_eq!(pending.received_chars, 7);
    assert_eq!((pending.request_id >> 76) & 0xf, 4);
    assert_eq!((pending.request_id >> 62) & 0x3, 2);
    let other = begin_receipt(Some(b"Bearer tok"), "tok", &sub).unwrap();
    assert_ne!(pending.request_id, other.request_id);
}

#[test]
fn begin_receipt_refuses_blank_device_with_400() {
    let sub = submission(" \t\n", "text");
    let err = begin_receipt(Some(b"Bearer tok"), "tok", &sub).unwrap_err();
    assert_eq!(err.status, ApiStatus::BadRequest);
    assert_eq!(err.message, "device_id is empty");
    let (code, body) = err.into_response();
    assert_eq!(code, 400);
    assert_eq!(body.error, "device_id is empty");
}

#[test]
fn begin_receipt_checks_token_before_device() {
    let sub = submission("", "text");
    let err = begin_receipt(None, "tok", &sub).unwrap_err();
    assert_eq!(err.status, ApiStatus::Unauthorized);
}

#[test]
fn text_path_joins_directory_and_request_id() {
    let id: u128 = 0x67e5504410b1426f9247bb680e5fe0c8;
    let on = StorageConfig { save_text: true, directory: "./received".to_string() };
    assert_eq!(text_path(&on, id), Some("./received/67e55044-10b1-426f-9247-bb680e5fe0c8.txt".to_string()));
    let slash = StorageConfig { save_text: true, directory: "/var/ocr/".to_string() };
    assert_eq!(text_path(&slash, id), Some("/var/ocr/67e55044-10b1-426f-9247-bb680e5fe0c8.txt".to_string()));
    let empty = StorageConfig { save_text: true, directory: String::new() };
    assert_eq!(text_path(&empty, id), Some("67e55044-10b1-426f-9247-bb680e5fe0c8.txt".to_string()));
    let off = StorageConfig { save_text: false, directory: "./received".to_string() };
    assert_eq!(text_path(&off, id), None);
}

#[test]
fn text_path_matches_std_path_join() {
    let id: u128 = 0x0123456789abcdef0011223344556677;
    for dir in ["a", "a/", "", "/", "x/y"] {
        let cfg = StorageConfig { save_text: true, directory: dir.to_string() };
        let expected = std::path::PathBuf::from(dir).join(format!("{}.txt", uuid::Uuid::from_u128(id)));
        assert_eq!(text_path(&cfg, id), Some(expected.to_string_lossy().into_owned()));
    }
}

#[test]
fn finish_receipt_echoes_submission() {
    let sub = submission("dwl-desktop", "recognized text");
    let pending = PendingReceipt { request_id: 0x67e5504410b1426f9247bb680e5fe0c8, received_chars: 15 };
    let storage = StorageConfig { save_text: true, directory: "out".to_string() };
    let receipt = finish_receipt(pending, sub.clone(), &storage, Ok(())).unwrap();
    assert_eq!(receipt.request_id, pending.request_id);
    assert_eq!(receipt.device_id, sub.device_id);
    assert_eq!(receipt.text, sub.text);
    assert_eq!(receipt.received_chars, 15);
    assert_eq!(receipt.image_sha256, sub.image_sha256);
    assert_eq!(receipt.text_saved_to, Some("out/67e55044-10b1-426f-9247-bb680e5fe0c8.txt".to_string()));
}

#[test]
fn finish_receipt_without_storage_has_no_path() {
    let sub = submission("dev", "t");
    let pending = PendingReceipt { request_id: 1, received_chars: 1 };
    let storage = StorageConfig { save_text: false, directory: "out".to_string() };
    assert_eq!(finish_receipt(pending, sub, &storage, Ok(())).unwrap().text_saved_to, None);
}

#[test]
fn finish_receipt_write_failure_is_500() {
    let sub = submission("dev", "t");
    let pending = PendingReceipt { request_id: 1, received_chars: 1 };
    let storage = StorageConfig { save_text: true, directory: "out".to_string() };
    let err = finish_receipt(pending, sub, &storage, Err("failed to write out/x.txt".to_string())).unwrap_err();
    assert_eq!(err.status, ApiStatus::InternalServerError);
    assert_eq!(err.message, "failed to write out/x.txt");
    assert_eq!(err.into_response().0, 500);
}

#[test]
fn receiver_ocr_text_is_lossy_and_trimmed() {
    assert_eq!(text_from_output(true, b"  line one\nline two \n", b""), Ok("line one\nline two".to_string()));
    assert_eq!(text_from_output(true, &[b'o', b'k', 0xc3], b""), Ok("ok\u{fffd}".to_string()));
    assert_eq!(text_from_output(false, b"", b" Error opening data file\n"), Err(OcrFailure { stderr: "Error opening data file".to_string() }));
}
