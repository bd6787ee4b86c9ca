use screen_ocr::sender::capture::{finish_capture, parse_geometry, read_selection, CaptureError, Selection};

#[test]
fn parse_geometry_reads_width_and_height() {
    assert_eq!(parse_geometry("100,200 800x600"), Ok((800, 600)));
    assert_eq!(parse_geometry("0,0 1x1"), Ok((1, 1)));
    assert_eq!(parse_geometry("1,2 +3x4"), Ok((3, 4)));
    assert_eq!(parse_geometry("x y +3x4"), Err(CaptureError::InvalidWidth));
}

#[test]
fn parse_geometry_reports_each_failure() {
    assert_eq!(parse_geometry("100,200"), Err(CaptureError::InvalidGeometry { geometry: "100,200".to_string() }));
    assert_eq!(parse_geometry("1,2 800-600"), Err(CaptureError::InvalidSize { size: "800-600".to_string() }));
    assert_eq!(parse_geometry("1,2 abcx600"), Err(CaptureError::InvalidWidth));
    assert_eq!(parse_geometry("1,2 800x"), Err(CaptureError::InvalidHeight));
    assert_eq!(parse_geometry("1,2 800x600x2"), Err(CaptureError::InvalidHeight));
    assert_eq!(parse_geometry("1,2 0x600"), Err(CaptureError::ZeroSize));
    assert_eq!(parse_geometry("1,2 800x0"), Err(CaptureError::ZeroSize));
    assert_eq!(parse_geometry("1,2 4294967296x1"), Err(CaptureError::InvalidWidth));
}

#[test]
fn read_selection_trims_and_parses_output() {
    let sel = read_selection(true, b"  10,20 640x480\n".to_vec(), b"").unwrap();
    assert_eq!(sel, Selection { geometry: "10,20 640x480".to_string(), width: 640, height: 480 });
}

#[test]
fn read_selection_reports_cancel_with_trimmed_stderr() {
    let r = read_selection(false, Vec::new(), b"  selection cancelled\n");
    assert_eq!(r, Err(CaptureError::SelectionFailed { stderr: "selection cancelled".to_string() }));
}

#[test]
fn read_selection_rejects_non_utf8() {
    assert_eq!(read_selection(true, vec![0xff, 0xfe], b""), Err(CaptureError::GeometryNotUtf8));
}

#[test]
fn read_selection_rejects_bad_geometry() {
    assert_eq!(read_selection(true, b"garbage\n".to_vec(), b""), Err(CaptureError::InvalidGeometry { geometry: "garbage".to_string() }));
}

#[test]
fn finish_capture_fingerprints_the_image() {
    let sel = Selection { geometry: "1,2 3x4".to_string(), width: 3, height: 4 };
    let region = finish_capture(sel, true, b"abc".to_vec(), b"").unwrap();
    assert_eq!(region.sha256, "ba7816bf8f01cfea414140de5dae2223b00361a396177a9cb410ff61f20015ad");
    assert_eq!(region.png, b"abc".to_vec());
    assert_eq!(region.geometry, "1,2 3x4");
    assert_eq!((region.width, region.height), (3, 4));
}

#[test]
fn finish_capture_rejects_empty_image_and_failure() {
    let sel = Selection { geometry: "1,2 3x4".to_string(), width: 3, height: 4 };
    assert_eq!(finish_capture(sel.clone(), true, Vec::new(), b""), Err(CaptureError::EmptyImage));
    assert_eq!(
        finish_capture(sel, false, b"abc".to_vec(), b"\tno output\n"),
        Err(CaptureError::CaptureFailed { stderr: "no output".to_string() })
    );
}

#[test]
fn lossy_stderr_replaces_invalid_bytes() {
    let r = read_selection(false, Vec::new(), &[b'b', b'a', b'd', 0xff, b' ']);
    assert_eq!(r, Err(CaptureError::SelectionFailed { stderr: "bad\u{fffd}".to_string() }));
}

#[test]
fn printed_geometry_reads_back_as_its_size() {
    for (x, y, w, h) in [(0i32, 0i32, 1u32, 1u32), (100, 200, 800, 600), (-5, 7, 4294967295, 12)] {
        let printed = format!("{x},{y} {w}x{h}");
        assert_eq!(parse_geometry(&printed), Ok((w, h)));
    }
}
