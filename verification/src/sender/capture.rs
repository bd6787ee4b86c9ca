//! Region capture: reading the selection that `slurp` prints and turning the
//! image that `grim` prints into a captured region. Running the two tools is
//! the program's part; every decision on their results is made here.

use vstd::prelude::*;
use vstd::string::*;
use vstd::utf8::*;
use crate::decode::{lossy_text, lossy_utf8, utf8_text};
use crate::digest::{image_digest, lower_hex, sha256};
use crate::text::{lemma_ascii_graphic_not_white_space, lemma_trim_drops_outer_white_space, lemma_trim_keeps_clean_text, decimal_text, is_ascii_digit, is_first_index, lemma_decimal_text_reads_back, unsigned_digits, parse_u32, parse_u32_spec, split_once, split_once_spec, trim, trimmed};

verus! {

/// A captured region: the PNG image, its fingerprint, the selection it was
/// taken from and its size.
#[derive(Debug, Clone, PartialEq, Eq)]
pub struct CapturedRegion {
    pub png: Vec<u8>,
    pub sha256: String,
    pub geometry: String,
    pub width: u32,
    pub height: u32,
}

/// A selected rectangle, as `slurp -f '%x,%y %wx%h'` reports it, with its size.
#[derive(Debug, Clone, PartialEq, Eq)]
pub struct Selection {
    pub geometry: String,
    pub width: u32,
    pub height: u32,
}

/// Why a capture failed.
#[derive(Debug, Clone, PartialEq, Eq)]
pub enum CaptureError {
    /// `slurp` exited unsuccessfully: the selection was cancelled or failed.
    SelectionFailed { stderr: String },
    /// `slurp` printed bytes that are not UTF-8.
    GeometryNotUtf8,
    /// The geometry has no space between position and size.
    InvalidGeometry { geometry: String },
    /// The size has no `x` between width and height.
    InvalidSize { size: String },
    /// The width is not an unsigned 32-bit decimal.
    InvalidWidth,
    /// The height is not an unsigned 32-bit decimal.
    InvalidHeight,
    /// The width or the height is zero.
    ZeroSize,
    /// `grim` exited unsuccessfully.
    CaptureFailed { stderr: String },
    /// `grim` printed no image.
    EmptyImage,
}

/// The size that a geometry `<position> <width>x<height>` describes, when both
/// numbers read as `u32` and neither is zero.
pub open spec fn geometry_size(g: Seq<char>) -> Option<(u32, u32)> {
    match split_once_spec(g, ' ') {
        Some((_, size)) => match split_once_spec(size, 'x') {
            Some((w, h)) => match (parse_u32_spec(w), parse_u32_spec(h)) {
                (Some(width), Some(height)) => if width != 0 && height != 0 {
                    Some((width, height))
                } else {
                    None
                },
                _ => None,
            },
            None => None,
        },
        None => None,
    }
}

/// The failure that `parse_geometry` reports for `g`, in the order the checks
/// are made: the space, the `x`, the width, the height, then a zero.
pub open spec fn geometry_failure(g: Seq<char>, e: CaptureError) -> bool {
    match split_once_spec(g, ' ') {
        None => e matches CaptureError::InvalidGeometry { geometry } && geometry@ == g,
        Some((_, size)) => match split_once_spec(size, 'x') {
            None => e matches CaptureError::InvalidSize { size: s } && s@ == size,
            Some((w, h)) => match (parse_u32_spec(w), parse_u32_spec(h)) {
                (None, _) => e == CaptureError::InvalidWidth,
                (Some(_), None) => e == CaptureError::InvalidHeight,
                (Some(_), Some(_)) => e == CaptureError::ZeroSize,
            },
        },
    }
}

/// The geometry `slurp -f '%x,%y %wx%h'` prints for a selection at
/// `position` of size `width` by `height`.
pub open spec fn slurp_geometry(position: Seq<char>, width: u32, height: u32) -> Seq<char> {
    position + seq![' '] + decimal_text(width as nat) + seq!['x'] + decimal_text(height as nat)
}

/// The geometry that `slurp` prints for a non-empty selection reads back as
/// the selection's size.
pub proof fn lemma_slurp_geometry_round_trip(position: Seq<char>, width: u32, height: u32)
    requires
        !position.contains(' '),
        width > 0,
        height > 0,
    ensures
        geometry_size(slurp_geometry(position, width, height)) == Some((width, height)),
{
    let g = slurp_geometry(position, width, height);
    let dw = decimal_text(width as nat);
    let dh = decimal_text(height as nat);
    lemma_decimal_text_reads_back(width as nat);
    lemma_decimal_text_reads_back(height as nat);
    let p = position.len() as int;
    assert(g[p] == ' ');
    assert forall|j: int| 0 <= j < p implies g[j] != ' ' by {
        assert(g[j] == position[j]);
        if position[j] == ' ' {
            assert(position.contains(' '));
        }
    }
    assert(is_first_index(g, ' ', p));
    let k = choose|k: int| is_first_index(g, ' ', k);
    assert(k == p);
    let size = g.subrange(p + 1, g.len() as int);
    assert(size =~= dw + seq!['x'] + dh);
    let q = dw.len() as int;
    assert(size[q] == 'x');
    assert forall|j: int| 0 <= j < q implies size[j] != 'x' by {
        assert(size[j] == dw[j]);
        assert(is_ascii_digit(dw[j]));
    }
    assert(is_first_index(size, 'x', q));
    let k2 = choose|k: int| is_first_index(size, 'x', k);
    assert(k2 == q);
    assert(size.subrange(0, q) =~= dw);
    assert(size.subrange(q + 1, size.len() as int) =~= dh);
    assert(is_ascii_digit(dw[0]));
    assert(is_ascii_digit(dh[0]));
    assert(unsigned_digits(dw) == dw);
    assert(unsigned_digits(dh) == dh);
}

/// What `slurp` prints for a non-empty selection, its geometry and a
/// newline as UTF-8 bytes, reads back, through decoding and trimming as
/// `read_selection` does, as exactly that geometry and its size. The position
/// is made of visible ASCII chars, as `%x,%y` is.
pub proof fn lemma_slurp_output_reads_back(position: Seq<char>, width: u32, height: u32)
    requires
        position.len() > 0,
        forall|i: int| 0 <= i < position.len() ==> 33 <= (#[trigger] position[i] as u32) <= 126,
        width > 0,
        height > 0,
    ensures
        valid_utf8(encode_utf8(slurp_geometry(position, width, height).push('\n'))),
        trimmed(decode_utf8(encode_utf8(slurp_geometry(position, width, height).push('\n'))))
            == slurp_geometry(position, width, height),
        geometry_size(
            trimmed(decode_utf8(encode_utf8(slurp_geometry(position, width, height).push('\n')))),
        ) == Some((width, height)),
{
    let g = slurp_geometry(position, width, height);
    let printed = g.push('\n');
    encode_utf8_valid_utf8(printed);
    encode_utf8_decode_utf8(printed);
    assert(!position.contains(' ')) by {
        if position.contains(' ') {
            let k = choose|k: int| 0 <= k < position.len() && position[k] == ' ';
            assert(33 <= (position[k] as u32));
        }
    }
    lemma_slurp_geometry_round_trip(position, width, height);
    lemma_decimal_text_reads_back(height as nat);
    let dh = decimal_text(height as nat);
    assert(g.last() == dh.last());
    assert(is_ascii_digit(dh[dh.len() - 1]));
    assert(g[0] == position[0]);
    lemma_ascii_graphic_not_white_space(g[0]);
    lemma_ascii_graphic_not_white_space(g.last());
    lemma_trim_keeps_clean_text(g);
    lemma_trim_drops_outer_white_space(g, '\n');
}

/// Reads the size out of a selection geometry such as `100,200 800x600`: the
/// part after the first space is split at its first `x`, and both halves
/// must be non-zero unsigned 32-bit decimals.
pub fn parse_geometry(geometry: &str) -> (r: Result<(u32, u32), CaptureError>)
    ensures
        match r {
            Ok(size) => geometry_size(geometry@) == Some(size) && size.0 > 0 && size.1 > 0,
            Err(e) => geometry_size(geometry@) is None && geometry_failure(geometry@, e),
        },
{
    let size = match split_once(geometry, ' ') {
        Some((_, size)) => size,
        None => {
            return Err(CaptureError::InvalidGeometry { geometry: geometry.to_owned() });
        },
    };
    let (width_text, height_text) = match split_once(size, 'x') {
        Some(parts) => parts,
        None => {
            return Err(CaptureError::InvalidSize { size: size.to_owned() });
        },
    };
    let width = match parse_u32(width_text) {
        Some(w) => w,
        None => {
            return Err(CaptureError::InvalidWidth);
        },
    };
    let height = match parse_u32(height_text) {
        Some(h) => h,
        None => {
            return Err(CaptureError::InvalidHeight);
        },
    };
    if width == 0 || height == 0 {
        return Err(CaptureError::ZeroSize);
    }
    Ok((width, height))
}

/// The selection of a finished `slurp` run: on success its output, decoded as
/// UTF-8 and trimmed, read as a geometry; on failure its trimmed error output.
pub fn read_selection(success: bool, stdout: Vec<u8>, stderr: &[u8]) -> (r: Result<
    Selection,
    CaptureError,
>)
    ensures
        !success ==> (r matches Err(CaptureError::SelectionFailed { stderr: s }) && s@ == trimmed(
            lossy_utf8(stderr@),
        )),
        success && !valid_utf8(stdout@) ==> r == Err::<Selection, CaptureError>(
            CaptureError::GeometryNotUtf8,
        ),
        success && valid_utf8(stdout@) ==> {
            let g = trimmed(decode_utf8(stdout@));
            match r {
                Ok(sel) => sel.geometry@ == g && geometry_size(g) == Some((sel.width, sel.height)),
                Err(e) => geometry_size(g) is None && geometry_failure(g, e),
            }
        },
{
    if !success {
        let err = lossy_text(stderr);
        return Err(CaptureError::SelectionFailed { stderr: trim(err.as_str()).to_owned() });
    }
    let text = match utf8_text(stdout) {
        Some(t) => t,
        None => {
            return Err(CaptureError::GeometryNotUtf8);
        },
    };
    let geometry = trim(text.as_str()).to_owned();
    match parse_geometry(geometry.as_str()) {
        Ok((width, height)) => Ok(Selection { geometry, width, height }),
        Err(e) => Err(e),
    }
}

/// The region captured for `selection` by a finished `grim` run: on success
/// its non-empty output is the PNG image, fingerprinted with SHA-256; on
/// failure the trimmed error output is reported.
pub fn finish_capture(selection: Selection, success: bool, png: Vec<u8>, stderr: &[u8]) -> (r:
    Result<CapturedRegion, CaptureError>)
    ensures
        !success ==> (r matches Err(CaptureError::CaptureFailed { stderr: s }) && s@ == trimmed(
            lossy_utf8(stderr@),
        )),
        success && png@.len() == 0 ==> r == Err::<CapturedRegion, CaptureError>(
            CaptureError::EmptyImage,
        ),
        success && png@.len() > 0 ==> (r matches Ok(region) && region.png@ == png@
            && region.sha256@ == lower_hex(sha256(png@)) && region.geometry == selection.geometry
            && region.width == selection.width && region.height == selection.height),
{
    if !success {
        let err = lossy_text(stderr);
        return Err(CaptureError::CaptureFailed { stderr: trim(err.as_str()).to_owned() });
    }
    if png.len() == 0 {
        return Err(CaptureError::EmptyImage);
    }
    let sha256 = image_digest(png.as_slice());
    Ok(
        CapturedRegion {
            png,
            sha256,
            geometry: selection.geometry,
            width: selection.width,
            height: selection.height,
        },
    )
}

} // verus!
