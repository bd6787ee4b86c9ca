//! The receiver's request handling: the body limit, bearer-token
//! authorisation, the checks on a submission and the receipt it is answered
//! with. The HTTP plumbing around these decisions lives in the program.

use vstd::prelude::*;
use vstd::string::*;
use vstd::utf8::char_u32_cast;
use crate::api::{ApiError, ApiStatus};
use crate::common::{TextReceipt, TextSubmission};
use crate::receiver::config::{ServerConfig, StorageConfig};
use crate::receiver::storage::{text_path, text_path_spec};
use crate::request_id::{is_version4, new_request_id};
use crate::text::{trim, trimmed};

verus! {

/// The largest request body the receiver accepts, in bytes.
pub fn body_limit(config: &ServerConfig) -> (r: usize)
    requires
        config.max_text_kb * 1024 <= usize::MAX,
    ensures
        r == config.max_text_kb * 1024,
{
    config.max_text_kb * 1024
}

/// Whether a header byte is visible ASCII or a tab, the bytes that
/// `HeaderValue::to_str` accepts.
pub open spec fn is_visible_header_byte(b: u8) -> bool {
    (32 <= b && b < 127) || b == 9
}

/// The text of a header value, when all its bytes are visible ASCII.
pub open spec fn header_text(bytes: Seq<u8>) -> Option<Seq<char>> {
    if forall|i: int| 0 <= i < bytes.len() ==> is_visible_header_byte(#[trigger] bytes[i]) {
        Some(bytes.map_values(|b: u8| b as char))
    } else {
        None
    }
}

/// The scheme prefix of a bearer credential.
pub open spec fn bearer_prefix() -> Seq<char> {
    seq!['B', 'e', 'a', 'r', 'e', 'r', ' ']
}

/// The header bytes, if there is an `Authorization` header.
pub open spec fn header_bytes(header: Option<&[u8]>) -> Option<Seq<u8>> {
    match header {
        Some(b) => Some(b@),
        None => None,
    }
}

/// Whether an `Authorization` header carries exactly `Bearer <token>`.
pub open spec fn is_authorized(header: Option<Seq<u8>>, token: Seq<char>) -> bool {
    match header {
        Some(bytes) => header_text(bytes) == Some(bearer_prefix() + token),
        None => false,
    }
}

/// The message a request without the right token is refused with.
pub open spec fn unauthorized_message() -> Seq<char> {
    "missing or invalid bearer token"@
}

/// The message a submission with a blank device id is refused with.
pub open spec fn empty_device_message() -> Seq<char> {
    "device_id is empty"@
}

/// The bytes of a text all of whose chars are ASCII.
pub open spec fn ascii_bytes(s: Seq<char>) -> Seq<u8> {
    s.map_values(|c: char| (c as u32) as u8)
}

/// A client that presents the configured token as `Bearer <token>` is let
/// in, whenever the token consists of visible ASCII chars (what an HTTP
/// header can carry).
pub proof fn lemma_bearer_header_accepted(token: Seq<char>)
    requires
        forall|i: int| 0 <= i < token.len() ==> 32 <= (#[trigger] token[i] as u32) < 127,
    ensures
        is_authorized(Some(ascii_bytes(bearer_prefix() + token)), token),
{
    let text = bearer_prefix() + token;
    let bytes = ascii_bytes(text);
    assert forall|i: int| 0 <= i < text.len() implies 32 <= (#[trigger] text[i] as u32) < 127 by {
        if i >= 7 {
            assert(text[i] == token[i - 7]);
        }
    }
    assert forall|i: int| 0 <= i < bytes.len() implies is_visible_header_byte(#[trigger] bytes[i])
        && (bytes[i] as char) == text[i] by {
        let v: u32 = text[i] as u32;
        assert(32 <= v < 127);
        assert(32 <= v < 127 ==> 32 <= (v as u8) < 127 && (v as u8) as u32 == v) by (bit_vector);
        assert(bytes[i] == v as u8);
        assert((bytes[i] as char) as u32 == v);
        char_u32_cast(text[i], v);
        char_u32_cast(bytes[i] as char, v);
    }
    assert(bytes.map_values(|b: u8| b as char) =~= text);
}

/// Whether `header` is exactly `Bearer <token>`, byte for char.
fn matches_bearer(header: &[u8], token: &str) -> (r: bool)
    ensures
        r == is_authorized(Some(header@), token@),
{
    let n = header.len();
    let m = token.unicode_len();
    let mut i: usize = 0;
    while i < n
        invariant
            i <= n,
            n == header@.len(),
            forall|j: int| 0 <= j < i ==> is_visible_header_byte(#[trigger] header@[j]),
        decreases n - i,
    {
        let b = header[i];
        if !((32 <= b && b < 127) || b == 9) {
            assert(header_text(header@) is None);
            return false;
        }
        i = i + 1;
    }
    let ghost text = header@.map_values(|b: u8| b as char);
    assert(header_text(header@) == Some(text));
    let ghost expected = bearer_prefix() + token@;
    if n < 7 || n - 7 != m {
        assert(text.len() != expected.len());
        return false;
    }
    let prefix: [u8; 7] = [66, 101, 97, 114, 101, 114, 32];
    let mut k: usize = 0;
    while k < 7
        invariant
            k <= 7,
            n == header@.len(),
            n == m + 7,
            m == token@.len(),
            text == header@.map_values(|b: u8| b as char),
            expected == bearer_prefix() + token@,
            prefix@ == seq![66u8, 101u8, 97u8, 114u8, 101u8, 114u8, 32u8],
            forall|j: int| 0 <= j < k ==> text[j] == expected[j],
        decreases 7 - k,
    {
        if header[k] != prefix[k] {
            assert(text[k as int] != expected[k as int]);
            return false;
        }
        k = k + 1;
    }
    while k < n
        invariant
            7 <= k <= n,
            n == header@.len(),
            n == m + 7,
            m == token@.len(),
            text == header@.map_values(|b: u8| b as char),
            expected == bearer_prefix() + token@,
            forall|j: int| 0 <= j < k ==> text[j] == expected[j],
        decreases n - k,
    {
        let c = header[k] as char;
        if c != token.get_char(k - 7) {
            assert(text[k as int] != expected[k as int]);
            return false;
        }
        k = k + 1;
    }
    assert(text =~= expected);
    true
}

/// Accepts a request whose `Authorization` header is exactly
/// `Bearer <expected_token>`; refuses any other with 401.
pub fn authorize(header: Option<&[u8]>, expected_token: &str) -> (r: Result<(), ApiError>)
    ensures
        r is Ok <==> is_authorized(header_bytes(header), expected_token@),
        r matches Err(e) ==> e.status == ApiStatus::Unauthorized && e.message@
            == unauthorized_message(),
{
    let accepted = match header {
        Some(bytes) => matches_bearer(bytes, expected_token),
        None => false,
    };
    if accepted {
        Ok(())
    } else {
        Err(ApiError::unauthorized("missing or invalid bearer token".to_owned()))
    }
}

/// What an accepted submission is answered with before its text is saved:
/// the new request id and the number of chars received.
#[derive(Debug, Clone, Copy, PartialEq, Eq)]
pub struct PendingReceipt {
    pub request_id: u128,
    pub received_chars: usize,
}

/// The checks a submission passes before it is kept: the bearer token, then
/// a device id that is not blank. An accepted submission gets a fresh
/// version-4 request id and its char count.
pub fn begin_receipt(
    header: Option<&[u8]>,
    expected_token: &str,
    submission: &TextSubmission,
) -> (r: Result<PendingReceipt, ApiError>)
    ensures
        r is Ok <==> (is_authorized(header_bytes(header), expected_token@) && trimmed(
            submission.device_id@,
        ).len() > 0),
        r matches Ok(p) ==> p.received_chars == submission.text@.len() && is_version4(
            p.request_id,
        ),
        r matches Err(e) ==> if is_authorized(header_bytes(header), expected_token@) {
            e.status == ApiStatus::BadRequest && e.message@ == empty_device_message()
        } else {
            e.status == ApiStatus::Unauthorized && e.message@ == unauthorized_message()
        },
{
    match authorize(header, expected_token) {
        Err(e) => {
            return Err(e);
        },
        Ok(()) => {},
    }
    if trim(submission.device_id.as_str()).unicode_len() == 0 {
        return Err(ApiError::bad_request("device_id is empty".to_owned()));
    }
    let request_id = new_request_id();
    let received_chars = submission.text.as_str().unicode_len();
    Ok(PendingReceipt { request_id, received_chars })
}

/// The receipt for an accepted submission, once saving its text has been
/// tried: a failed write is answered with 500 and its message; otherwise the
/// receipt echoes the submission, with the path of the saved text when
/// saving is on.
pub fn finish_receipt(
    pending: PendingReceipt,
    submission: TextSubmission,
    storage: &StorageConfig,
    write_outcome: Result<(), String>,
) -> (r: Result<TextReceipt, ApiError>)
    ensures
        r is Ok <==> write_outcome is Ok,
        r matches Err(e) ==> e.status == ApiStatus::InternalServerError && write_outcome
            == Err::<(), String>(e.message),
        r matches Ok(receipt) ==> {
            &&& receipt.request_id == pending.request_id
            &&& receipt.device_id == submission.device_id
            &&& receipt.text == submission.text
            &&& receipt.received_chars == pending.received_chars
            &&& receipt.image_sha256 == submission.image_sha256
            &&& receipt.text_saved_to.deep_view() == text_path_spec(*storage, pending.request_id)
        },
{
    match write_outcome {
        Err(message) => Err(ApiError::internal(message)),
        Ok(()) => {
            let text_saved_to = text_path(storage, pending.request_id);
            Ok(
                TextReceipt {
                    request_id: pending.request_id,
                    device_id: submission.device_id,
                    text: submission.text,
                    received_chars: pending.received_chars,
                    image_sha256: submission.image_sha256,
                    text_saved_to,
                },
            )
        },
    }
}

} // verus!
