//! The sender's configuration, its defaults and the receiver endpoints it
//! derives from them.

use std::time::Duration;
use vstd::prelude::*;
use vstd::string::*;
use crate::text::{lemma_trim_end_char_keeps_other_ending, trim_end_char, trim_end_char_spec};

verus! {

/// Everything the sender is configured with.
#[derive(Debug, Clone, PartialEq, Eq)]
pub struct SenderConfig {
    pub server: ServerConfig,
    pub capture: CaptureConfig,
}

/// The receiver to submit to, the token to present and the request timeout.
#[derive(Debug, Clone, PartialEq, Eq)]
pub struct ServerConfig {
    pub url: String,
    pub token: String,
    pub timeout_secs: u64,
}

/// How the sender captures and how often it repeats.
#[derive(Debug, Clone, PartialEq, Eq)]
pub struct CaptureConfig {
    pub device_id: String,
    pub monitor_index: Option<usize>,
    pub prefer_primary: bool,
    pub format: String,
    pub jpeg_quality: u8,
    pub region: Option<CaptureRegion>,
    pub interval_ms: u64,
    pub send_unchanged: bool,
}

/// A fixed rectangle of the screen.
#[derive(Debug, Clone, Copy, PartialEq, Eq)]
pub struct CaptureRegion {
    pub x: i32,
    pub y: i32,
    pub width: u32,
    pub height: u32,
}

/// The duration that `Duration::from_secs` makes of `secs` seconds.
pub uninterp spec fn duration_of_secs(secs: u64) -> Duration;

/// Calls `Duration::from_secs`. Trusted: the result is `duration_of_secs`
/// of the argument. `Duration` is opaque to Verus, so its whole-second count
/// cannot be stated here.
#[verifier::external_body]
fn duration_from_secs(secs: u64) -> (r: Duration)
    ensures
        r == duration_of_secs(secs),
{
    Duration::from_secs(secs)
}

/// The path of the receiver's text endpoint.
pub open spec fn text_path_suffix() -> Seq<char> {
    "/v1/text"@
}

/// The path of the receiver's recognition endpoint.
pub open spec fn ocr_path_suffix() -> Seq<char> {
    "/v1/ocr"@
}

/// The URL of the endpoint at `suffix` on the server at `base`: the base
/// without its trailing slashes, then the suffix.
pub open spec fn endpoint_spec(base: Seq<char>, suffix: Seq<char>) -> Seq<char> {
    trim_end_char_spec(base, '/') + suffix
}

impl ServerConfig {
    /// The timeout for requests to the receiver.
    pub fn timeout(&self) -> (r: Duration)
        ensures
            r == duration_of_secs(self.timeout_secs),
    {
        duration_from_secs(self.timeout_secs)
    }

    /// The receiver's recognition endpoint.
    pub fn ocr_url(&self) -> (r: String)
        ensures
            r@ == endpoint_spec(self.url@, ocr_path_suffix()),
            self.url@.len() == 0 || self.url@.last() != '/' ==> r@ == self.url@ + "/v1/ocr"@,
    {
        let mut url = trim_end_char(self.url.as_str(), '/').to_owned();
        url.append("/v1/ocr");
        url
    }

    /// The receiver's text endpoint, where submissions are posted.
    pub fn text_url(&self) -> (r: String)
        ensures
            r@ == endpoint_spec(self.url@, text_path_suffix()),
            self.url@.len() == 0 || self.url@.last() != '/' ==> r@ == self.url@ + "/v1/text"@,
    {
        let mut url = trim_end_char(self.url.as_str(), '/').to_owned();
        url.append("/v1/text");
        url
    }
}

/// An endpoint URL does not depend on how many slashes end the base URL.
pub proof fn lemma_endpoint_ignores_trailing_slash(base: Seq<char>, suffix: Seq<char>)
    ensures
        endpoint_spec(base.push('/'), suffix) == endpoint_spec(base, suffix),
{
    assert(base.push('/').drop_last() =~= base);
}

/// An endpoint keeps the whole base URL: a base that does not end with `/` is
/// followed directly by the suffix, and each trailing `/` of a base is dropped,
/// so `http://h:4489`, `http://h:4489/` and `http://h:4489//` all give
/// `http://h:4489` followed by the suffix.
pub proof fn lemma_endpoint_appends_suffix(base: Seq<char>, suffix: Seq<char>)
    ensures
        base.len() == 0 || base.last() != '/' ==> endpoint_spec(base, suffix) == base + suffix,
        endpoint_spec(base.push('/'), suffix) == endpoint_spec(base, suffix),
        base.len() == 0 || base.last() != '/' ==> (base + suffix).subrange(0, base.len() as int)
            == base,
{
    if base.len() == 0 || base.last() != '/' {
        lemma_trim_end_char_keeps_other_ending(base, '/');
    }
    lemma_endpoint_ignores_trailing_slash(base, suffix);
    assert((base + suffix).subrange(0, base.len() as int) =~= base);
}

/// Whether the capture prefers the primary monitor, when not configured.
pub fn default_true() -> (r: bool)
    ensures
        r,
{
    true
}

/// The receiver request timeout, in seconds, when not configured.
pub fn default_timeout_secs() -> (r: u64)
    ensures
        r == 30,
{
    30
}

/// The image format, when not configured.
pub fn default_format() -> (r: String)
    ensures
        r@ == "png"@,
{
    "png".to_owned()
}

/// The JPEG quality, when not configured.
pub fn default_jpeg_quality() -> (r: u8)
    ensures
        r == 90,
{
    90
}

/// The pause between captures in watch mode, in milliseconds, when not
/// configured.
pub fn default_interval_ms() -> (r: u64)
    ensures
        r == 1000,
{
    1_000
}

} // verus!
