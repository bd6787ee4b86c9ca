//! Watch mode: capturing on a fixed period and skipping frames whose image
//! did not change.

use vstd::prelude::*;

verus! {

/// The shortest pause between captures, in milliseconds.
pub const MIN_INTERVAL_MS: u64 = 50;

/// The pause between captures: the configured one, but never below
/// `MIN_INTERVAL_MS`.
pub fn capture_interval_ms(interval_ms: u64) -> (r: u64)
    ensures
        r == if interval_ms < MIN_INTERVAL_MS {
            MIN_INTERVAL_MS
        } else {
            interval_ms
        },
        r >= MIN_INTERVAL_MS,
{
    if interval_ms < MIN_INTERVAL_MS {
        MIN_INTERVAL_MS
    } else {
        interval_ms
    }
}

/// Whether a frame with fingerprint `hash` is sent on, given the
/// fingerprint of the last frame sent: always when unchanged frames are sent,
/// otherwise only when the fingerprint differs.
pub open spec fn frame_is_sent(previous: Option<Seq<char>>, send_unchanged: bool, hash: Seq<char>) -> bool {
    send_unchanged || previous != Some(hash)
}

/// Remembers the fingerprint of the last frame that was sent on.
#[derive(Debug, Clone, PartialEq, Eq)]
pub struct FrameFilter {
    previous: Option<String>,
}

impl FrameFilter {
    /// The fingerprint of the last frame sent on, if any.
    pub closed spec fn previous_hash(&self) -> Option<Seq<char>> {
        self.previous.deep_view()
    }

    /// A filter that has seen no frame.
    pub fn new() -> (r: Self)
        ensures
            r.previous_hash() is None,
    {
        FrameFilter { previous: None }
    }

    /// Decides whether a captured frame with fingerprint `hash` is sent on.
    /// Either way, `hash` is the fingerprint remembered afterwards.
    pub fn should_send(&mut self, send_unchanged: bool, hash: String) -> (send: bool)
        ensures
            send == frame_is_sent(old(self).previous_hash(), send_unchanged, hash@),
            final(self).previous_hash() == Some(hash@),
    {
        let unchanged = match &self.previous {
            Some(previous) => previous.eq(&hash),
            None => false,
        };
        if !send_unchanged && unchanged {
            return false;
        }
        self.previous = Some(hash);
        true
    }
}

/// Watch-mode deduplication: the first frame is always sent; once a frame
/// with fingerprint `hash` has been seen (the filter then remembers `hash`),
/// the next frame with the same fingerprint is skipped unless unchanged
/// frames are sent, and a frame with another fingerprint is sent.
pub proof fn lemma_repeated_frame_skipped(
    fresh: FrameFilter,
    seen: FrameFilter,
    hash: Seq<char>,
    other: Seq<char>,
    send_unchanged: bool,
)
    requires
        fresh.previous_hash() is None,
        seen.previous_hash() == Some(hash),
        other != hash,
    ensures
        frame_is_sent(fresh.previous_hash(), send_unchanged, hash),
        frame_is_sent(seen.previous_hash(), send_unchanged, hash) == send_unchanged,
        frame_is_sent(seen.previous_hash(), send_unchanged, other),
{
}

} // verus!
