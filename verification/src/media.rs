//! Plain-value properties of a decoded track. The decoder itself is an
//! external collaborator; it hands over what it read (frame count, sample
//! rate, a title tag), and these functions turn that into the values the
//! session works with, applying the documented fallbacks.

use vstd::prelude::*;

verus! {

/// Duration assumed for a track whose frame count is unknown, in seconds.
pub const DEFAULT_DURATION_SECS: u64 = 300;

/// Sample rate assumed for a track that does not report one, in frames per
/// second.
pub const DEFAULT_SAMPLE_RATE: u32 = 44100;

/// Title shown for a track without a title tag.
pub const FALLBACK_TITLE: &'static str = "Unknown Title";

/// The track duration derived from the decoder's report: the frame count
/// divided by the sample rate, with the default duration when the frame
/// count is unknown and the default sample rate when none (or a zero rate)
/// is reported.
pub open spec fn spec_track_duration_secs(n_frames: Option<u64>, sample_rate: Option<u32>) -> int {
    match n_frames {
        Option::None => DEFAULT_DURATION_SECS as int,
        Option::Some(frames) => {
            let rate = if sample_rate is Some && sample_rate->0 > 0 {
                sample_rate->0 as int
            } else {
                DEFAULT_SAMPLE_RATE as int
            };
            frames as int / rate
        },
    }
}

/// Computes a track's duration in seconds from the decoder-reported frame
/// count and sample rate, applying the documented defaults.
pub fn track_duration_secs(n_frames: Option<u64>, sample_rate: Option<u32>) -> (d: u64)
    ensures
        d == spec_track_duration_secs(n_frames, sample_rate),
{
    match n_frames {
        Option::None => DEFAULT_DURATION_SECS,
        Option::Some(frames) => {
            let rate: u32 = match sample_rate {
                Option::Some(r) => if r > 0 {
                    r
                } else {
                    DEFAULT_SAMPLE_RATE
                },
                Option::None => DEFAULT_SAMPLE_RATE,
            };
            frames / (rate as u64)
        },
    }
}

/// Returns the decoded title tag, or the fallback title for a track
/// without one.
pub fn title_or_default(tag: Option<String>) -> (t: String)
    ensures
        tag is Some ==> t@ == tag->0@,
        tag is None ==> t@ == FALLBACK_TITLE@,
{
    match tag {
        Option::Some(s) => s,
        Option::None => String::from_str(FALLBACK_TITLE),
    }
}

} // verus!
