use vstd::prelude::*;

use crate::text::{begins_with, text_starts_with};

verus! {

/// The sink chain that a decoded pad of a received audio stream gets, by the media type
/// of its caps.
#[derive(Clone, Copy, Debug, PartialEq, Eq, Structural)]
pub enum PadSink {
    /// queue, audioconvert, audioresample, autoaudiosink
    Audio,
    /// queue, videoconvert, videoscale, autovideosink
    Video,
    /// No sink: the pad carries neither audio nor video.
    Skip,
}

/// The sink chain for a pad whose caps structure is named `caps_name`: audio for a name
/// that begins with "audio/", else video for one that begins with "video/", else none.
pub open spec fn pad_sink_of(caps_name: Seq<char>) -> PadSink {
    if begins_with(caps_name, "audio/"@) {
        PadSink::Audio
    } else if begins_with(caps_name, "video/"@) {
        PadSink::Video
    } else {
        PadSink::Skip
    }
}

/// The sink chain for a pad whose caps structure is named `caps_name`.
pub fn pad_sink_for(caps_name: &str) -> (sink: PadSink)
    ensures
        sink == pad_sink_of(caps_name@),
{
    if text_starts_with(caps_name, "audio/") {
        PadSink::Audio
    } else if text_starts_with(caps_name, "video/") {
        PadSink::Video
    } else {
        PadSink::Skip
    }
}

} // verus!
