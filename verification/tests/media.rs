use rusant::media::{pad_sink_for, PadSink};
use rusant::text::text_starts_with;

#[test]
fn pads_get_sinks_by_media_type() {
    assert_eq!(pad_sink_for("audio/x-raw"), PadSink::Audio);
    assert_eq!(pad_sink_for("video/x-raw"), PadSink::Video);
    assert_eq!(pad_sink_for("application/x-rtp"), PadSink::Skip);
    assert_eq!(pad_sink_for("audio"), PadSink::Skip);
    assert_eq!(pad_sink_for(""), PadSink::Skip);
}

#[test]
fn starts_with_matches_std() {
    for hay in ["", "audio/x-raw", "audio", "video/", "ä/b"] {
        for prefix in ["", "audio/", "video/", "audio", "ä"] {
            assert_eq!(text_starts_with(hay, prefix), hay.starts_with(prefix), "{:?} {:?}", hay, prefix);
        }
    }
}
