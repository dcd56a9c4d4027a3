use rusant::call::{CallSession, Channel, HandleCallError, MediaStart, PipelineKind, RequestStep};

#[test]
fn first_request_asks_the_user() {
    let mut s = CallSession::new();
    assert_eq!(s.begin_request(), RequestStep::AskUser);
    assert_eq!(s.dialogued, Some(false));
}

#[test]
fn accepted_call_answers_later_requests_at_once() {
    let mut s = CallSession::new();
    assert_eq!(s.begin_request(), RequestStep::AskUser);
    assert_eq!(s.finish_request(1, String::from("a@b.c"), String::from("VIDEO_SENDER")), 1);
    assert!(s.accepted);
    assert_eq!(s.src_email.as_deref(), Some("a@b.c"));
    assert_eq!(s.channel_id.as_deref(), Some("VIDEO_SENDER"));
    assert_eq!(s.begin_request(), RequestStep::Respond(1));
    assert_eq!(s.begin_request(), RequestStep::Respond(1));
}

#[test]
fn declined_call_declines_later_requests() {
    let mut s = CallSession::new();
    s.requested_audio_sender = true;
    s.begin_request();
    assert_eq!(s.finish_request(0, String::new(), String::new()), 0);
    assert!(!s.accepted);
    assert!(!s.requested_audio_sender);
    assert_eq!(s.dialogued, Some(true));
    assert_eq!(s.src_email, None);
    assert_eq!(s.begin_request(), RequestStep::Respond(0));
    assert_eq!(s.begin_request(), RequestStep::Respond(0));
    // A disconnect ends the call; the next call asks again.
    s.on_call_disconnected();
    assert_eq!(s.begin_request(), RequestStep::AskUser);
}

#[test]
fn other_answers_are_passed_on_and_end_the_dialogue() {
    let mut s = CallSession::new();
    s.begin_request();
    assert_eq!(s.finish_request(-1, String::new(), String::new()), -1);
    assert_eq!(s.dialogued, Some(true));
    assert_eq!(s.begin_request(), RequestStep::Respond(0));
}

#[test]
fn channel_ids() {
    assert_eq!(Channel::from_id("VIDEO_SENDER"), Some(Channel::VideoSender));
    assert_eq!(Channel::from_id("VIDEO_RECEIVER"), Some(Channel::VideoReceiver));
    assert_eq!(Channel::from_id("AUDIO_SENDER"), Some(Channel::AudioSender));
    assert_eq!(Channel::from_id("AUDIO_RECEIVER"), Some(Channel::AudioReceiver));
    assert_eq!(Channel::from_id("ONLY_AUDIO_SENDER"), Some(Channel::OnlyAudioSender));
    assert_eq!(Channel::from_id("ONLY_AUDIO_RECEIVER"), Some(Channel::OnlyAudioReceiver));
    assert_eq!(Channel::from_id("video_sender"), None);
    assert_eq!(Channel::from_id(""), None);
}

#[test]
fn handled_call_records_remote_side_and_route() {
    let mut s = CallSession::new();
    let media = s.on_handle_call(String::from("route-1"), "VIDEO_SENDER", "10.0.0.2:5200").unwrap();
    assert_eq!(media.channel, Channel::VideoSender);
    assert_eq!(media.host, "10.0.0.2");
    assert_eq!(media.port, 5200);
    assert_eq!(s.raddr.as_deref(), Some("10.0.0.2"));
    assert_eq!(s.rport, Some(5200));
    assert_eq!(s.video_sender_route_id.as_deref(), Some("route-1"));
    assert_eq!(s.audio_sender_route_id, None);
}

#[test]
fn audio_only_channels_share_the_audio_routes() {
    let mut s = CallSession::new();
    s.on_handle_call(String::from("r1"), "ONLY_AUDIO_SENDER", "h:1").unwrap();
    s.on_handle_call(String::from("r2"), "ONLY_AUDIO_RECEIVER", "h:2").unwrap();
    assert_eq!(s.audio_sender_route_id.as_deref(), Some("r1"));
    assert_eq!(s.audio_receiver_route_id.as_deref(), Some("r2"));
    assert_eq!(s.rport, Some(2));
}

#[test]
fn address_without_port_keeps_the_known_remote_side() {
    let mut s = CallSession::new();
    s.on_handle_call(String::from("r1"), "AUDIO_SENDER", "host:7000").unwrap();
    let media = s.on_handle_call(String::from("r2"), "AUDIO_RECEIVER", "elsewhere").unwrap();
    assert_eq!(media.host, "host");
    assert_eq!(media.port, 7000);
}

#[test]
fn handle_call_errors() {
    let mut s = CallSession::new();
    assert_eq!(
        s.on_handle_call(String::from("r"), "VIDEO_SENDER", "host:port").err(),
        Some(HandleCallError::InvalidPort)
    );
    assert_eq!(
        s.on_handle_call(String::from("r"), "VIDEO_SENDER", "host").err(),
        Some(HandleCallError::NoRemoteAddress)
    );
    assert_eq!(
        s.on_handle_call(String::from("r"), "SCREEN", "host:1").err(),
        Some(HandleCallError::UnknownChannel)
    );
    assert_eq!(s.raddr, None);
    assert_eq!(s.video_sender_route_id, None);
}

fn start(channel: &str, requested: bool) -> (CallSession, MediaStart) {
    let mut s = CallSession::new();
    s.requested_video_sender = requested;
    s.requested_video_receiver = requested;
    s.requested_audio_sender = requested;
    s.requested_audio_receiver = requested;
    s.requested_only_audio_sender = requested;
    s.requested_only_audio_receiver = requested;
    let media = s.on_handle_call(String::from("r"), channel, "peer:9000").unwrap();
    let started = s.start_media(&media);
    (s, started)
}

#[test]
fn media_for_each_channel() {
    let cases = [
        ("VIDEO_SENDER", false, PipelineKind::VideoSender, true, true),
        ("VIDEO_SENDER", true, PipelineKind::VideoReceiver, true, true),
        ("VIDEO_RECEIVER", false, PipelineKind::VideoReceiver, true, true),
        ("VIDEO_RECEIVER", true, PipelineKind::VideoSender, true, true),
        ("AUDIO_SENDER", false, PipelineKind::AudioSender, false, true),
        ("AUDIO_SENDER", true, PipelineKind::AudioReceiver, false, true),
        ("AUDIO_RECEIVER", false, PipelineKind::AudioReceiver, false, true),
        ("AUDIO_RECEIVER", true, PipelineKind::AudioSender, false, true),
        ("ONLY_AUDIO_SENDER", false, PipelineKind::AudioSender, false, false),
        ("ONLY_AUDIO_SENDER", true, PipelineKind::AudioReceiver, false, false),
        ("ONLY_AUDIO_RECEIVER", false, PipelineKind::AudioReceiver, false, false),
        ("ONLY_AUDIO_RECEIVER", true, PipelineKind::AudioSender, false, false),
    ];
    for (channel, requested, pipeline, picture, camera) in cases {
        let (s, started) = start(channel, requested);
        assert_eq!(
            started,
            MediaStart { pipeline, shows_picture: picture, camera_video_visible: camera },
            "channel {} requested {}",
            channel,
            requested
        );
        let endpoint = match pipeline {
            PipelineKind::VideoReceiver => s.video_receiver.as_ref(),
            PipelineKind::VideoSender => s.video_sender.as_ref(),
            PipelineKind::AudioReceiver => s.audio_receiver.as_ref(),
            PipelineKind::AudioSender => s.audio_sender.as_ref(),
        }
        .unwrap();
        assert_eq!(endpoint.host, "peer");
        assert_eq!(endpoint.port, 9000);
    }
}

#[test]
fn disconnect_stops_what_runs_and_resets() {
    let mut s = CallSession::new();
    s.begin_request();
    s.finish_request(1, String::from("x"), String::from("VIDEO_SENDER"));
    let m1 = s.on_handle_call(String::from("r1"), "VIDEO_SENDER", "peer:1").unwrap();
    s.start_media(&m1);
    let m2 = s.on_handle_call(String::from("r2"), "AUDIO_RECEIVER", "peer:2").unwrap();
    s.start_media(&m2);
    s.requested_video_receiver = true;
    assert_eq!(s.on_call_disconnected(), vec![PipelineKind::VideoSender, PipelineKind::AudioReceiver]);
    assert!(s.video_sender.is_none() && s.audio_receiver.is_none());
    assert!(s.video_sender_route_id.is_none() && s.audio_receiver_route_id.is_none());
    assert!(!s.requested_video_receiver);
    assert_eq!(s.dialogued, Some(false));
    // The answer, caller and remote side stay.
    assert!(s.accepted);
    assert_eq!(s.src_email.as_deref(), Some("x"));
    assert_eq!(s.raddr.as_deref(), Some("peer"));
    // A second disconnect stops nothing.
    assert_eq!(s.on_call_disconnected(), vec![]);
    assert_eq!(s.begin_request(), RequestStep::AskUser);
}

#[test]
fn ring_dialog_answers() {
    assert_eq!(rusant::call::ring_answer("accept"), 1);
    assert_eq!(rusant::call::ring_answer("decline"), 0);
    assert_eq!(rusant::call::ring_answer(""), 0);
    assert_eq!(rusant::call::ring_answer("Accept"), 0);
}
