use vstd::prelude::*;

use crate::text::{decimal, parse_decimal_round_trip, parse_i32, parse_i32_text, split_at_colon, split_once_colon};

verus! {

/// The channels over which a call carries media, by their identifiers on the wire.
#[derive(Clone, Copy, Debug, PartialEq, Eq, Structural)]
pub enum Channel {
    /// `VIDEO_SENDER`
    VideoSender,
    /// `VIDEO_RECEIVER`
    VideoReceiver,
    /// `AUDIO_SENDER`
    AudioSender,
    /// `AUDIO_RECEIVER`
    AudioReceiver,
    /// `ONLY_AUDIO_SENDER`
    OnlyAudioSender,
    /// `ONLY_AUDIO_RECEIVER`
    OnlyAudioReceiver,
}

/// The channel that a channel identifier names, if any.
pub open spec fn channel_of(id: Seq<char>) -> Option<Channel> {
    if id == "VIDEO_SENDER"@ {
        Some(Channel::VideoSender)
    } else if id == "VIDEO_RECEIVER"@ {
        Some(Channel::VideoReceiver)
    } else if id == "AUDIO_SENDER"@ {
        Some(Channel::AudioSender)
    } else if id == "AUDIO_RECEIVER"@ {
        Some(Channel::AudioReceiver)
    } else if id == "ONLY_AUDIO_SENDER"@ {
        Some(Channel::OnlyAudioSender)
    } else if id == "ONLY_AUDIO_RECEIVER"@ {
        Some(Channel::OnlyAudioReceiver)
    } else {
        None
    }
}

impl Channel {
    /// The channel that a channel identifier names, if any.
    pub fn from_id(id: &str) -> (r: Option<Channel>)
        ensures
            r == channel_of(id@),
    {
        let id = String::from_str(id);
        if id == String::from_str("VIDEO_SENDER") {
            Some(Channel::VideoSender)
        } else if id == String::from_str("VIDEO_RECEIVER") {
            Some(Channel::VideoReceiver)
        } else if id == String::from_str("AUDIO_SENDER") {
            Some(Channel::AudioSender)
        } else if id == String::from_str("AUDIO_RECEIVER") {
            Some(Channel::AudioReceiver)
        } else if id == String::from_str("ONLY_AUDIO_SENDER") {
            Some(Channel::OnlyAudioSender)
        } else if id == String::from_str("ONLY_AUDIO_RECEIVER") {
            Some(Channel::OnlyAudioReceiver)
        } else {
            None
        }
    }
}

/// The streaming pipelines that a call runs.
#[derive(Clone, Copy, Debug, PartialEq, Eq, Structural)]
pub enum PipelineKind {
    VideoReceiver,
    VideoSender,
    AudioReceiver,
    AudioSender,
}

/// The pipeline that a channel names from this side's point of view.
pub open spec fn channel_role(c: Channel) -> PipelineKind {
    match c {
        Channel::VideoSender => PipelineKind::VideoSender,
        Channel::VideoReceiver => PipelineKind::VideoReceiver,
        Channel::AudioSender => PipelineKind::AudioSender,
        Channel::AudioReceiver => PipelineKind::AudioReceiver,
        Channel::OnlyAudioSender => PipelineKind::AudioSender,
        Channel::OnlyAudioReceiver => PipelineKind::AudioReceiver,
    }
}

/// The pipeline at the other end of a stream: a sender's receiver and a receiver's sender.
pub open spec fn counterpart(k: PipelineKind) -> PipelineKind {
    match k {
        PipelineKind::VideoReceiver => PipelineKind::VideoSender,
        PipelineKind::VideoSender => PipelineKind::VideoReceiver,
        PipelineKind::AudioReceiver => PipelineKind::AudioSender,
        PipelineKind::AudioSender => PipelineKind::AudioReceiver,
    }
}

/// Whether a channel carries video.
pub open spec fn is_video(c: Channel) -> bool {
    c == Channel::VideoSender || c == Channel::VideoReceiver
}

/// Whether a channel belongs to an audio-only call.
pub open spec fn is_audio_only(c: Channel) -> bool {
    c == Channel::OnlyAudioSender || c == Channel::OnlyAudioReceiver
}

/// The answer to a call request, or the note that the user has to be asked first.
#[derive(Clone, Copy, Debug, PartialEq, Eq, Structural)]
pub enum RequestStep {
    /// Show the ring dialog and hand its answer to `finish_request`.
    AskUser,
    /// Answer the request with this value: 1 accepts, 0 declines.
    Respond(i8),
}

/// The answer that a response of the ring dialog gives: 1 for "accept", 0 for any other.
pub open spec fn ring_answer_of(response: Seq<char>) -> i8 {
    if response == "accept"@ { 1 } else { 0 }
}

/// The answer that a response of the ring dialog gives: 1 for "accept", 0 for any other.
pub fn ring_answer(response: &str) -> (answer: i8)
    ensures
        answer == ring_answer_of(response@),
{
    if String::from_str(response) == String::from_str("accept") {
        1
    } else {
        0
    }
}

/// Why a started call could not be handled.
#[derive(Clone, Copy, Debug, PartialEq, Eq, Structural)]
pub enum HandleCallError {
    /// The remote address has a `:` but what follows it is not a port number.
    InvalidPort,
    /// No remote address and port are known.
    NoRemoteAddress,
    /// The channel identifier names no channel.
    UnknownChannel,
}

/// What a started call streams, and to or from where.
#[derive(Clone, Debug)]
pub struct CallMedia {
    pub channel: Channel,
    pub host: String,
    pub port: i32,
}

/// The pipeline to start for a channel, and what the call pane shows with it.
#[derive(Clone, Copy, Debug, PartialEq, Eq, Structural)]
pub struct MediaStart {
    pub pipeline: PipelineKind,
    /// A picture of the video stream joins the call grid.
    pub shows_picture: bool,
    /// The camera button is shown.
    pub camera_video_visible: bool,
}

/// The host and port that a pipeline streams to or from.
#[derive(Clone, Debug)]
pub struct Endpoint {
    pub host: String,
    pub port: i32,
}

/// The state that the call callbacks share: whether the incoming request was put to the
/// user and accepted, what the user asked for, the remote side, the route of each
/// stream and the pipelines that run.
pub struct CallSession {
    /// `None` before the first request; `Some(true)` once the user answered it.
    pub dialogued: Option<bool>,
    pub accepted: bool,
    pub requested_video_sender: bool,
    pub requested_video_receiver: bool,
    pub requested_audio_sender: bool,
    pub requested_audio_receiver: bool,
    pub requested_only_audio_sender: bool,
    pub requested_only_audio_receiver: bool,
    pub src_email: Option<String>,
    pub channel_id: Option<String>,
    pub raddr: Option<String>,
    pub rport: Option<i32>,
    pub video_sender_route_id: Option<String>,
    pub video_receiver_route_id: Option<String>,
    pub audio_sender_route_id: Option<String>,
    pub audio_receiver_route_id: Option<String>,
    pub video_receiver: Option<Endpoint>,
    pub video_sender: Option<Endpoint>,
    pub audio_sender: Option<Endpoint>,
    pub audio_receiver: Option<Endpoint>,
}

/// The text of an optional string.
pub open spec fn text_opt(o: Option<String>) -> Option<Seq<char>> {
    match o {
        Some(s) => Some(s@),
        None => None,
    }
}

/// The host and port of an optional pipeline.
pub open spec fn endpoint_opt(o: Option<Endpoint>) -> Option<(Seq<char>, i32)> {
    match o {
        Some(e) => Some((e.host@, e.port)),
        None => None,
    }
}

/// The mathematical state of a call session.
#[verifier::ext_equal]
pub struct SessionView {
    pub dialogued: Option<bool>,
    pub accepted: bool,
    pub requested_video_sender: bool,
    pub requested_video_receiver: bool,
    pub requested_audio_sender: bool,
    pub requested_audio_receiver: bool,
    pub requested_only_audio_sender: bool,
    pub requested_only_audio_receiver: bool,
    pub src_email: Option<Seq<char>>,
    pub channel_id: Option<Seq<char>>,
    pub raddr: Option<Seq<char>>,
    pub rport: Option<i32>,
    pub video_sender_route_id: Option<Seq<char>>,
    pub video_receiver_route_id: Option<Seq<char>>,
    pub audio_sender_route_id: Option<Seq<char>>,
    pub audio_receiver_route_id: Option<Seq<char>>,
    pub video_receiver: Option<(Seq<char>, i32)>,
    pub video_sender: Option<(Seq<char>, i32)>,
    pub audio_sender: Option<(Seq<char>, i32)>,
    pub audio_receiver: Option<(Seq<char>, i32)>,
}

impl View for CallSession {
    type V = SessionView;

    open spec fn view(&self) -> SessionView {
        SessionView {
            dialogued: self.dialogued,
            accepted: self.accepted,
            requested_video_sender: self.requested_video_sender,
            requested_video_receiver: self.requested_video_receiver,
            requested_audio_sender: self.requested_audio_sender,
            requested_audio_receiver: self.requested_audio_receiver,
            requested_only_audio_sender: self.requested_only_audio_sender,
            requested_only_audio_receiver: self.requested_only_audio_receiver,
            src_email: text_opt(self.src_email),
            channel_id: text_opt(self.channel_id),
            raddr: text_opt(self.raddr),
            rport: self.rport,
            video_sender_route_id: text_opt(self.video_sender_route_id),
            video_receiver_route_id: text_opt(self.video_receiver_route_id),
            audio_sender_route_id: text_opt(self.audio_sender_route_id),
            audio_receiver_route_id: text_opt(self.audio_receiver_route_id),
            video_receiver: endpoint_opt(self.video_receiver),
            video_sender: endpoint_opt(self.video_sender),
            audio_sender: endpoint_opt(self.audio_sender),
            audio_receiver: endpoint_opt(self.audio_receiver),
        }
    }
}

/// The session before any call: nothing asked, accepted, requested or running.
pub open spec fn initial_session() -> SessionView {
    SessionView {
        dialogued: None,
        accepted: false,
        requested_video_sender: false,
        requested_video_receiver: false,
        requested_audio_sender: false,
        requested_audio_receiver: false,
        requested_only_audio_sender: false,
        requested_only_audio_receiver: false,
        src_email: None,
        channel_id: None,
        raddr: None,
        rport: None,
        video_sender_route_id: None,
        video_receiver_route_id: None,
        audio_sender_route_id: None,
        audio_receiver_route_id: None,
        video_receiver: None,
        video_sender: None,
        audio_sender: None,
        audio_receiver: None,
    }
}

/// Whether the user asked for the opposite side of a channel.
pub open spec fn requested(s: SessionView, c: Channel) -> bool {
    match c {
        Channel::VideoSender => s.requested_video_sender,
        Channel::VideoReceiver => s.requested_video_receiver,
        Channel::AudioSender => s.requested_audio_sender,
        Channel::AudioReceiver => s.requested_audio_receiver,
        Channel::OnlyAudioSender => s.requested_only_audio_sender,
        Channel::OnlyAudioReceiver => s.requested_only_audio_receiver,
    }
}

/// The session with every request flag cleared.
pub open spec fn without_requests(s: SessionView) -> SessionView {
    SessionView {
        requested_video_sender: false,
        requested_video_receiver: false,
        requested_audio_sender: false,
        requested_audio_receiver: false,
        requested_only_audio_sender: false,
        requested_only_audio_receiver: false,
        ..s
    }
}

/// An incoming call request: the first one of a call is put to the user; later ones are
/// answered as the user answered the first.
pub open spec fn begin_request_spec(s: SessionView) -> (SessionView, RequestStep) {
    let asked = match s.dialogued {
        Some(b) => b,
        None => false,
    };
    let next = SessionView { dialogued: Some(asked), ..s };
    if !asked {
        (next, RequestStep::AskUser)
    } else {
        (next, RequestStep::Respond(if s.accepted { 1 } else { 0 }))
    }
}

/// The user's answer to a call request: 1 accepts and records the caller and channel;
/// 0 declines and clears the request flags. Either way the answer is recorded, so the
/// later requests of the call get the same answer without asking, until the call is
/// disconnected.
pub open spec fn finish_request_spec(
    s: SessionView,
    accept: i8,
    src_email: Seq<char>,
    channel_id: Seq<char>,
) -> SessionView {
    let answered = SessionView { dialogued: Some(true), ..s };
    if accept == 1 {
        SessionView {
            accepted: true,
            src_email: Some(src_email),
            channel_id: Some(channel_id),
            ..answered
        }
    } else if accept == 0 {
        SessionView { accepted: false, ..without_requests(answered) }
    } else {
        answered
    }
}

/// The session once the remote side of a started call is known: a remote address with a
/// `:` replaces the known host and port.
pub open spec fn with_remote(s: SessionView, raddr: Seq<char>) -> SessionView {
    match split_at_colon(raddr) {
        Some((host, port)) => SessionView {
            raddr: Some(host),
            rport: Some(parse_i32(port)->0),
            ..s
        },
        None => s,
    }
}

/// The session with the route of a channel recorded.
pub open spec fn with_route(s: SessionView, c: Channel, route_id: Seq<char>) -> SessionView {
    match c {
        Channel::VideoSender => SessionView { video_sender_route_id: Some(route_id), ..s },
        Channel::VideoReceiver => SessionView { video_receiver_route_id: Some(route_id), ..s },
        Channel::AudioSender | Channel::OnlyAudioSender => SessionView {
            audio_sender_route_id: Some(route_id),
            ..s
        },
        Channel::AudioReceiver | Channel::OnlyAudioReceiver => SessionView {
            audio_receiver_route_id: Some(route_id),
            ..s
        },
    }
}

/// A started call: the remote side is taken from `raddr` (`host:port`), the route is
/// recorded under its channel, and the channel with the remote host and port is handed
/// back. A port that does not parse, an unknown remote side or an unknown channel refuse
/// the call, in that order, and leave the session as it was.
pub open spec fn handle_call_spec(
    s: SessionView,
    route_id: Seq<char>,
    channel_id: Seq<char>,
    raddr: Seq<char>,
) -> Result<(SessionView, (Channel, Seq<char>, i32)), HandleCallError> {
    let remote = with_remote(s, raddr);
    if split_at_colon(raddr) matches Some((_, port)) && parse_i32(port) is None {
        Err(HandleCallError::InvalidPort)
    } else if remote.raddr is None || remote.rport is None {
        Err(HandleCallError::NoRemoteAddress)
    } else if channel_of(channel_id) is None {
        Err(HandleCallError::UnknownChannel)
    } else {
        let c = channel_of(channel_id)->0;
        Ok((with_route(remote, c, route_id), (c, remote.raddr->0, remote.rport->0)))
    }
}

/// The pipeline that a channel starts: the one that the channel names, or its counterpart
/// when the user asked for the opposite side.
pub open spec fn pipeline_for(s: SessionView, c: Channel) -> PipelineKind {
    if requested(s, c) {
        counterpart(channel_role(c))
    } else {
        channel_role(c)
    }
}

/// The session with a pipeline running against an endpoint.
pub open spec fn with_pipeline(s: SessionView, k: PipelineKind, e: (Seq<char>, i32)) -> SessionView {
    match k {
        PipelineKind::VideoReceiver => SessionView { video_receiver: Some(e), ..s },
        PipelineKind::VideoSender => SessionView { video_sender: Some(e), ..s },
        PipelineKind::AudioReceiver => SessionView { audio_receiver: Some(e), ..s },
        PipelineKind::AudioSender => SessionView { audio_sender: Some(e), ..s },
    }
}

/// Starting the media of a handled call.
pub open spec fn start_media_spec(s: SessionView, c: Channel, host: Seq<char>, port: i32) -> (
    SessionView,
    MediaStart,
) {
    let k = pipeline_for(s, c);
    (
        with_pipeline(s, k, (host, port)),
        MediaStart {
            pipeline: k,
            shows_picture: is_video(c),
            camera_video_visible: !is_audio_only(c),
        },
    )
}

/// The pipelines that run, in the order in which a hang-up stops them.
pub open spec fn running_pipelines(s: SessionView) -> Seq<PipelineKind> {
    (if s.video_receiver is Some { seq![PipelineKind::VideoReceiver] } else { seq![] })
        + (if s.video_sender is Some { seq![PipelineKind::VideoSender] } else { seq![] })
        + (if s.audio_receiver is Some { seq![PipelineKind::AudioReceiver] } else { seq![] })
        + (if s.audio_sender is Some { seq![PipelineKind::AudioSender] } else { seq![] })
}

/// A disconnected call: request flags, pipelines and routes are cleared and the next
/// request is put to the user again. The last caller, channel, remote side and answer stay.
pub open spec fn disconnect_spec(s: SessionView) -> SessionView {
    SessionView {
        video_receiver: None,
        video_sender: None,
        audio_sender: None,
        audio_receiver: None,
        video_sender_route_id: None,
        video_receiver_route_id: None,
        audio_sender_route_id: None,
        audio_receiver_route_id: None,
        dialogued: Some(false),
        ..without_requests(s)
    }
}

impl CallSession {
    /// A session before any call.
    pub fn new() -> (s: Self)
        ensures
            s@ == initial_session(),
    {
        CallSession {
            dialogued: None,
            accepted: false,
            requested_video_sender: false,
            requested_video_receiver: false,
            requested_audio_sender: false,
            requested_audio_receiver: false,
            requested_only_audio_sender: false,
            requested_only_audio_receiver: false,
            src_email: None,
            channel_id: None,
            raddr: None,
            rport: None,
            video_sender_route_id: None,
            video_receiver_route_id: None,
            audio_sender_route_id: None,
            audio_receiver_route_id: None,
            video_receiver: None,
            video_sender: None,
            audio_sender: None,
            audio_receiver: None,
        }
    }

    fn clear_requests(&mut self)
        ensures
            final(self)@ == without_requests(old(self)@),
    {
        self.requested_audio_receiver = false;
        self.requested_audio_sender = false;
        self.requested_only_audio_receiver = false;
        self.requested_only_audio_sender = false;
        self.requested_video_receiver = false;
        self.requested_video_sender = false;
    }

    /// A call was requested: says whether to ask the user, or how to answer at once.
    pub fn begin_request(&mut self) -> (step: RequestStep)
        ensures
            (final(self)@, step) == begin_request_spec(old(self)@),
    {
        if self.dialogued.is_none() {
            self.dialogued = Some(false);
        }
        let asked = match self.dialogued {
            Some(b) => b,
            None => false,
        };
        if !asked {
            RequestStep::AskUser
        } else if self.accepted {
            RequestStep::Respond(1)
        } else {
            RequestStep::Respond(0)
        }
    }

    /// Records the user's answer to a call request and returns the answer to send.
    pub fn finish_request(&mut self, accept: i8, src_email: String, channel_id: String) -> (r: i8)
        ensures
            r == accept,
            final(self)@ == finish_request_spec(old(self)@, accept, src_email@, channel_id@),
    {
        self.dialogued = Some(true);
        if accept == 1 {
            self.accepted = true;
            self.src_email = Some(src_email);
            self.channel_id = Some(channel_id);
        }
        if accept == 0 {
            self.accepted = false;
            self.clear_requests();
        }
        accept
    }

    /// A call started on a route, over a channel, with the remote side at `raddr`.
    pub fn on_handle_call(&mut self, route_id: String, channel_id: &str, raddr: &str) -> (r: Result<
        CallMedia,
        HandleCallError,
    >)
        ensures
            match handle_call_spec(old(self)@, route_id@, channel_id@, raddr@) {
                Ok((next, (c, host, port))) => {
                    &&& r is Ok
                    &&& final(self)@ == next
                    &&& r->Ok_0.channel == c
                    &&& r->Ok_0.host@ == host
                    &&& r->Ok_0.port == port
                },
                Err(e) => r == Err::<CallMedia, HandleCallError>(e) && final(self)@ == old(self)@,
            },
    {
        let mut host = match &self.raddr {
            Some(h) => Some(h.clone()),
            None => None,
        };
        let mut port = self.rport;
        match split_once_colon(raddr) {
            Some((address, port_text)) => {
                match parse_i32_text(port_text.as_str()) {
                    Some(p) => {
                        host = Some(address);
                        port = Some(p);
                    },
                    None => {
                        return Err(HandleCallError::InvalidPort);
                    },
                }
            },
            None => {},
        }
        let (host, port) = match (host, port) {
            (Some(h), Some(p)) => (h, p),
            _ => {
                return Err(HandleCallError::NoRemoteAddress);
            },
        };
        let channel = match Channel::from_id(channel_id) {
            Some(c) => c,
            None => {
                return Err(HandleCallError::UnknownChannel);
            },
        };
        self.raddr = Some(host.clone());
        self.rport = Some(port);
        match channel {
            Channel::VideoSender => {
                self.video_sender_route_id = Some(route_id);
            },
            Channel::VideoReceiver => {
                self.video_receiver_route_id = Some(route_id);
            },
            Channel::AudioSender | Channel::OnlyAudioSender => {
                self.audio_sender_route_id = Some(route_id);
            },
            Channel::AudioReceiver | Channel::OnlyAudioReceiver => {
                self.audio_receiver_route_id = Some(route_id);
            },
        }
        Ok(CallMedia { channel, host, port })
    }

    /// Whether the user asked for the opposite side of a channel.
    pub fn is_requested(&self, channel: Channel) -> (r: bool)
        ensures
            r == requested(self@, channel),
    {
        match channel {
            Channel::VideoSender => self.requested_video_sender,
            Channel::VideoReceiver => self.requested_video_receiver,
            Channel::AudioSender => self.requested_audio_sender,
            Channel::AudioReceiver => self.requested_audio_receiver,
            Channel::OnlyAudioSender => self.requested_only_audio_sender,
            Channel::OnlyAudioReceiver => self.requested_only_audio_receiver,
        }
    }

    /// Starts the media of a handled call: decides which pipeline runs against the remote
    /// host and port, and what the call pane shows.
    pub fn start_media(&mut self, media: &CallMedia) -> (r: MediaStart)
        ensures
            (final(self)@, r) == start_media_spec(old(self)@, media.channel, media.host@, media.port),
    {
        let role = match media.channel {
            Channel::VideoSender => PipelineKind::VideoSender,
            Channel::VideoReceiver => PipelineKind::VideoReceiver,
            Channel::AudioSender | Channel::OnlyAudioSender => PipelineKind::AudioSender,
            Channel::AudioReceiver | Channel::OnlyAudioReceiver => PipelineKind::AudioReceiver,
        };
        let pipeline = if self.is_requested(media.channel) {
            match role {
                PipelineKind::VideoReceiver => PipelineKind::VideoSender,
                PipelineKind::VideoSender => PipelineKind::VideoReceiver,
                PipelineKind::AudioReceiver => PipelineKind::AudioSender,
                PipelineKind::AudioSender => PipelineKind::AudioReceiver,
            }
        } else {
            role
        };
        let endpoint = Endpoint { host: media.host.clone(), port: media.port };
        match pipeline {
            PipelineKind::VideoReceiver => {
                self.video_receiver = Some(endpoint);
            },
            PipelineKind::VideoSender => {
                self.video_sender = Some(endpoint);
            },
            PipelineKind::AudioReceiver => {
                self.audio_receiver = Some(endpoint);
            },
            PipelineKind::AudioSender => {
                self.audio_sender = Some(endpoint);
            },
        }
        let shows_picture = match media.channel {
            Channel::VideoSender | Channel::VideoReceiver => true,
            _ => false,
        };
        let camera_video_visible = match media.channel {
            Channel::OnlyAudioSender | Channel::OnlyAudioReceiver => false,
            _ => true,
        };
        MediaStart { pipeline, shows_picture, camera_video_visible }
    }

    /// The call was disconnected: returns the pipelines to stop, in order, and clears
    /// the request flags, pipelines and routes so that the next request asks the user.
    pub fn on_call_disconnected(&mut self) -> (stopped: Vec<PipelineKind>)
        ensures
            stopped@ == running_pipelines(old(self)@),
            final(self)@ == disconnect_spec(old(self)@),
    {
        let mut stopped: Vec<PipelineKind> = Vec::new();
        if self.video_receiver.is_some() {
            stopped.push(PipelineKind::VideoReceiver);
        }
        if self.video_sender.is_some() {
            stopped.push(PipelineKind::VideoSender);
        }
        if self.audio_receiver.is_some() {
            stopped.push(PipelineKind::AudioReceiver);
        }
        if self.audio_sender.is_some() {
            stopped.push(PipelineKind::AudioSender);
        }
        self.clear_requests();
        self.video_receiver = None;
        self.video_sender = None;
        self.audio_receiver = None;
        self.audio_sender = None;
        self.video_receiver_route_id = None;
        self.video_sender_route_id = None;
        self.audio_sender_route_id = None;
        self.audio_receiver_route_id = None;
        self.dialogued = Some(false);
        assert(stopped@ =~= running_pipelines(old(self)@));
        stopped
    }
}

} // verus!
verus! {

/// The first request of a fresh session is put to the user.
pub proof fn first_request_asks_user()
    ensures
        begin_request_spec(initial_session()).1 == RequestStep::AskUser,
{
}

/// Once the user accepted a call, later requests are accepted without asking, and the
/// session stays as it is.
pub proof fn accepted_call_answers_later_requests(
    s: SessionView,
    src_email: Seq<char>,
    channel_id: Seq<char>,
)
    ensures
        ({
            let t = finish_request_spec(s, 1, src_email, channel_id);
            begin_request_spec(t) == (t, RequestStep::Respond(1))
        }),
{
    let t = finish_request_spec(s, 1, src_email, channel_id);
    assert(begin_request_spec(t).0 =~= t);
}

/// Once the user declined the first request of a call, nothing is requested and every
/// later request of the call is declined without asking, and leaves the session as it is.
pub proof fn declined_call_declines_later_requests(
    s: SessionView,
    src_email: Seq<char>,
    channel_id: Seq<char>,
)
    ensures
        ({
            let t = finish_request_spec(s, 0, src_email, channel_id);
            &&& !t.accepted
            &&& forall|c: Channel| !requested(t, c)
            &&& begin_request_spec(t) == (t, RequestStep::Respond(0))
        }),
{
    let t = finish_request_spec(s, 0, src_email, channel_id);
    assert(begin_request_spec(t).0 =~= t);
}

/// After a disconnect nothing runs, no route or request is left, the next request is put
/// to the user, and a second disconnect stops nothing and changes nothing.
pub proof fn disconnect_ends_the_call(s: SessionView)
    ensures
        ({
            let t = disconnect_spec(s);
            &&& running_pipelines(t) == Seq::<PipelineKind>::empty()
            &&& t.video_sender_route_id is None
            &&& t.video_receiver_route_id is None
            &&& t.audio_sender_route_id is None
            &&& t.audio_receiver_route_id is None
            &&& forall|c: Channel| !requested(t, c)
            &&& begin_request_spec(t).1 == RequestStep::AskUser
            &&& disconnect_spec(t) == t
        }),
{
    let t = disconnect_spec(s);
    assert(running_pipelines(t) =~= Seq::<PipelineKind>::empty());
    assert(disconnect_spec(t) =~= t);
}

/// Starting a channel's media runs exactly one pipeline more, against the call's remote
/// side: the channel's own pipeline, or its counterpart when the user asked for it.
pub proof fn start_media_runs_the_chosen_pipeline(s: SessionView, c: Channel, host: Seq<char>, port: i32)
    ensures
        ({
            let (t, m) = start_media_spec(s, c, host, port);
            &&& m.pipeline == (if requested(s, c) { counterpart(channel_role(c)) } else { channel_role(c) })
            &&& running_pipelines(t).contains(m.pipeline)
            &&& match m.pipeline {
                PipelineKind::VideoReceiver => t.video_receiver == Some((host, port)),
                PipelineKind::VideoSender => t.video_sender == Some((host, port)),
                PipelineKind::AudioReceiver => t.audio_receiver == Some((host, port)),
                PipelineKind::AudioSender => t.audio_sender == Some((host, port)),
            }
        }),
{
    let (t, m) = start_media_spec(s, c, host, port);
    let r = running_pipelines(t);
    let a = (if t.video_receiver is Some { seq![PipelineKind::VideoReceiver] } else { seq![] });
    let b = (if t.video_sender is Some { seq![PipelineKind::VideoSender] } else { seq![] });
    let c2 = (if t.audio_receiver is Some { seq![PipelineKind::AudioReceiver] } else { seq![] });
    let d = (if t.audio_sender is Some { seq![PipelineKind::AudioSender] } else { seq![] });
    match m.pipeline {
        PipelineKind::VideoReceiver => {
            assert(r[0] == PipelineKind::VideoReceiver);
        },
        PipelineKind::VideoSender => {
            assert(r[a.len() as int] == PipelineKind::VideoSender);
        },
        PipelineKind::AudioReceiver => {
            assert(r[(a.len() + b.len()) as int] == PipelineKind::AudioReceiver);
        },
        PipelineKind::AudioSender => {
            assert(r[(a.len() + b.len() + c2.len()) as int] == PipelineKind::AudioSender);
        },
    }
}

/// A call whose remote side is written `host:port`, with no `:` in the host and the port
/// in decimal, over a known channel, is handled: the host and port become the session's
/// remote side and come back with the channel, and the route is recorded under it.
pub proof fn remote_address_is_host_and_port(
    s: SessionView,
    route_id: Seq<char>,
    channel_id: Seq<char>,
    host: Seq<char>,
    port: i32,
)
    requires
        !host.contains(':'),
        channel_of(channel_id) is Some,
    ensures
        ({
            let raddr = host + seq![':'] + decimal(port as int);
            let c = channel_of(channel_id)->0;
            let remote = SessionView { raddr: Some(host), rport: Some(port), ..s };
            handle_call_spec(s, route_id, channel_id, raddr) == Ok::<
                (SessionView, (Channel, Seq<char>, i32)),
                HandleCallError,
            >((with_route(remote, c, route_id), (c, host, port)))
        }),
{
    let rest = decimal(port as int);
    let raddr = host + seq![':'] + rest;
    let n = host.len() as int;
    assert(raddr[n] == ':');
    assert(raddr.contains(':'));
    let k = choose|i: int|
        0 <= i < raddr.len() && raddr[i] == ':' && forall|j: int| 0 <= j < i ==> raddr[j] != ':';
    assert(forall|j: int| 0 <= j < n ==> raddr[j] == host[j]);
    assert(0 <= n < raddr.len() && raddr[n] == ':' && forall|j: int| 0 <= j < n ==> raddr[j] != ':') by {
        assert forall|j: int| 0 <= j < n implies raddr[j] != ':' by {
            assert(raddr[j] == host[j]);
            if host[j] == ':' {
                assert(host.contains(':'));
            }
        }
    }
    assert(k == n) by {
        if k < n {
            assert(raddr[k] == host[k]);
            assert(host.contains(':'));
        }
        if k > n {
            assert(raddr[n] != ':');
        }
    }
    assert(raddr.take(n) =~= host);
    assert(raddr.skip(n + 1) =~= rest);
    assert(split_at_colon(raddr) == Some((host, rest)));
    parse_decimal_round_trip(port);
    let remote = SessionView { raddr: Some(host), rport: Some(port), ..s };
    assert(with_remote(s, raddr) =~= remote);
}

} // verus!

verus! {

/// A handled call files its route under the slot that its channel names, and leaves the
/// other three route slots, the running pipelines, the request flags and the answer as
/// they were: `VIDEO_SENDER` into `video_sender_route_id`, `VIDEO_RECEIVER` into
/// `video_receiver_route_id`, `AUDIO_SENDER` and `ONLY_AUDIO_SENDER` into
/// `audio_sender_route_id`, `AUDIO_RECEIVER` and `ONLY_AUDIO_RECEIVER` into
/// `audio_receiver_route_id`. A refused call changes nothing.
pub proof fn handled_call_files_route_under_its_channel(
    s: SessionView,
    route_id: Seq<char>,
    channel_id: Seq<char>,
    raddr: Seq<char>,
)
    ensures
        match handle_call_spec(s, route_id, channel_id, raddr) {
            Ok((t, _)) => {
                &&& channel_id == "VIDEO_SENDER"@ ==> {
                    &&& t.video_sender_route_id == Some(route_id)
                    &&& t.video_receiver_route_id == s.video_receiver_route_id
                    &&& t.audio_sender_route_id == s.audio_sender_route_id
                    &&& t.audio_receiver_route_id == s.audio_receiver_route_id
                }
                &&& channel_id == "VIDEO_RECEIVER"@ ==> {
                    &&& t.video_receiver_route_id == Some(route_id)
                    &&& t.video_sender_route_id == s.video_sender_route_id
                    &&& t.audio_sender_route_id == s.audio_sender_route_id
                    &&& t.audio_receiver_route_id == s.audio_receiver_route_id
                }
                &&& (channel_id == "AUDIO_SENDER"@ || channel_id == "ONLY_AUDIO_SENDER"@) ==> {
                    &&& t.audio_sender_route_id == Some(route_id)
                    &&& t.video_sender_route_id == s.video_sender_route_id
                    &&& t.video_receiver_route_id == s.video_receiver_route_id
                    &&& t.audio_receiver_route_id == s.audio_receiver_route_id
                }
                &&& (channel_id == "AUDIO_RECEIVER"@ || channel_id == "ONLY_AUDIO_RECEIVER"@) ==> {
                    &&& t.audio_receiver_route_id == Some(route_id)
                    &&& t.video_sender_route_id == s.video_sender_route_id
                    &&& t.video_receiver_route_id == s.video_receiver_route_id
                    &&& t.audio_sender_route_id == s.audio_sender_route_id
                }
                &&& t.video_receiver == s.video_receiver
                &&& t.video_sender == s.video_sender
                &&& t.audio_sender == s.audio_sender
                &&& t.audio_receiver == s.audio_receiver
                &&& t.dialogued == s.dialogued
                &&& t.accepted == s.accepted
                &&& forall|c: Channel| requested(t, c) == requested(s, c)
            },
            Err(_) => true,
        },
{
    reveal_strlit("VIDEO_SENDER");
    reveal_strlit("VIDEO_RECEIVER");
    reveal_strlit("AUDIO_SENDER");
    reveal_strlit("AUDIO_RECEIVER");
    reveal_strlit("ONLY_AUDIO_SENDER");
    reveal_strlit("ONLY_AUDIO_RECEIVER");
    assert("VIDEO_SENDER"@ != "AUDIO_SENDER"@) by {
        assert("VIDEO_SENDER"@[0] != "AUDIO_SENDER"@[0]);
    }
    assert("VIDEO_RECEIVER"@ != "AUDIO_RECEIVER"@) by {
        assert("VIDEO_RECEIVER"@[0] != "AUDIO_RECEIVER"@[0]);
    }
    assert("VIDEO_SENDER"@ != "VIDEO_RECEIVER"@) by {
        assert("VIDEO_SENDER"@.len() != "VIDEO_RECEIVER"@.len());
    }
    assert("AUDIO_SENDER"@ != "AUDIO_RECEIVER"@) by {
        assert("AUDIO_SENDER"@.len() != "AUDIO_RECEIVER"@.len());
    }
    assert("VIDEO_SENDER"@ != "AUDIO_RECEIVER"@) by {
        assert("VIDEO_SENDER"@.len() != "AUDIO_RECEIVER"@.len());
    }
    assert("VIDEO_RECEIVER"@ != "AUDIO_SENDER"@) by {
        assert("VIDEO_RECEIVER"@.len() != "AUDIO_SENDER"@.len());
    }
    assert("VIDEO_SENDER"@ != "ONLY_AUDIO_SENDER"@) by {
        assert("VIDEO_SENDER"@.len() != "ONLY_AUDIO_SENDER"@.len());
    }
    assert("VIDEO_SENDER"@ != "ONLY_AUDIO_RECEIVER"@) by {
        assert("VIDEO_SENDER"@.len() != "ONLY_AUDIO_RECEIVER"@.len());
    }
    assert("VIDEO_RECEIVER"@ != "ONLY_AUDIO_SENDER"@) by {
        assert("VIDEO_RECEIVER"@.len() != "ONLY_AUDIO_SENDER"@.len());
    }
    assert("VIDEO_RECEIVER"@ != "ONLY_AUDIO_RECEIVER"@) by {
        assert("VIDEO_RECEIVER"@.len() != "ONLY_AUDIO_RECEIVER"@.len());
    }
    assert("AUDIO_SENDER"@ != "ONLY_AUDIO_SENDER"@) by {
        assert("AUDIO_SENDER"@.len() != "ONLY_AUDIO_SENDER"@.len());
    }
    assert("AUDIO_SENDER"@ != "ONLY_AUDIO_RECEIVER"@) by {
        assert("AUDIO_SENDER"@.len() != "ONLY_AUDIO_RECEIVER"@.len());
    }
    assert("AUDIO_RECEIVER"@ != "ONLY_AUDIO_SENDER"@) by {
        assert("AUDIO_RECEIVER"@[0] != "ONLY_AUDIO_SENDER"@[0]);
    }
    assert("AUDIO_RECEIVER"@ != "ONLY_AUDIO_RECEIVER"@) by {
        assert("AUDIO_RECEIVER"@.len() != "ONLY_AUDIO_RECEIVER"@.len());
    }
    assert("ONLY_AUDIO_SENDER"@ != "ONLY_AUDIO_RECEIVER"@) by {
        assert("ONLY_AUDIO_SENDER"@.len() != "ONLY_AUDIO_RECEIVER"@.len());
    }
}

/// Starting a call's media sets the endpoint of the chosen pipeline to the call's remote
/// host and port and leaves the other three pipelines, the routes, the request flags and
/// the answer as they were; so every pipeline that ran before still runs, and the chosen
/// one runs too. The pipeline is the channel's own (`VIDEO_SENDER` starts the video
/// sender, `VIDEO_RECEIVER` the video receiver, the audio and audio-only senders the audio
/// sender, the audio and audio-only receivers the audio receiver), or the other end of it
/// when the user asked for the opposite side.
pub proof fn start_media_keeps_the_other_pipelines(s: SessionView, c: Channel, host: Seq<char>, port: i32)
    ensures
        ({
            let (t, m) = start_media_spec(s, c, host, port);
            let own = match c {
                Channel::VideoSender => PipelineKind::VideoSender,
                Channel::VideoReceiver => PipelineKind::VideoReceiver,
                Channel::AudioSender | Channel::OnlyAudioSender => PipelineKind::AudioSender,
                Channel::AudioReceiver | Channel::OnlyAudioReceiver => PipelineKind::AudioReceiver,
            };
            let other_end = match own {
                PipelineKind::VideoSender => PipelineKind::VideoReceiver,
                PipelineKind::VideoReceiver => PipelineKind::VideoSender,
                PipelineKind::AudioSender => PipelineKind::AudioReceiver,
                PipelineKind::AudioReceiver => PipelineKind::AudioSender,
            };
            &&& m.pipeline == (if requested(s, c) { other_end } else { own })
            &&& t.video_receiver == (if m.pipeline == PipelineKind::VideoReceiver { Some((host, port)) } else { s.video_receiver })
            &&& t.video_sender == (if m.pipeline == PipelineKind::VideoSender { Some((host, port)) } else { s.video_sender })
            &&& t.audio_receiver == (if m.pipeline == PipelineKind::AudioReceiver { Some((host, port)) } else { s.audio_receiver })
            &&& t.audio_sender == (if m.pipeline == PipelineKind::AudioSender { Some((host, port)) } else { s.audio_sender })
            &&& t.video_sender_route_id == s.video_sender_route_id
            &&& t.video_receiver_route_id == s.video_receiver_route_id
            &&& t.audio_sender_route_id == s.audio_sender_route_id
            &&& t.audio_receiver_route_id == s.audio_receiver_route_id
            &&& t.dialogued == s.dialogued
            &&& t.accepted == s.accepted
            &&& forall|k: PipelineKind| running_pipelines(s).contains(k) ==> running_pipelines(t).contains(k)
            &&& running_pipelines(t).contains(m.pipeline)
            &&& m.shows_picture == (c == Channel::VideoSender || c == Channel::VideoReceiver)
            &&& m.camera_video_visible == !(c == Channel::OnlyAudioSender || c == Channel::OnlyAudioReceiver)
        }),
{
    let (t, m) = start_media_spec(s, c, host, port);
    lemma_running_pipelines(s);
    lemma_running_pipelines(t);
}

proof fn lemma_running_pipelines(s: SessionView)
    ensures
        running_pipelines(s).contains(PipelineKind::VideoReceiver) <==> s.video_receiver is Some,
        running_pipelines(s).contains(PipelineKind::VideoSender) <==> s.video_sender is Some,
        running_pipelines(s).contains(PipelineKind::AudioReceiver) <==> s.audio_receiver is Some,
        running_pipelines(s).contains(PipelineKind::AudioSender) <==> s.audio_sender is Some,
        forall|k: PipelineKind| running_pipelines(s).contains(k) <==> match k {
            PipelineKind::VideoReceiver => s.video_receiver is Some,
            PipelineKind::VideoSender => s.video_sender is Some,
            PipelineKind::AudioReceiver => s.audio_receiver is Some,
            PipelineKind::AudioSender => s.audio_sender is Some,
        },
{
    let a = (if s.video_receiver is Some { seq![PipelineKind::VideoReceiver] } else { seq![] });
    let b = (if s.video_sender is Some { seq![PipelineKind::VideoSender] } else { seq![] });
    let c = (if s.audio_receiver is Some { seq![PipelineKind::AudioReceiver] } else { seq![] });
    let d = (if s.audio_sender is Some { seq![PipelineKind::AudioSender] } else { seq![] });
    let r = running_pipelines(s);
    assert(r =~= a + b + c + d);
    assert forall|k: PipelineKind| r.contains(k) <==> match k {
        PipelineKind::VideoReceiver => s.video_receiver is Some,
        PipelineKind::VideoSender => s.video_sender is Some,
        PipelineKind::AudioReceiver => s.audio_receiver is Some,
        PipelineKind::AudioSender => s.audio_sender is Some,
    } by {
        if r.contains(k) {
            let i = choose|i: int| 0 <= i < r.len() && r[i] == k;
            if i < a.len() {
                assert(r[i] == a[i]);
            } else if i < a.len() + b.len() {
                assert(r[i] == b[i - a.len()]);
            } else if i < a.len() + b.len() + c.len() {
                assert(r[i] == c[i - a.len() - b.len()]);
            } else {
                assert(r[i] == d[i - a.len() - b.len() - c.len()]);
            }
        }
        match k {
            PipelineKind::VideoReceiver => {
                if s.video_receiver is Some { assert(r[0] == k); }
            },
            PipelineKind::VideoSender => {
                if s.video_sender is Some { assert(r[a.len() as int] == k); }
            },
            PipelineKind::AudioReceiver => {
                if s.audio_receiver is Some { assert(r[(a.len() + b.len()) as int] == k); }
            },
            PipelineKind::AudioSender => {
                if s.audio_sender is Some { assert(r[(a.len() + b.len() + c.len()) as int] == k); }
            },
        }
    }
}

} // verus!
