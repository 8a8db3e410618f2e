//! The playback loop, as a machine that is told what happened and says what to
//! do next.
//!
//! One pass of the loop polls the input for a request to quit, pulls a packet
//! from the demultiplexer and routes it by its stream: a video packet goes to
//! the video decoder and every frame that comes out is paced and presented, an
//! audio packet goes to the audio decoder and every frame that comes out is
//! enqueued for the audio device. The machine decides; whoever drives it
//! performs the action and reports the outcome as the next event.

use vstd::prelude::*;

verus! {

/// A key that was pressed.
#[derive(Clone, Copy, Debug, PartialEq, Eq, Structural)]
pub enum Key {
    Escape,
    Other,
}

/// What the input source reported.
#[derive(Clone, Copy, Debug, PartialEq, Eq, Structural)]
pub enum InputEvent {
    /// The window was asked to close.
    Quit,
    KeyDown { key: Key },
    Other,
}

impl InputEvent {
    /// The event asks for playback to end: the window was closed, or Escape
    /// was pressed.
    pub open spec fn is_quit_spec(self) -> bool {
        self == InputEvent::Quit || self == (InputEvent::KeyDown { key: Key::Escape })
    }

    /// Whether the event asks for playback to end.
    pub fn is_quit(&self) -> (quit: bool)
        ensures
            quit == self.is_quit_spec(),
    {
        match self {
            InputEvent::Quit => true,
            InputEvent::KeyDown { key: Key::Escape } => true,
            _ => false,
        }
    }
}

/// Whether any of the events that one poll brought asks for playback to end.
pub fn quit_requested(events: &[InputEvent]) -> (quit: bool)
    ensures
        quit <==> exists|i: int| 0 <= i < events@.len() && events@[i].is_quit_spec(),
{
    let mut i: usize = 0;
    while i < events.len()
        invariant
            i <= events@.len(),
            forall|j: int| 0 <= j < i ==> !events@[j].is_quit_spec(),
        decreases events@.len() - i,
    {
        if events[i].is_quit() {
            return true;
        }
        i = i + 1;
    }
    false
}

/// What the loop needs to know of a compressed packet.
#[derive(Clone, Copy, Debug, PartialEq, Eq)]
pub struct PacketInfo {
    pub stream_index: usize,
    /// The packet's presentation timestamp, where it carries one.
    pub pts: Option<i64>,
}

/// The streams that are played.
#[derive(Clone, Copy, Debug, PartialEq, Eq)]
pub struct Streams {
    /// The index of the video stream.
    pub video: usize,
    /// The index of the audio stream, where there is one and it can be
    /// decoded.
    pub audio: Option<usize>,
}

/// Where a packet goes.
#[derive(Clone, Copy, Debug, PartialEq, Eq, Structural)]
pub enum Route {
    Video,
    Audio,
    /// The packet belongs to a stream that is not played.
    Skip,
}

impl Streams {
    /// A packet of the video stream goes to the video decoder, one of the
    /// audio stream to the audio decoder, any other nowhere.
    pub open spec fn route_spec(self, stream_index: usize) -> Route {
        if stream_index == self.video {
            Route::Video
        } else if self.audio == Some(stream_index) {
            Route::Audio
        } else {
            Route::Skip
        }
    }

    /// Where a packet of the stream `stream_index` goes.
    pub fn route(&self, stream_index: usize) -> (route: Route)
        ensures
            route == self.route_spec(stream_index),
    {
        if stream_index == self.video {
            Route::Video
        } else {
            match self.audio {
                Some(audio) => if audio == stream_index {
                    Route::Audio
                } else {
                    Route::Skip
                },
                None => Route::Skip,
            }
        }
    }
}

/// The timestamp under which a packet's frames are paced or enqueued: its
/// own, or zero where it has none.
pub open spec fn effective_pts_spec(pts: Option<i64>) -> i64 {
    match pts {
        Some(p) => p,
        None => 0,
    }
}

/// The timestamp under which a packet's frames are paced or enqueued.
pub fn effective_pts(pts: Option<i64>) -> (p: i64)
    ensures
        p == effective_pts_spec(pts),
{
    match pts {
        Some(p) => p,
        None => 0,
    }
}

/// Why playback ended.
#[derive(Clone, Copy, Debug, PartialEq, Eq, Structural)]
pub enum StopReason {
    /// The user asked for it.
    QuitRequested,
    /// The demultiplexer has no more packets.
    EndOfStream,
    /// A decoder refused a packet, or failed to hand out or convert a frame.
    DecodeFailed,
    /// A frame could not be presented.
    PresentFailed,
}

/// What came of asking a decoder for a frame.
#[derive(Clone, Copy, Debug, PartialEq, Eq, Structural)]
pub enum Decoded {
    /// A frame was handed out.
    Frame,
    /// The decoder has nothing to hand out until it is given more input. This
    /// is no failure.
    NotReady,
    Failed,
}

/// Why a decoder handed out no frame.
#[derive(Clone, Copy, Debug, PartialEq, Eq, Structural)]
pub enum DecodeError {
    /// The decoder reported an error code of the operating system.
    System { errno: i32 },
    /// Any other failure.
    Other,
}

/// What a decoder's answer means, where `again` is the system's error code
/// for "try again": with that code the decoder says that it needs more input
/// before it can hand out a frame, which is no failure; every other error is
/// one.
pub open spec fn classify_received_spec(received: Result<(), DecodeError>, again: i32) -> Decoded {
    match received {
        Ok(_) => Decoded::Frame,
        Err(DecodeError::System { errno }) => if errno == again {
            Decoded::NotReady
        } else {
            Decoded::Failed
        },
        Err(DecodeError::Other) => Decoded::Failed,
    }
}

/// What a decoder's answer means, where `again` is the system's error code
/// for "try again".
pub fn classify_received(received: Result<(), DecodeError>, again: i32) -> (outcome: Decoded)
    ensures
        outcome == classify_received_spec(received, again),
{
    match received {
        Ok(_) => Decoded::Frame,
        Err(DecodeError::System { errno }) => if errno == again {
            Decoded::NotReady
        } else {
            Decoded::Failed
        },
        Err(DecodeError::Other) => Decoded::Failed,
    }
}

/// Where in a pass of the loop the session stands: which outcome it waits
/// for.
#[derive(Clone, Copy, Debug, PartialEq, Eq, Structural)]
pub enum Stage {
    /// The input is being polled.
    Polling,
    /// The next packet is being pulled.
    Reading,
    /// A video packet is being handed to its decoder.
    SubmittingVideo { pts: i64 },
    /// The video decoder is being asked for a frame.
    ReceivingVideo { pts: i64 },
    /// A video frame is being paced and presented.
    Presenting { pts: i64 },
    /// An audio packet is being handed to its decoder.
    SubmittingAudio { pts: i64 },
    /// The audio decoder is being asked for a frame.
    ReceivingAudio { pts: i64 },
    /// The samples of an audio frame are being enqueued.
    Enqueueing { pts: i64 },
    /// Playback has ended.
    Stopped { reason: StopReason },
}

/// The outcome of an action.
#[derive(Clone, Copy, Debug, PartialEq, Eq)]
pub enum Event {
    /// The input was polled; `quit` says whether playback is asked to end.
    Polled { quit: bool },
    /// The demultiplexer was asked for a packet and had one, or none.
    PacketRead { packet: Option<PacketInfo> },
    /// A packet was handed to a decoder, which took it or failed.
    Submitted { ok: bool },
    /// A decoder was asked for a frame.
    Received { outcome: Decoded },
    /// A frame was paced and handed to the display, which took it or failed.
    Presented { ok: bool },
    /// The samples of a frame were handed to the audio queue.
    Enqueued,
}

/// What to do next.
#[derive(Clone, Copy, Debug, PartialEq, Eq, Structural)]
pub enum Action {
    /// Poll the input for a request to quit.
    PollInput,
    /// Pull the next packet from the demultiplexer.
    ReadPacket,
    /// Hand the packet to the video decoder.
    SubmitVideo,
    /// Ask the video decoder for a frame, and convert it for display.
    ReceiveVideo,
    /// Pace the frame under the timestamp `pts`, then present it.
    Present { pts: i64 },
    /// Hand the packet to the audio decoder.
    SubmitAudio,
    /// Ask the audio decoder for a frame.
    ReceiveAudio,
    /// Enqueue the frame's samples under the timestamp `pts`.
    Enqueue { pts: i64 },
    /// Leave the loop.
    Stop { reason: StopReason },
}

impl Stage {
    /// The action whose outcome the stage waits for.
    pub open spec fn action(self) -> Action {
        match self {
            Stage::Polling => Action::PollInput,
            Stage::Reading => Action::ReadPacket,
            Stage::SubmittingVideo { pts } => Action::SubmitVideo,
            Stage::ReceivingVideo { pts } => Action::ReceiveVideo,
            Stage::Presenting { pts } => Action::Present { pts },
            Stage::SubmittingAudio { pts } => Action::SubmitAudio,
            Stage::ReceivingAudio { pts } => Action::ReceiveAudio,
            Stage::Enqueueing { pts } => Action::Enqueue { pts },
            Stage::Stopped { reason } => Action::Stop { reason },
        }
    }

    /// Playback has ended.
    pub open spec fn is_stopped(self) -> bool {
        self is Stopped
    }

    /// The stage that follows when `event` is reported. An event that is not
    /// the outcome the stage waits for changes nothing.
    pub open spec fn next(self, streams: Streams, event: Event) -> Stage {
        match (self, event) {
            (Stage::Polling, Event::Polled { quit }) => if quit {
                Stage::Stopped { reason: StopReason::QuitRequested }
            } else {
                Stage::Reading
            },
            (Stage::Reading, Event::PacketRead { packet }) => match packet {
                None => Stage::Stopped { reason: StopReason::EndOfStream },
                Some(info) => match streams.route_spec(info.stream_index) {
                    Route::Video => Stage::SubmittingVideo { pts: effective_pts_spec(info.pts) },
                    Route::Audio => Stage::SubmittingAudio { pts: effective_pts_spec(info.pts) },
                    Route::Skip => Stage::Polling,
                },
            },
            (Stage::SubmittingVideo { pts }, Event::Submitted { ok }) => if ok {
                Stage::ReceivingVideo { pts }
            } else {
                Stage::Stopped { reason: StopReason::DecodeFailed }
            },
            (Stage::ReceivingVideo { pts }, Event::Received { outcome }) => match outcome {
                Decoded::Frame => Stage::Presenting { pts },
                Decoded::NotReady => Stage::Polling,
                Decoded::Failed => Stage::Stopped { reason: StopReason::DecodeFailed },
            },
            (Stage::Presenting { pts }, Event::Presented { ok }) => if ok {
                Stage::ReceivingVideo { pts }
            } else {
                Stage::Stopped { reason: StopReason::PresentFailed }
            },
            (Stage::SubmittingAudio { pts }, Event::Submitted { ok }) => if ok {
                Stage::ReceivingAudio { pts }
            } else {
                Stage::Stopped { reason: StopReason::DecodeFailed }
            },
            (Stage::ReceivingAudio { pts }, Event::Received { outcome }) => match outcome {
                Decoded::Frame => Stage::Enqueueing { pts },
                Decoded::NotReady => Stage::Polling,
                Decoded::Failed => Stage::Stopped { reason: StopReason::DecodeFailed },
            },
            (Stage::Enqueueing { pts }, Event::Enqueued) => Stage::ReceivingAudio { pts },
            _ => self,
        }
    }

    /// The stage reached when the events `events` are reported in order.
    pub open spec fn after(self, streams: Streams, events: Seq<Event>) -> Stage
        decreases events.len(),
    {
        if events.len() == 0 {
            self
        } else {
            self.after(streams, events.drop_last()).next(streams, events.last())
        }
    }
}

/// A request to quit that the poll reports ends playback on the spot: the
/// next action is to leave the loop, not to pull a packet.
pub proof fn lemma_quit_at_poll_stops(streams: Streams)
    ensures
        Stage::Polling.next(streams, Event::Polled { quit: true }) == (Stage::Stopped {
            reason: StopReason::QuitRequested,
        }),
        Stage::Polling.next(streams, Event::Polled { quit: true }).action() == (Action::Stop {
            reason: StopReason::QuitRequested,
        }),
        Stage::Polling.next(streams, Event::Polled { quit: false }) == Stage::Reading,
{
}

/// Once playback has ended nothing starts it again: whatever is reported, the
/// stage stays, and the action stays to leave the loop. No packet is pulled
/// or decoded any more.
pub proof fn lemma_stopped_is_final(stage: Stage, streams: Streams, events: Seq<Event>)
    requires
        stage.is_stopped(),
    ensures
        stage.after(streams, events) == stage,
        stage.after(streams, events).action() == (Action::Stop { reason: stage->reason }),
    decreases events.len(),
{
    if events.len() > 0 {
        lemma_stopped_is_final(stage, streams, events.drop_last());
    }
}

/// A request to quit is honoured at the poll and nowhere else. In every
/// other stage, the one in which a frame is held back for its target
/// included, no event ends playback for that reason: the work under way is
/// finished first, and the request is seen when the loop polls again.
pub proof fn lemma_quit_is_seen_only_at_poll(stage: Stage, streams: Streams, event: Event)
    requires
        stage != Stage::Polling,
        stage != (Stage::Stopped { reason: StopReason::QuitRequested }),
    ensures
        stage.next(streams, event) != (Stage::Stopped { reason: StopReason::QuitRequested }),
        stage is Presenting && !(event is Presented) ==> stage.next(streams, event) == stage,
{
}

/// A packet is pulled only after a poll that brought no request to quit: the
/// input is polled once before every packet.
pub proof fn lemma_packet_follows_clean_poll(stage: Stage, streams: Streams, event: Event)
    requires
        stage != Stage::Reading,
        stage.next(streams, event).action() == Action::ReadPacket,
    ensures
        stage == Stage::Polling,
        event == (Event::Polled { quit: false }),
{
}

/// A pass ends where it began: the input is polled again once the packet's
/// stream is found not to be played, or its decoder has no more frames to hand
/// out, and in no other way.
pub proof fn lemma_poll_follows_finished_pass(stage: Stage, streams: Streams, event: Event)
    requires
        stage != Stage::Polling,
        stage.next(streams, event) == Stage::Polling,
    ensures
        stage == Stage::Reading || stage is ReceivingVideo || stage is ReceivingAudio,
        stage == Stage::Reading ==> event is PacketRead && event->packet is Some
            && streams.route_spec(event->packet->0.stream_index) == Route::Skip,
        stage != Stage::Reading ==> event == (Event::Received { outcome: Decoded::NotReady }),
{
}

/// The end of the stream ends playback, and so does every failure to decode
/// or to present; a decoder that has nothing to hand out yet ends only the
/// pass, and the loop polls again.
pub proof fn lemma_endings(streams: Streams, pts: i64)
    ensures
        Stage::Reading.next(streams, Event::PacketRead { packet: None }) == (Stage::Stopped {
            reason: StopReason::EndOfStream,
        }),
        (Stage::SubmittingVideo { pts }).next(streams, Event::Submitted { ok: false }) == (
        Stage::Stopped { reason: StopReason::DecodeFailed }),
        (Stage::SubmittingAudio { pts }).next(streams, Event::Submitted { ok: false }) == (
        Stage::Stopped { reason: StopReason::DecodeFailed }),
        (Stage::ReceivingVideo { pts }).next(streams, Event::Received { outcome: Decoded::Failed })
            == (Stage::Stopped { reason: StopReason::DecodeFailed }),
        (Stage::ReceivingAudio { pts }).next(streams, Event::Received { outcome: Decoded::Failed })
            == (Stage::Stopped { reason: StopReason::DecodeFailed }),
        (Stage::Presenting { pts }).next(streams, Event::Presented { ok: false }) == (
        Stage::Stopped { reason: StopReason::PresentFailed }),
        (Stage::ReceivingVideo { pts }).next(
            streams,
            Event::Received { outcome: Decoded::NotReady },
        ) == Stage::Polling,
        (Stage::ReceivingAudio { pts }).next(
            streams,
            Event::Received { outcome: Decoded::NotReady },
        ) == Stage::Polling,
{
}

/// Every frame that a decoder hands out is presented, or enqueued, under the
/// timestamp of the packet it came from, and the decoder is then asked for
/// the next.
pub proof fn lemma_frames_keep_their_packet_pts(streams: Streams, info: PacketInfo, pts: i64)
    ensures
        streams.route_spec(info.stream_index) == Route::Video ==> Stage::Reading.next(
            streams,
            Event::PacketRead { packet: Some(info) },
        ).next(streams, Event::Submitted { ok: true }).next(
            streams,
            Event::Received { outcome: Decoded::Frame },
        ).action() == (Action::Present { pts: effective_pts_spec(info.pts) }),
        streams.route_spec(info.stream_index) == Route::Audio ==> Stage::Reading.next(
            streams,
            Event::PacketRead { packet: Some(info) },
        ).next(streams, Event::Submitted { ok: true }).next(
            streams,
            Event::Received { outcome: Decoded::Frame },
        ).action() == (Action::Enqueue { pts: effective_pts_spec(info.pts) }),
        streams.route_spec(info.stream_index) == Route::Skip ==> Stage::Reading.next(
            streams,
            Event::PacketRead { packet: Some(info) },
        ) == Stage::Polling,
        (Stage::Presenting { pts }).next(streams, Event::Presented { ok: true }) == (
        Stage::ReceivingVideo { pts }),
        (Stage::Enqueueing { pts }).next(streams, Event::Enqueued) == (Stage::ReceivingAudio {
            pts,
        }),
{
}

/// One playback session: the streams that are played and the stage that the
/// loop has reached.
#[derive(Clone, Copy, Debug, PartialEq, Eq)]
pub struct Session {
    streams: Streams,
    stage: Stage,
}

impl Session {
    /// The streams that are played.
    pub closed spec fn spec_streams(&self) -> Streams {
        self.streams
    }

    /// The stage that the loop has reached.
    pub closed spec fn spec_stage(&self) -> Stage {
        self.stage
    }

    /// A session at the top of its first pass, for the video stream `video`
    /// and, where the container has an audio stream `audio` and a decoder was
    /// opened for it, that audio stream. Without a decoder the audio stream is
    /// not played.
    pub fn new(video: usize, audio: Option<usize>, audio_decoder: bool) -> (session: Session)
        ensures
            session.spec_streams() == (Streams {
                video,
                audio: if audio_decoder {
                    audio
                } else {
                    None
                },
            }),
            session.spec_stage() == Stage::Polling,
    {
        let played: Option<usize> = if audio_decoder {
            audio
        } else {
            None
        };
        Session { streams: Streams { video, audio: played }, stage: Stage::Polling }
    }

    /// The streams that are played.
    pub fn streams(&self) -> (streams: Streams)
        ensures
            streams == self.spec_streams(),
    {
        self.streams
    }

    /// The stage that the loop has reached.
    pub fn stage(&self) -> (stage: Stage)
        ensures
            stage == self.spec_stage(),
    {
        self.stage
    }

    /// Whether playback has ended.
    pub fn is_stopped(&self) -> (stopped: bool)
        ensures
            stopped == self.spec_stage().is_stopped(),
    {
        match self.stage {
            Stage::Stopped { reason } => true,
            _ => false,
        }
    }

    /// The action whose outcome the session waits for.
    pub fn action(&self) -> (action: Action)
        ensures
            action == self.spec_stage().action(),
    {
        match self.stage {
            Stage::Polling => Action::PollInput,
            Stage::Reading => Action::ReadPacket,
            Stage::SubmittingVideo { pts } => Action::SubmitVideo,
            Stage::ReceivingVideo { pts } => Action::ReceiveVideo,
            Stage::Presenting { pts } => Action::Present { pts },
            Stage::SubmittingAudio { pts } => Action::SubmitAudio,
            Stage::ReceivingAudio { pts } => Action::ReceiveAudio,
            Stage::Enqueueing { pts } => Action::Enqueue { pts },
            Stage::Stopped { reason } => Action::Stop { reason },
        }
    }

    /// Takes the outcome of the action under way and says what to do next.
    pub fn handle(&mut self, event: Event) -> (action: Action)
        ensures
            final(self).spec_streams() == old(self).spec_streams(),
            final(self).spec_stage() == old(self).spec_stage().next(
                old(self).spec_streams(),
                event,
            ),
            action == final(self).spec_stage().action(),
    {
        let stage: Stage = match (self.stage, event) {
            (Stage::Polling, Event::Polled { quit }) => if quit {
                Stage::Stopped { reason: StopReason::QuitRequested }
            } else {
                Stage::Reading
            },
            (Stage::Reading, Event::PacketRead { packet }) => match packet {
                None => Stage::Stopped { reason: StopReason::EndOfStream },
                Some(info) => match self.streams.route(info.stream_index) {
                    Route::Video => Stage::SubmittingVideo { pts: effective_pts(info.pts) },
                    Route::Audio => Stage::SubmittingAudio { pts: effective_pts(info.pts) },
                    Route::Skip => Stage::Polling,
                },
            },
            (Stage::SubmittingVideo { pts }, Event::Submitted { ok }) => if ok {
                Stage::ReceivingVideo { pts }
            } else {
                Stage::Stopped { reason: StopReason::DecodeFailed }
            },
            (Stage::ReceivingVideo { pts }, Event::Received { outcome }) => match outcome {
                Decoded::Frame => Stage::Presenting { pts },
                Decoded::NotReady => Stage::Polling,
                Decoded::Failed => Stage::Stopped { reason: StopReason::DecodeFailed },
            },
            (Stage::Presenting { pts }, Event::Presented { ok }) => if ok {
                Stage::ReceivingVideo { pts }
            } else {
                Stage::Stopped { reason: StopReason::PresentFailed }
            },
            (Stage::SubmittingAudio { pts }, Event::Submitted { ok }) => if ok {
                Stage::ReceivingAudio { pts }
            } else {
                Stage::Stopped { reason: StopReason::DecodeFailed }
            },
            (Stage::ReceivingAudio { pts }, Event::Received { outcome }) => match outcome {
                Decoded::Frame => Stage::Enqueueing { pts },
                Decoded::NotReady => Stage::Polling,
                Decoded::Failed => Stage::Stopped { reason: StopReason::DecodeFailed },
            },
            (Stage::Enqueueing { pts }, Event::Enqueued) => Stage::ReceivingAudio { pts },
            (stage, _) => stage,
        };
        self.stage = stage;
        self.action()
    }
}

} // verus!
