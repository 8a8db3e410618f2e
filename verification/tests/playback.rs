use av_sync::playback::classify_received;
use av_sync::playback::effective_pts;
use av_sync::playback::DecodeError;
use av_sync::playback::quit_requested;
use av_sync::playback::Action;
use av_sync::playback::Decoded;
use av_sync::playback::Event;
use av_sync::playback::InputEvent;
use av_sync::playback::Key;
use av_sync::playback::PacketInfo;
use av_sync::playback::Route;
use av_sync::playback::Session;
use av_sync::playback::Stage;
use av_sync::playback::StopReason;
use av_sync::playback::Streams;

fn packet(stream_index: usize, pts: i64) -> Event {
    Event::PacketRead { packet: Some(PacketInfo { stream_index, pts: Some(pts) }) }
}

fn every_event() -> Vec<Event> {
    vec![
        Event::Polled { quit: true },
        Event::Polled { quit: false },
        Event::PacketRead { packet: None },
        packet(0, 1),
        packet(1, 1),
        Event::Submitted { ok: true },
        Event::Submitted { ok: false },
        Event::Received { outcome: Decoded::Frame },
        Event::Received { outcome: Decoded::NotReady },
        Event::Received { outcome: Decoded::Failed },
        Event::Presented { ok: true },
        Event::Presented { ok: false },
        Event::Enqueued,
    ]
}

/// Drives a fresh session with video stream 0 and audio stream 1 through `events`.
fn session_after(events: &[Event]) -> Session {
    let mut session = Session::new(0, Some(1), true);
    for event in events {
        session.handle(*event);
    }
    session
}

#[test]
fn quit_events() {
    assert!(InputEvent::Quit.is_quit());
    assert!(InputEvent::KeyDown { key: Key::Escape }.is_quit());
    assert!(!InputEvent::KeyDown { key: Key::Other }.is_quit());
    assert!(!InputEvent::Other.is_quit());
}

#[test]
fn quit_requested_by_any_event_of_a_poll() {
    assert!(!quit_requested(&[]));
    assert!(!quit_requested(&[InputEvent::Other, InputEvent::KeyDown { key: Key::Other }]));
    assert!(quit_requested(&[InputEvent::Quit]));
    assert!(quit_requested(&[InputEvent::Other, InputEvent::KeyDown { key: Key::Escape }]));
    assert!(quit_requested(&[InputEvent::Quit, InputEvent::Other]));
    assert!(quit_requested(&[
        InputEvent::Other,
        InputEvent::Other,
        InputEvent::Quit,
        InputEvent::Other
    ]));
}

#[test]
fn packets_are_routed_by_stream() {
    let both = Streams { video: 0, audio: Some(1) };
    assert_eq!(both.route(0), Route::Video);
    assert_eq!(both.route(1), Route::Audio);
    assert_eq!(both.route(2), Route::Skip);
    let video_only = Streams { video: 3, audio: None };
    assert_eq!(video_only.route(3), Route::Video);
    assert_eq!(video_only.route(0), Route::Skip);
    // A stream that is named twice is the video stream.
    let same = Streams { video: 2, audio: Some(2) };
    assert_eq!(same.route(2), Route::Video);
}

#[test]
fn packet_without_pts_counts_as_zero() {
    assert_eq!(effective_pts(Some(42)), 42);
    assert_eq!(effective_pts(Some(-7)), -7);
    assert_eq!(effective_pts(Some(i64::MIN)), i64::MIN);
    assert_eq!(effective_pts(None), 0);
}

#[test]
fn session_starts_by_polling() {
    let session = Session::new(0, Some(1), true);
    assert_eq!(session.stage(), Stage::Polling);
    assert_eq!(session.action(), Action::PollInput);
    assert_eq!(session.streams(), Streams { video: 0, audio: Some(1) });
    assert!(!session.is_stopped());
}

#[test]
fn quit_at_the_poll_stops_before_any_packet() {
    let mut session = Session::new(0, Some(1), true);
    let action = session.handle(Event::Polled { quit: true });
    assert_eq!(action, Action::Stop { reason: StopReason::QuitRequested });
    assert_eq!(session.stage(), Stage::Stopped { reason: StopReason::QuitRequested });
    assert!(session.is_stopped());
    // Nothing brings the session back.
    for event in every_event() {
        assert_eq!(session.handle(event), Action::Stop { reason: StopReason::QuitRequested });
        assert_eq!(session.stage(), Stage::Stopped { reason: StopReason::QuitRequested });
    }
}

#[test]
fn quit_after_some_packets_stops_at_the_next_poll() {
    let mut session = session_after(&[
        Event::Polled { quit: false },
        packet(0, 10),
        Event::Submitted { ok: true },
        Event::Received { outcome: Decoded::NotReady },
    ]);
    assert_eq!(session.action(), Action::PollInput);
    assert_eq!(
        session.handle(Event::Polled { quit: true }),
        Action::Stop { reason: StopReason::QuitRequested }
    );
}

#[test]
fn quit_is_not_seen_while_a_frame_is_paced() {
    let mut session = session_after(&[
        Event::Polled { quit: false },
        packet(0, 10),
        Event::Submitted { ok: true },
        Event::Received { outcome: Decoded::Frame },
    ]);
    assert_eq!(session.stage(), Stage::Presenting { pts: 10 });
    // A poll result that arrives now is not what the session waits for.
    assert_eq!(session.handle(Event::Polled { quit: true }), Action::Present { pts: 10 });
    assert_eq!(session.stage(), Stage::Presenting { pts: 10 });
    // The frame is presented, the decoder drained, and then the poll is made.
    assert_eq!(session.handle(Event::Presented { ok: true }), Action::ReceiveVideo);
    assert_eq!(
        session.handle(Event::Received { outcome: Decoded::NotReady }),
        Action::PollInput
    );
    assert_eq!(
        session.handle(Event::Polled { quit: true }),
        Action::Stop { reason: StopReason::QuitRequested }
    );
}

#[test]
fn quit_is_seen_in_no_stage_but_the_poll() {
    let prefixes: Vec<Vec<Event>> = vec![
        vec![Event::Polled { quit: false }],
        vec![Event::Polled { quit: false }, packet(0, 1)],
        vec![Event::Polled { quit: false }, packet(0, 1), Event::Submitted { ok: true }],
        vec![
            Event::Polled { quit: false },
            packet(0, 1),
            Event::Submitted { ok: true },
            Event::Received { outcome: Decoded::Frame },
        ],
        vec![Event::Polled { quit: false }, packet(1, 1)],
        vec![Event::Polled { quit: false }, packet(1, 1), Event::Submitted { ok: true }],
        vec![
            Event::Polled { quit: false },
            packet(1, 1),
            Event::Submitted { ok: true },
            Event::Received { outcome: Decoded::Frame },
        ],
    ];
    for prefix in prefixes {
        let before = session_after(&prefix);
        assert_ne!(before.stage(), Stage::Polling);
        let mut session = before;
        let action = session.handle(Event::Polled { quit: true });
        assert_eq!(session, before);
        assert_eq!(action, before.action());
    }
}

#[test]
fn end_of_stream_stops() {
    let mut session = Session::new(0, None, false);
    assert_eq!(session.handle(Event::Polled { quit: false }), Action::ReadPacket);
    assert_eq!(session.stage(), Stage::Reading);
    assert_eq!(
        session.handle(Event::PacketRead { packet: None }),
        Action::Stop { reason: StopReason::EndOfStream }
    );
    assert!(session.is_stopped());
    assert_eq!(session.handle(Event::Polled { quit: false }), Action::Stop {
        reason: StopReason::EndOfStream
    });
}

#[test]
fn video_packet_is_decoded_paced_and_presented() {
    let mut session = Session::new(0, Some(1), true);
    assert_eq!(session.handle(Event::Polled { quit: false }), Action::ReadPacket);
    assert_eq!(session.handle(packet(0, 3003)), Action::SubmitVideo);
    assert_eq!(session.stage(), Stage::SubmittingVideo { pts: 3003 });
    assert_eq!(session.handle(Event::Submitted { ok: true }), Action::ReceiveVideo);
    assert_eq!(session.stage(), Stage::ReceivingVideo { pts: 3003 });
    assert_eq!(
        session.handle(Event::Received { outcome: Decoded::Frame }),
        Action::Present { pts: 3003 }
    );
    assert_eq!(session.handle(Event::Presented { ok: true }), Action::ReceiveVideo);
    assert_eq!(
        session.handle(Event::Received { outcome: Decoded::NotReady }),
        Action::PollInput
    );
    assert_eq!(session.stage(), Stage::Polling);
}

#[test]
fn video_decoder_is_drained_of_every_frame() {
    let mut session = session_after(&[
        Event::Polled { quit: false },
        packet(0, 7),
        Event::Submitted { ok: true },
    ]);
    for _ in 0..3 {
        assert_eq!(
            session.handle(Event::Received { outcome: Decoded::Frame }),
            Action::Present { pts: 7 }
        );
        assert_eq!(session.handle(Event::Presented { ok: true }), Action::ReceiveVideo);
    }
    assert_eq!(
        session.handle(Event::Received { outcome: Decoded::NotReady }),
        Action::PollInput
    );
}

#[test]
fn video_packet_that_yields_no_frame_ends_the_pass() {
    let mut session = session_after(&[
        Event::Polled { quit: false },
        packet(0, 7),
        Event::Submitted { ok: true },
    ]);
    assert_eq!(
        session.handle(Event::Received { outcome: Decoded::NotReady }),
        Action::PollInput
    );
    assert!(!session.is_stopped());
}

#[test]
fn audio_packet_is_decoded_and_enqueued() {
    let mut session = Session::new(0, Some(1), true);
    session.handle(Event::Polled { quit: false });
    assert_eq!(session.handle(packet(1, 1024)), Action::SubmitAudio);
    assert_eq!(session.stage(), Stage::SubmittingAudio { pts: 1024 });
    assert_eq!(session.handle(Event::Submitted { ok: true }), Action::ReceiveAudio);
    assert_eq!(
        session.handle(Event::Received { outcome: Decoded::Frame }),
        Action::Enqueue { pts: 1024 }
    );
    assert_eq!(session.stage(), Stage::Enqueueing { pts: 1024 });
    assert_eq!(session.handle(Event::Enqueued), Action::ReceiveAudio);
    assert_eq!(
        session.handle(Event::Received { outcome: Decoded::Frame }),
        Action::Enqueue { pts: 1024 }
    );
    assert_eq!(session.handle(Event::Enqueued), Action::ReceiveAudio);
    assert_eq!(
        session.handle(Event::Received { outcome: Decoded::NotReady }),
        Action::PollInput
    );
}

#[test]
fn packet_of_another_stream_is_skipped() {
    let mut session = Session::new(0, Some(1), true);
    session.handle(Event::Polled { quit: false });
    assert_eq!(session.handle(packet(5, 99)), Action::PollInput);
    assert_eq!(session.stage(), Stage::Polling);
}

#[test]
fn audio_packet_is_skipped_without_an_audio_stream() {
    let mut session = Session::new(0, None, false);
    session.handle(Event::Polled { quit: false });
    assert_eq!(session.handle(packet(1, 99)), Action::PollInput);
}

#[test]
fn packet_without_pts_is_played_under_zero() {
    let mut session = Session::new(0, Some(1), true);
    session.handle(Event::Polled { quit: false });
    let bare = Event::PacketRead { packet: Some(PacketInfo { stream_index: 0, pts: None }) };
    assert_eq!(session.handle(bare), Action::SubmitVideo);
    assert_eq!(session.stage(), Stage::SubmittingVideo { pts: 0 });
    session.handle(Event::Submitted { ok: true });
    assert_eq!(
        session.handle(Event::Received { outcome: Decoded::Frame }),
        Action::Present { pts: 0 }
    );
}

#[test]
fn decoder_failures_are_fatal() {
    let failed = Action::Stop { reason: StopReason::DecodeFailed };
    let mut refused_video = session_after(&[Event::Polled { quit: false }, packet(0, 1)]);
    assert_eq!(refused_video.handle(Event::Submitted { ok: false }), failed);
    let mut refused_audio = session_after(&[Event::Polled { quit: false }, packet(1, 1)]);
    assert_eq!(refused_audio.handle(Event::Submitted { ok: false }), failed);
    let mut broken_video = session_after(&[
        Event::Polled { quit: false },
        packet(0, 1),
        Event::Submitted { ok: true },
    ]);
    assert_eq!(broken_video.handle(Event::Received { outcome: Decoded::Failed }), failed);
    let mut broken_audio = session_after(&[
        Event::Polled { quit: false },
        packet(1, 1),
        Event::Submitted { ok: true },
    ]);
    assert_eq!(broken_audio.handle(Event::Received { outcome: Decoded::Failed }), failed);
    assert!(broken_audio.is_stopped());
}

#[test]
fn presentation_failure_is_fatal() {
    let mut session = session_after(&[
        Event::Polled { quit: false },
        packet(0, 1),
        Event::Submitted { ok: true },
        Event::Received { outcome: Decoded::Frame },
    ]);
    assert_eq!(
        session.handle(Event::Presented { ok: false }),
        Action::Stop { reason: StopReason::PresentFailed }
    );
    assert_eq!(session.stage(), Stage::Stopped { reason: StopReason::PresentFailed });
}

#[test]
fn event_that_is_not_awaited_repeats_the_action() {
    let mut session = Session::new(0, Some(1), true);
    assert_eq!(session.handle(Event::Enqueued), Action::PollInput);
    assert_eq!(session.handle(Event::Submitted { ok: false }), Action::PollInput);
    assert_eq!(session.handle(packet(0, 1)), Action::PollInput);
    assert_eq!(session.stage(), Stage::Polling);
    session.handle(Event::Polled { quit: false });
    assert_eq!(session.handle(Event::Polled { quit: true }), Action::ReadPacket);
    assert_eq!(session.handle(Event::Presented { ok: false }), Action::ReadPacket);
    assert_eq!(session.stage(), Stage::Reading);
}

#[test]
fn packet_is_pulled_only_after_a_poll_without_quit() {
    let prefixes: Vec<Vec<Event>> = vec![
        vec![],
        vec![Event::Polled { quit: false }, packet(0, 1)],
        vec![Event::Polled { quit: false }, packet(0, 1), Event::Submitted { ok: true }],
        vec![
            Event::Polled { quit: false },
            packet(0, 1),
            Event::Submitted { ok: true },
            Event::Received { outcome: Decoded::Frame },
        ],
        vec![Event::Polled { quit: false }, packet(1, 1)],
        vec![Event::Polled { quit: false }, packet(1, 1), Event::Submitted { ok: true }],
        vec![
            Event::Polled { quit: false },
            packet(1, 1),
            Event::Submitted { ok: true },
            Event::Received { outcome: Decoded::Frame },
        ],
        vec![Event::Polled { quit: true }],
        vec![Event::Polled { quit: false }, Event::PacketRead { packet: None }],
    ];
    for prefix in prefixes {
        let before = session_after(&prefix);
        for event in every_event() {
            let mut session = before;
            if session.handle(event) == Action::ReadPacket {
                assert_eq!(before.stage(), Stage::Polling);
                assert_eq!(event, Event::Polled { quit: false });
            }
        }
    }
}

#[test]
fn decoder_answers_are_classified() {
    const EAGAIN: i32 = 11;
    assert_eq!(classify_received(Ok(()), EAGAIN), Decoded::Frame);
    assert_eq!(
        classify_received(Err(DecodeError::System { errno: EAGAIN }), EAGAIN),
        Decoded::NotReady
    );
    assert_eq!(classify_received(Err(DecodeError::System { errno: 12 }), EAGAIN), Decoded::Failed);
    assert_eq!(classify_received(Err(DecodeError::System { errno: 0 }), EAGAIN), Decoded::Failed);
    assert_eq!(classify_received(Err(DecodeError::Other), EAGAIN), Decoded::Failed);
    // The code for "try again" is the system's: elsewhere it is another number.
    assert_eq!(classify_received(Err(DecodeError::System { errno: 35 }), 35), Decoded::NotReady);
    assert_eq!(classify_received(Err(DecodeError::System { errno: 11 }), 35), Decoded::Failed);
}

#[test]
fn audio_stream_without_a_decoder_is_not_played() {
    let mut session = Session::new(0, Some(1), false);
    assert_eq!(session.streams(), Streams { video: 0, audio: None });
    session.handle(Event::Polled { quit: false });
    assert_eq!(session.handle(packet(1, 99)), Action::PollInput);
    let none = Session::new(0, None, true);
    assert_eq!(none.streams(), Streams { video: 0, audio: None });
}
