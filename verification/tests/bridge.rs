use carechords::bridge::{
    packet_duration_ns, AudioBridge, BridgeAction, Frame, SinkEvent, CHANNELS, SAMPLE_RATE,
};

fn frame(pts_ns: u64, duration_ns: u64) -> BridgeAction {
    BridgeAction::PushFrame(Frame { pts_ns, duration_ns })
}

#[test]
fn format_is_stereo_at_44100() {
    assert_eq!(SAMPLE_RATE, 44_100);
    assert_eq!(CHANNELS, 2);
}

#[test]
fn scenario_two_stereo_frames_at_44100() {
    let mut b = AudioBridge::new();
    assert_eq!(b.cumulative_ns(), 0);
    assert_eq!(b.on_event(SinkEvent::Packet(4), 0), frame(0, 45_351));
    assert_eq!(b.cumulative_ns(), 45_351);
    let expected = (2.0f64 * 1e9 / 44_100.0).round() as u64;
    assert_eq!(expected, 45_351);
}

#[test]
fn duration_truncates() {
    assert_eq!(packet_duration_ns(0), Some(0));
    assert_eq!(packet_duration_ns(1), Some(0));
    assert_eq!(packet_duration_ns(2), Some(22_675));
    assert_eq!(packet_duration_ns(3), Some(22_675));
    assert_eq!(packet_duration_ns(2 * 44_100), Some(1_000_000_000));
    assert_eq!(packet_duration_ns(2 * 44_100 + 2), Some(1_000_022_675));
}

#[test]
fn empty_packet_is_dropped() {
    let mut b = AudioBridge::new();
    assert_eq!(b.on_event(SinkEvent::Packet(0), 0), BridgeAction::Nothing);
    assert_eq!(b.cumulative_ns(), 0);
}

#[test]
fn packet_of_one_value_has_no_duration_but_is_pushed() {
    let mut b = AudioBridge::new();
    assert_eq!(b.on_event(SinkEvent::Packet(1), 0), frame(0, 0));
    assert_eq!(b.cumulative_ns(), 0);
}

#[test]
fn frames_within_an_interval_abut() {
    let mut b = AudioBridge::new();
    assert_eq!(b.on_event(SinkEvent::Start, 1_000), BridgeAction::Nothing);
    let mut pts = 0u64;
    for samples in [4usize, 2048, 6, 0, 88_200, 2] {
        let duration = packet_duration_ns(samples).unwrap();
        let action = b.on_event(SinkEvent::Packet(samples), 999_999);
        if samples == 0 {
            assert_eq!(action, BridgeAction::Nothing);
        } else {
            assert_eq!(action, frame(pts, duration));
        }
        pts += duration;
        assert_eq!(b.cumulative_ns(), pts);
    }
}

#[test]
fn first_start_adds_nothing() {
    let mut b = AudioBridge::new();
    assert_eq!(b.on_event(SinkEvent::Start, 123_456_789), BridgeAction::Nothing);
    assert_eq!(b.cumulative_ns(), 0);
}

#[test]
fn start_after_stop_adds_the_pause() {
    let mut b = AudioBridge::new();
    b.on_event(SinkEvent::Start, 100);
    assert_eq!(b.on_event(SinkEvent::Packet(4), 100), frame(0, 45_351));
    assert_eq!(b.on_event(SinkEvent::Stop, 50_000), BridgeAction::Nothing);
    assert_eq!(b.cumulative_ns(), 45_351);
    assert_eq!(b.on_event(SinkEvent::Start, 80_000), BridgeAction::Nothing);
    assert_eq!(b.cumulative_ns(), 45_351 + 30_000);
    assert_eq!(b.on_event(SinkEvent::Packet(4), 80_000), frame(75_351, 45_351));
}

#[test]
fn timestamps_never_decrease() {
    let mut b = AudioBridge::new();
    let events = [
        (SinkEvent::Start, 10u64),
        (SinkEvent::Packet(8), 11),
        (SinkEvent::Packet(2), 12),
        (SinkEvent::Stop, 13),
        (SinkEvent::Packet(4), 14),
        (SinkEvent::Start, 13),
        (SinkEvent::Packet(0), 15),
        (SinkEvent::Packet(1), 16),
        (SinkEvent::Stop, 1_000_000),
        (SinkEvent::Start, 2_000_000),
        (SinkEvent::Packet(100), 2_000_001),
    ];
    let mut last = 0u64;
    for (event, now) in events {
        assert!(b.accepts(event, now));
        if let BridgeAction::PushFrame(f) = b.on_event(event, now) {
            assert!(f.pts_ns >= last);
            last = f.pts_ns + f.duration_ns;
        }
    }
    assert_eq!(b.cumulative_ns(), last);
}

#[test]
fn rejected_frame_ends_the_stream_once() {
    let mut b = AudioBridge::new();
    assert_eq!(b.on_event(SinkEvent::Packet(4), 0), frame(0, 45_351));
    assert_eq!(b.on_push_result(true), BridgeAction::Nothing);
    assert!(!b.is_finished());
    assert_eq!(b.on_event(SinkEvent::Packet(4), 0), frame(45_351, 45_351));
    assert_eq!(b.on_push_result(false), BridgeAction::EndOfStream);
    assert!(b.is_finished());
    assert_eq!(b.on_source_exhausted(), BridgeAction::Nothing);
    assert_eq!(b.on_event(SinkEvent::Packet(4), 0), BridgeAction::Nothing);
    assert_eq!(b.cumulative_ns(), 90_702);
}

#[test]
fn exhausted_source_ends_the_stream() {
    let mut b = AudioBridge::new();
    assert_eq!(b.on_source_exhausted(), BridgeAction::EndOfStream);
    assert!(b.is_finished());
    assert_eq!(b.on_push_result(false), BridgeAction::Nothing);
}

#[test]
fn accepts_refuses_a_clock_that_went_back_and_overflow() {
    let mut b = AudioBridge::new();
    b.on_event(SinkEvent::Stop, 500);
    assert!(!b.accepts(SinkEvent::Start, 499));
    assert!(b.accepts(SinkEvent::Start, 500));
    assert!(b.accepts(SinkEvent::Start, u64::MAX));
    b.on_event(SinkEvent::Start, u64::MAX);
    assert_eq!(b.cumulative_ns(), u64::MAX - 500);
    assert!(b.accepts(SinkEvent::Packet(0), 0));
    assert!(b.accepts(SinkEvent::Packet(1), 0));
    assert!(!b.accepts(SinkEvent::Packet(2), 0));
    assert!(!b.accepts(SinkEvent::Start, u64::MAX));
    assert!(b.accepts(SinkEvent::Stop, 0));
}
