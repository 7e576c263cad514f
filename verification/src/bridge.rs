//! The audio bridge: turns the lifecycle events of the decoding engine's sink
//! into time-stamped frames for the mixing graph, and keeps the timestamps
//! continuous across pauses.
//!
//! The bridge holds no audio. Its driver tells it how many sample values a
//! packet holds and what the engine clock reads, stamps the packet with the
//! frame that comes back, and reports whether the mixing graph took it. All
//! times are nanoseconds in 64 bits.

use vstd::pervasive::unreached;
use vstd::prelude::*;

verus! {

/// Sample frames in a second of audio.
pub const SAMPLE_RATE: u64 = 44_100;

/// Interleaved channels in a packet.
pub const CHANNELS: u64 = 2;

/// Nanoseconds in a second.
pub const NANOS_PER_SECOND: u64 = 1_000_000_000;

/// What the engine's sink reports. A packet is given by the number of
/// interleaved sample values that it holds.
#[derive(Clone, Copy, Debug, PartialEq, Eq, Structural)]
pub enum SinkEvent {
    Start,
    Stop,
    Packet(usize),
}

/// The timestamp and the duration of one frame.
#[derive(Clone, Copy, Debug, PartialEq, Eq, Structural)]
pub struct Frame {
    pub pts_ns: u64,
    pub duration_ns: u64,
}

/// What the bridge asks of its driver.
#[derive(Clone, Copy, Debug, PartialEq, Eq, Structural)]
pub enum BridgeAction {
    /// Nothing to do.
    Nothing,
    /// Stamp the packet with this frame and push it to the mixing graph.
    PushFrame(Frame),
    /// Signal the end of the stream to the mixing graph.
    EndOfStream,
}

/// An action as contracts see it.
pub enum BridgeActionView {
    Nothing,
    PushFrame { pts_ns: int, duration_ns: int },
    EndOfStream,
}

impl View for BridgeAction {
    type V = BridgeActionView;

    open spec fn view(&self) -> BridgeActionView {
        match *self {
            BridgeAction::Nothing => BridgeActionView::Nothing,
            BridgeAction::PushFrame(f) => BridgeActionView::PushFrame {
                pts_ns: f.pts_ns as int,
                duration_ns: f.duration_ns as int,
            },
            BridgeAction::EndOfStream => BridgeActionView::EndOfStream,
        }
    }
}

/// The bridge as contracts see it.
pub struct BridgeState {
    /// The timestamp of the next frame.
    pub cumulative_ns: int,
    /// The engine clock's reading at the last `Stop`.
    pub last_stop_ns: Option<int>,
    /// The end of the stream has been signalled.
    pub finished: bool,
}

/// The sample frames in a packet of `samples` interleaved values.
pub open spec fn frame_count(samples: int) -> int {
    samples / (CHANNELS as int)
}

/// The duration of a packet of `samples` interleaved values, in whole
/// nanoseconds.
pub open spec fn frame_duration_ns(samples: int) -> int {
    frame_count(samples) * NANOS_PER_SECOND / (SAMPLE_RATE as int)
}

/// The engine-clock time that a `Start` at `now` adds to the timestamps: the
/// time since the last `Stop`, and nothing where there was none.
pub open spec fn start_gap_ns(s: BridgeState, now: int) -> int {
    match s.last_stop_ns {
        Some(t) => now - t,
        None => 0,
    }
}

/// The bridge can take the event: the clock has not gone back behind the
/// last `Stop`, and the timestamps still fit in 64 bits.
pub open spec fn bridge_accepts(s: BridgeState, e: SinkEvent, now: int) -> bool {
    s.finished || match e {
        SinkEvent::Start => 0 <= start_gap_ns(s, now) && s.cumulative_ns + start_gap_ns(s, now)
            <= u64::MAX,
        SinkEvent::Stop => true,
        SinkEvent::Packet(n) => s.cumulative_ns + frame_duration_ns(n as int) <= u64::MAX,
    }
}

/// One event of the sink at engine-clock time `now`: the bridge after it, and
/// what it asks for.
pub open spec fn bridge_step(s: BridgeState, e: SinkEvent, now: int) -> (
    BridgeState,
    BridgeActionView,
) {
    if s.finished {
        (s, BridgeActionView::Nothing)
    } else {
        match e {
            SinkEvent::Start => (
                BridgeState { cumulative_ns: s.cumulative_ns + start_gap_ns(s, now), ..s },
                BridgeActionView::Nothing,
            ),
            SinkEvent::Stop => (
                BridgeState { last_stop_ns: Some(now), ..s },
                BridgeActionView::Nothing,
            ),
            SinkEvent::Packet(n) => if n == 0 {
                (s, BridgeActionView::Nothing)
            } else {
                (
                    BridgeState {
                        cumulative_ns: s.cumulative_ns + frame_duration_ns(n as int),
                        ..s
                    },
                    BridgeActionView::PushFrame {
                        pts_ns: s.cumulative_ns,
                        duration_ns: frame_duration_ns(n as int),
                    },
                )
            },
        }
    }
}

/// The end of the stream: signalled once, on the first occasion.
pub open spec fn bridge_finish(s: BridgeState) -> (BridgeState, BridgeActionView) {
    if s.finished {
        (s, BridgeActionView::Nothing)
    } else {
        (BridgeState { finished: true, ..s }, BridgeActionView::EndOfStream)
    }
}

/// Stamps the packets of one audio session.
pub struct AudioBridge {
    cumulative_ns: u64,
    last_stop_ns: Option<u64>,
    finished: bool,
}

impl View for AudioBridge {
    type V = BridgeState;

    closed spec fn view(&self) -> BridgeState {
        BridgeState {
            cumulative_ns: self.cumulative_ns as int,
            last_stop_ns: match self.last_stop_ns {
                Some(t) => Some(t as int),
                None => None,
            },
            finished: self.finished,
        }
    }
}

/// The duration of a packet of `samples` interleaved values, in whole
/// nanoseconds, where 64 bits hold it.
pub fn packet_duration_ns(samples: usize) -> (d: Option<u64>)
    ensures
        match d {
            Some(ns) => ns == frame_duration_ns(samples as int),
            None => frame_duration_ns(samples as int) > u64::MAX,
        },
{
    let frames: u128 = (samples as u128) / (CHANNELS as u128);
    assert(frames * NANOS_PER_SECOND <= u128::MAX) by (nonlinear_arith)
        requires
            frames <= 0xffff_ffff_ffff_ffff,
            NANOS_PER_SECOND == 1_000_000_000,
    ;
    let ns: u128 = frames * (NANOS_PER_SECOND as u128) / (SAMPLE_RATE as u128);
    if ns <= u64::MAX as u128 {
        Some(ns as u64)
    } else {
        None
    }
}

impl AudioBridge {
    /// The bridge of a new audio session: timestamps start at zero, and no
    /// `Stop` has been seen.
    pub fn new() -> (b: Self)
        ensures
            b@ == (BridgeState { cumulative_ns: 0, last_stop_ns: None, finished: false }),
    {
        AudioBridge { cumulative_ns: 0, last_stop_ns: None, finished: false }
    }

    /// The timestamp that the next frame gets.
    pub fn cumulative_ns(&self) -> (t: u64)
        ensures
            t == self@.cumulative_ns,
    {
        self.cumulative_ns
    }

    /// Whether the end of the stream has been signalled.
    pub fn is_finished(&self) -> (b: bool)
        ensures
            b == self@.finished,
    {
        self.finished
    }

    /// Whether `on_event` may be called with this event and clock reading.
    pub fn accepts(&self, event: SinkEvent, now_ns: u64) -> (ok: bool)
        ensures
            ok == bridge_accepts(self@, event, now_ns as int),
    {
        if self.finished {
            return true;
        }
        match event {
            SinkEvent::Start => match self.last_stop_ns {
                Some(t) => now_ns >= t && now_ns - t <= u64::MAX - self.cumulative_ns,
                None => true,
            },
            SinkEvent::Stop => true,
            SinkEvent::Packet(n) => match packet_duration_ns(n) {
                Some(d) => d <= u64::MAX - self.cumulative_ns,
                None => false,
            },
        }
    }

    /// Takes one event of the sink at engine-clock time `now_ns`. `Start`
    /// moves the timestamps on by the time since the last `Stop`; `Stop`
    /// records the clock; an empty packet is dropped; any other packet gets
    /// the current timestamp and its duration, and moves the timestamps on by
    /// that duration. Once the stream has ended nothing happens any more.
    pub fn on_event(&mut self, event: SinkEvent, now_ns: u64) -> (action: BridgeAction)
        requires
            bridge_accepts(old(self)@, event, now_ns as int),
        ensures
            final(self)@ == bridge_step(old(self)@, event, now_ns as int).0,
            action@ == bridge_step(old(self)@, event, now_ns as int).1,
    {
        if self.finished {
            return BridgeAction::Nothing;
        }
        match event {
            SinkEvent::Start => {
                match self.last_stop_ns {
                    Some(t) => {
                        self.cumulative_ns = self.cumulative_ns + (now_ns - t);
                    },
                    None => {},
                }
                BridgeAction::Nothing
            },
            SinkEvent::Stop => {
                self.last_stop_ns = Some(now_ns);
                BridgeAction::Nothing
            },
            SinkEvent::Packet(n) => {
                if n == 0 {
                    return BridgeAction::Nothing;
                }
                let duration_ns = match packet_duration_ns(n) {
                    Some(d) => d,
                    None => unreached(),
                };
                let frame = Frame { pts_ns: self.cumulative_ns, duration_ns };
                self.cumulative_ns = self.cumulative_ns + duration_ns;
                BridgeAction::PushFrame(frame)
            },
        }
    }

    /// Takes the mixing graph's answer to a pushed frame. A rejected frame
    /// ends the stream.
    pub fn on_push_result(&mut self, accepted: bool) -> (action: BridgeAction)
        ensures
            accepted ==> final(self)@ == old(self)@ && action@ == BridgeActionView::Nothing,
            !accepted ==> final(self)@ == bridge_finish(old(self)@).0 && action@ == bridge_finish(
                old(self)@,
            ).1,
    {
        if accepted {
            BridgeAction::Nothing
        } else {
            self.on_source_exhausted()
        }
    }

    /// The sink will send no more events: the stream ends.
    pub fn on_source_exhausted(&mut self) -> (action: BridgeAction)
        ensures
            final(self)@ == bridge_finish(old(self)@).0,
            action@ == bridge_finish(old(self)@).1,
    {
        if self.finished {
            BridgeAction::Nothing
        } else {
            self.finished = true;
            BridgeAction::EndOfStream
        }
    }
}

/// A sink event together with the engine clock's reading when it is handled.
pub struct TimedSinkEvent {
    pub event: SinkEvent,
    pub now: int,
}

/// A frame as the laws see it.
pub struct FrameView {
    pub pts_ns: int,
    pub duration_ns: int,
}

/// The frames that an action pushes: one or none.
pub open spec fn pushed(a: BridgeActionView) -> Seq<FrameView> {
    match a {
        BridgeActionView::PushFrame { pts_ns, duration_ns } => seq![
            FrameView { pts_ns, duration_ns },
        ],
        _ => Seq::empty(),
    }
}

/// The bridge after a run of sink events, handled in order, and the frames
/// that the run pushed, in order.
pub open spec fn run_bridge(s: BridgeState, events: Seq<TimedSinkEvent>) -> (
    BridgeState,
    Seq<FrameView>,
)
    decreases events.len(),
{
    if events.len() == 0 {
        (s, Seq::empty())
    } else {
        let before = run_bridge(s, events.drop_last());
        let step = bridge_step(before.0, events.last().event, events.last().now);
        (step.0, before.1 + pushed(step.1))
    }
}

/// Every event of the run meets the bridge in a state in which the engine
/// clock has not gone back behind the last `Stop`.
pub open spec fn clock_never_goes_back(s: BridgeState, events: Seq<TimedSinkEvent>) -> bool
    decreases events.len(),
{
    events.len() > 0 ==> {
        &&& clock_never_goes_back(s, events.drop_last())
        &&& (events.last().event == SinkEvent::Start && !run_bridge(
            s,
            events.drop_last(),
        ).0.finished ==> 0 <= start_gap_ns(run_bridge(s, events.drop_last()).0, events.last().now))
    }
}

/// No event of the run is a `Start`.
pub open spec fn no_start(events: Seq<TimedSinkEvent>) -> bool {
    forall|i: int| 0 <= i < events.len() ==> (#[trigger] events[i]).event != SinkEvent::Start
}

/// The duration of a packet is never negative.
pub proof fn lemma_duration_nonnegative(samples: int)
    requires
        0 <= samples,
    ensures
        0 <= frame_duration_ns(samples),
{
}

/// Timestamps never go back: in any run in which the engine clock does not go
/// back behind a `Stop`, every pushed frame ends no later than the next one
/// begins, so the timestamps of successive frames do not decrease; and no
/// frame ends after the timestamp that the bridge holds at the end.
pub proof fn lemma_timestamps_monotonic(s: BridgeState, events: Seq<TimedSinkEvent>)
    requires
        clock_never_goes_back(s, events),
    ensures
        s.cumulative_ns <= run_bridge(s, events).0.cumulative_ns,
        forall|i: int|
            0 <= i < run_bridge(s, events).1.len() ==> s.cumulative_ns <= (#[trigger] run_bridge(
                s,
                events,
            ).1[i]).pts_ns && run_bridge(s, events).1[i].pts_ns + run_bridge(
                s,
                events,
            ).1[i].duration_ns <= run_bridge(s, events).0.cumulative_ns,
        forall|i: int, j: int|
            0 <= i < j < run_bridge(s, events).1.len() ==> (#[trigger] run_bridge(
                s,
                events,
            ).1[i]).pts_ns + run_bridge(s, events).1[i].duration_ns <= (#[trigger] run_bridge(
                s,
                events,
            ).1[j]).pts_ns,
    decreases events.len(),
{
    if events.len() > 0 {
        let head = events.drop_last();
        lemma_timestamps_monotonic(s, head);
        let before = run_bridge(s, head);
        let last = events.last();
        let step = bridge_step(before.0, last.event, last.now);
        let frames = run_bridge(s, events).1;
        match last.event {
            SinkEvent::Packet(n) => {
                lemma_duration_nonnegative(n as int);
            },
            _ => {},
        }
        assert forall|i: int| 0 <= i < frames.len() implies s.cumulative_ns <= (
        #[trigger] frames[i]).pts_ns && frames[i].pts_ns + frames[i].duration_ns
            <= step.0.cumulative_ns by {
            if i < before.1.len() {
                assert(frames[i] == before.1[i]);
            }
        }
        assert forall|i: int, j: int| 0 <= i < j < frames.len() implies (#[trigger] frames[i]).pts_ns
            + frames[i].duration_ns <= (#[trigger] frames[j]).pts_ns by {
            assert(frames[i] == before.1[i]);
        }
    }
}

/// Between two `Start`s the timestamps are gapless: in a run without a
/// `Start`, each pushed frame begins exactly where the frame before it ends,
/// the first begins at the timestamp that the bridge held at the start of the
/// run, and the bridge ends up holding the end of the last.
pub proof fn lemma_frames_abut(s: BridgeState, events: Seq<TimedSinkEvent>)
    requires
        no_start(events),
    ensures
        run_bridge(s, events).1.len() > 0 ==> run_bridge(s, events).1[0].pts_ns
            == s.cumulative_ns,
        run_bridge(s, events).1.len() > 0 ==> run_bridge(s, events).0.cumulative_ns
            == run_bridge(s, events).1.last().pts_ns + run_bridge(s, events).1.last().duration_ns,
        run_bridge(s, events).1.len() == 0 ==> run_bridge(s, events).0.cumulative_ns
            == s.cumulative_ns,
        forall|i: int|
            0 <= i && i + 1 < run_bridge(s, events).1.len() ==> (#[trigger] run_bridge(
                s,
                events,
            ).1[i + 1]).pts_ns == run_bridge(s, events).1[i].pts_ns + run_bridge(
                s,
                events,
            ).1[i].duration_ns,
    decreases events.len(),
{
    if events.len() > 0 {
        let head = events.drop_last();
        assert(no_start(head)) by {
            assert forall|i: int| 0 <= i < head.len() implies (#[trigger] head[i]).event
                != SinkEvent::Start by {
                assert(head[i] == events[i]);
            }
        }
        lemma_frames_abut(s, head);
        let before = run_bridge(s, head);
        let last = events.last();
        let step = bridge_step(before.0, last.event, last.now);
        let frames = run_bridge(s, events).1;
        assert forall|i: int| 0 <= i && i + 1 < frames.len() implies (#[trigger] frames[i
            + 1]).pts_ns == frames[i].pts_ns + frames[i].duration_ns by {
            assert(frames[i] == before.1[i]);
        }
    }
}

} // verus!
