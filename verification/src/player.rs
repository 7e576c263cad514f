//! The playback controller: the one owner of the player's state, the track
//! queue, the current metadata and the sleep timer.
//!
//! The controller does no work on the outside. Its driver feeds it commands,
//! the outcome of playlist lookups and the decoding engine's events, each
//! with the clock's reading, and carries out the actions that come back, in
//! order. The engine's events alone change the player's state; a command
//! only asks the engine for something.
//!
//! A `Paused` event carries the position at which playback stopped. The
//! controller does not keep it: `Play` resumes from the engine's own
//! position.

use crate::info::{
    clone_metadata, metadata_view, MetadataView, MusicMetadata, PlayerInfoView, SpotifyPlayerInfo,
    SpotifyPlayerState,
};
use crate::sleep_timer::{
    timer_after_set, timer_remaining, timer_restores, timer_schedules, SleepTimer, TimerState,
};
use crate::track::TrackId;
use crate::uri::{parse_uri, parsed_uri, ItemId};
use std::collections::VecDeque;
use vstd::prelude::*;
use vstd::string::*;
use vstd::utf8::encode_utf8;

verus! {

/// Nanoseconds in a second.
pub const NANOS_PER_SEC: u64 = 1_000_000_000;

/// What the control surface can ask for.
#[derive(Clone, Debug, PartialEq, Eq)]
pub enum PlayerCommand {
    /// Replace the queue by the tracks of this playlist and start the first.
    Playlist(String),
    /// Arm the sleep timer with this many seconds; zero cancels it.
    Sleep(u32),
    Play,
    Pause,
    Next,
}

/// A command as contracts see it.
pub enum CommandView {
    Playlist(Seq<char>),
    Sleep(u32),
    Play,
    Pause,
    Next,
}

impl View for PlayerCommand {
    type V = CommandView;

    open spec fn view(&self) -> CommandView {
        match *self {
            PlayerCommand::Playlist(id) => CommandView::Playlist(id@),
            PlayerCommand::Sleep(s) => CommandView::Sleep(s),
            PlayerCommand::Play => CommandView::Play,
            PlayerCommand::Pause => CommandView::Pause,
            PlayerCommand::Next => CommandView::Next,
        }
    }
}

/// What the decoding engine reports.
#[derive(Clone, Debug, PartialEq, Eq)]
pub enum PlaybackEvent {
    Started { position_ms: u32 },
    Paused { track: TrackId, position_ms: u32 },
    Stopped,
    TrackEnded,
    TrackChanged(MusicMetadata),
}

/// An event as contracts see it.
pub enum EventView {
    Started { position_ms: u32 },
    Paused { track: TrackId, position_ms: u32 },
    Stopped,
    TrackEnded,
    TrackChanged(MetadataView),
}

impl View for PlaybackEvent {
    type V = EventView;

    open spec fn view(&self) -> EventView {
        match *self {
            PlaybackEvent::Started { position_ms } => EventView::Started { position_ms },
            PlaybackEvent::Paused { track, position_ms } => EventView::Paused {
                track,
                position_ms,
            },
            PlaybackEvent::Stopped => EventView::Stopped,
            PlaybackEvent::TrackEnded => EventView::TrackEnded,
            PlaybackEvent::TrackChanged(m) => EventView::TrackChanged(m@),
        }
    }
}

/// What the controller asks of its driver.
#[derive(Debug, PartialEq)]
pub enum PlayerAction<V> {
    /// Look up the tracks of this playlist and answer with
    /// `playlist_resolved`.
    ResolvePlaylist(ItemId),
    /// The address of the playlist names no item; log it.
    RejectPlaylist(String),
    /// The lookup of the playlist failed; log it.
    ReportFailedLookup,
    /// Ask the engine to load a track.
    LoadTrack { track: TrackId, autostart: bool, start_position_ms: u32 },
    /// Ask the engine to resume.
    Play,
    /// Ask the engine to pause.
    Pause,
    /// Abort the scheduled fade and write this volume to the volume cell.
    RestoreVolume(V),
    /// Schedule the fade to start after this many nanoseconds.
    ScheduleFade { after_ns: u64 },
    /// Publish this snapshot.
    Publish(SpotifyPlayerInfo),
}

/// An action as contracts see it.
pub enum ActionView<V> {
    ResolvePlaylist(ItemId),
    RejectPlaylist(Seq<char>),
    ReportFailedLookup,
    LoadTrack { track: TrackId, autostart: bool, start_position_ms: u32 },
    Play,
    Pause,
    RestoreVolume(V),
    ScheduleFade { after_ns: int },
    Publish(PlayerInfoView),
}

impl<V> View for PlayerAction<V> {
    type V = ActionView<V>;

    open spec fn view(&self) -> ActionView<V> {
        match *self {
            PlayerAction::ResolvePlaylist(item) => ActionView::ResolvePlaylist(item),
            PlayerAction::RejectPlaylist(uri) => ActionView::RejectPlaylist(uri@),
            PlayerAction::ReportFailedLookup => ActionView::ReportFailedLookup,
            PlayerAction::LoadTrack { track, autostart, start_position_ms } => {
                ActionView::LoadTrack { track, autostart, start_position_ms }
            },
            PlayerAction::Play => ActionView::Play,
            PlayerAction::Pause => ActionView::Pause,
            PlayerAction::RestoreVolume(v) => ActionView::RestoreVolume(v),
            PlayerAction::ScheduleFade { after_ns } => ActionView::ScheduleFade {
                after_ns: after_ns as int,
            },
            PlayerAction::Publish(info) => ActionView::Publish(info@),
        }
    }
}

/// The views of a list of actions, in order.
pub open spec fn action_views<V>(actions: Seq<PlayerAction<V>>) -> Seq<ActionView<V>> {
    Seq::new(actions.len(), |i: int| actions[i]@)
}

/// The controller as contracts see it.
pub struct PlayerView<V> {
    pub state: SpotifyPlayerState,
    pub queue: Seq<TrackId>,
    pub shuffle: bool,
    pub current_song: Option<MetadataView>,
    pub timer: TimerState<V>,
}

/// The whole seconds of a remaining time, as the snapshot's 32 bits hold them.
pub open spec fn whole_seconds(remaining: Option<int>) -> Option<u32> {
    match remaining {
        Some(d) => Some(((d / (NANOS_PER_SEC as int)) % 0x1_0000_0000) as u32),
        None => None,
    }
}

/// The snapshot of a controller at time `now`.
pub open spec fn snapshot<V>(p: PlayerView<V>, now: int) -> PlayerInfoView {
    PlayerInfoView {
        status: p.state,
        shuffle: p.shuffle,
        metadata: p.current_song,
        sleep_timer: whole_seconds(timer_remaining(p.timer, now)),
    }
}

/// Taking on a state: a state that differs from the held one is stored and
/// published; the held state again changes and publishes nothing.
pub open spec fn enter_state<V>(p: PlayerView<V>, state: SpotifyPlayerState, now: int) -> (
    PlayerView<V>,
    Seq<ActionView<V>>,
) {
    if state == p.state {
        (p, Seq::empty())
    } else {
        let q = PlayerView { state, ..p };
        (q, seq![ActionView::Publish(snapshot(q, now))])
    }
}

/// Advancing: the track at the head of the queue leaves it and is loaded to
/// start at once from its beginning; with an empty queue the player stops.
pub open spec fn advance<V>(p: PlayerView<V>, now: int) -> (PlayerView<V>, Seq<ActionView<V>>) {
    if p.queue.len() > 0 {
        (
            PlayerView { queue: p.queue.drop_first(), ..p },
            seq![
                ActionView::LoadTrack {
                    track: p.queue.first(),
                    autostart: true,
                    start_position_ms: 0,
                },
            ],
        )
    } else {
        enter_state(p, SpotifyPlayerState::Stopped, now)
    }
}

/// What setting the timer asks of the driver.
pub open spec fn timer_actions<V>(t: TimerState<V>, delay: int) -> Seq<ActionView<V>> {
    (match timer_restores(t) {
        Some(v) => seq![ActionView::RestoreVolume(v)],
        None => Seq::empty(),
    }) + (match timer_schedules(delay) {
        Some(d) => seq![ActionView::ScheduleFade { after_ns: d }],
        None => Seq::empty(),
    })
}

/// A command at time `now`, with `volume` in the volume cell.
pub open spec fn on_command<V>(p: PlayerView<V>, c: CommandView, now: int, volume: V) -> (
    PlayerView<V>,
    Seq<ActionView<V>>,
) {
    match c {
        CommandView::Playlist(uri) => match parsed_uri(encode_utf8(uri)) {
            Some(item) => (p, seq![ActionView::ResolvePlaylist(item)]),
            None => (with_queue(p, Seq::empty()), seq![ActionView::RejectPlaylist(uri)]),
        },
        CommandView::Play => (
            p,
            if p.state == SpotifyPlayerState::Paused {
                seq![ActionView::Play]
            } else {
                Seq::empty()
            },
        ),
        CommandView::Pause => (
            p,
            if p.state == SpotifyPlayerState::Playing {
                seq![ActionView::Pause]
            } else {
                Seq::empty()
            },
        ),
        CommandView::Next => advance(p, now),
        CommandView::Sleep(secs) => {
            let delay = secs * NANOS_PER_SEC;
            let q = PlayerView { timer: timer_after_set(p.timer, now, delay, volume), ..p };
            (q, timer_actions(p.timer, delay) + seq![ActionView::Publish(snapshot(q, now))])
        },
    }
}

/// The controller with its queue replaced.
pub open spec fn with_queue<V>(p: PlayerView<V>, queue: Seq<TrackId>) -> PlayerView<V> {
    PlayerView { queue, ..p }
}

/// The outcome of a playlist lookup: its tracks replace the queue and the
/// first of them is loaded; a lookup that failed is logged, leaves an empty
/// queue and touches nothing else.
pub open spec fn on_resolution<V>(p: PlayerView<V>, tracks: Option<Seq<TrackId>>, now: int) -> (
    PlayerView<V>,
    Seq<ActionView<V>>,
) {
    match tracks {
        Some(ids) => advance(with_queue(p, ids), now),
        None => (with_queue(p, Seq::empty()), seq![ActionView::ReportFailedLookup]),
    }
}

/// An event of the decoding engine at time `now`.
pub open spec fn on_event<V>(p: PlayerView<V>, e: EventView, now: int) -> (
    PlayerView<V>,
    Seq<ActionView<V>>,
) {
    match e {
        EventView::Started { .. } => enter_state(p, SpotifyPlayerState::Playing, now),
        EventView::Paused { .. } => enter_state(p, SpotifyPlayerState::Paused, now),
        EventView::Stopped => enter_state(p, SpotifyPlayerState::Stopped, now),
        EventView::TrackEnded => advance(p, now),
        EventView::TrackChanged(m) => {
            let q = PlayerView { current_song: Some(m), ..p };
            (q, seq![ActionView::Publish(snapshot(q, now))])
        },
    }
}

/// The playback controller.
pub struct SpotifyPlayer<V> {
    state: SpotifyPlayerState,
    queue: VecDeque<TrackId>,
    shuffle: bool,
    current_song: Option<MusicMetadata>,
    sleep_timer: SleepTimer<V>,
}

impl<V> View for SpotifyPlayer<V> {
    type V = PlayerView<V>;

    closed spec fn view(&self) -> PlayerView<V> {
        PlayerView {
            state: self.state,
            queue: self.queue@,
            shuffle: self.shuffle,
            current_song: metadata_view(self.current_song),
            timer: self.sleep_timer@,
        }
    }
}

impl<V: Copy> SpotifyPlayer<V> {
    /// A stopped controller with an empty queue, no metadata, shuffle off and
    /// nothing scheduled. `volume` is what the volume cell holds.
    pub fn new(volume: V) -> (p: Self)
        ensures
            p@ == (PlayerView {
                state: SpotifyPlayerState::Stopped,
                queue: Seq::empty(),
                shuffle: false,
                current_song: None,
                timer: TimerState { armed: false, initial_volume: volume, deadline: None },
            }),
    {
        SpotifyPlayer {
            state: SpotifyPlayerState::Stopped,
            queue: VecDeque::new(),
            shuffle: false,
            current_song: None,
            sleep_timer: SleepTimer::new(volume),
        }
    }

    /// The player's state.
    pub fn state(&self) -> (s: SpotifyPlayerState)
        ensures
            s == self@.state,
    {
        self.state
    }

    /// How many tracks wait in the queue.
    pub fn queue_len(&self) -> (n: usize)
        ensures
            n == self@.queue.len(),
    {
        self.queue.len()
    }

    /// The whole seconds that the sleep timer still has to run at `now_ns`.
    pub fn sleep_remaining_secs(&self, now_ns: u64) -> (secs: Option<u32>)
        ensures
            secs == whole_seconds(timer_remaining(self@.timer, now_ns as int)),
    {
        match self.sleep_timer.remaining_time(now_ns) {
            Some(d) => {
                let secs: u64 = d / NANOS_PER_SEC;
                let low: u64 = secs % 0x1_0000_0000;
                Some(low as u32)
            },
            None => None,
        }
    }

    /// The snapshot of the controller at `now_ns`.
    pub fn info(&self, now_ns: u64) -> (i: SpotifyPlayerInfo)
        ensures
            i@ == snapshot(self@, now_ns as int),
    {
        SpotifyPlayerInfo::new(
            self.state,
            self.shuffle,
            clone_metadata(&self.current_song),
            self.sleep_remaining_secs(now_ns),
        )
    }

    fn set_state(&mut self, state: SpotifyPlayerState, now_ns: u64) -> (actions: Vec<
        PlayerAction<V>,
    >)
        ensures
            final(self)@ == enter_state(old(self)@, state, now_ns as int).0,
            action_views(actions@) == enter_state(old(self)@, state, now_ns as int).1,
    {
        let mut actions: Vec<PlayerAction<V>> = Vec::new();
        if state != self.state {
            self.state = state;
            let info = self.info(now_ns);
            actions.push(PlayerAction::Publish(info));
        }
        actions
    }

    fn play_next_song(&mut self, now_ns: u64) -> (actions: Vec<PlayerAction<V>>)
        ensures
            final(self)@ == advance(old(self)@, now_ns as int).0,
            action_views(actions@) == advance(old(self)@, now_ns as int).1,
    {
        match self.queue.pop_front() {
            Some(track) => {
                let mut actions: Vec<PlayerAction<V>> = Vec::new();
                actions.push(
                    PlayerAction::LoadTrack { track, autostart: true, start_position_ms: 0 },
                );
                actions
            },
            None => self.set_state(SpotifyPlayerState::Stopped, now_ns),
        }
    }

    /// Takes one command at `now_ns`, with `volume` in the volume cell, and
    /// says what the driver is to do. `Play` and `Pause` ask the engine only
    /// where the player is paused or playing; `Next` advances; `Sleep` sets
    /// the timer and publishes; `Playlist` asks for the lookup of the item
    /// that its address names, and where the address names none it empties
    /// the queue and asks for nothing but a line in the log.
    pub fn handle_command(&mut self, command: PlayerCommand, now_ns: u64, volume: V) -> (actions:
        Vec<PlayerAction<V>>)
        requires
            command matches PlayerCommand::Sleep(secs) ==> now_ns + secs * NANOS_PER_SEC
                <= u64::MAX,
        ensures
            final(self)@ == on_command(old(self)@, command@, now_ns as int, volume).0,
            action_views(actions@) == on_command(old(self)@, command@, now_ns as int, volume).1,
    {
        let mut actions: Vec<PlayerAction<V>> = Vec::new();
        match command {
            PlayerCommand::Playlist(uri) => {
                match parse_uri(uri.as_str()) {
                    Some(item) => {
                        actions.push(PlayerAction::ResolvePlaylist(item));
                    },
                    None => {
                        self.queue.clear();
                        actions.push(PlayerAction::RejectPlaylist(uri));
                    },
                }
            },
            PlayerCommand::Play => {
                if self.state == SpotifyPlayerState::Paused {
                    actions.push(PlayerAction::Play);
                }
            },
            PlayerCommand::Pause => {
                if self.state == SpotifyPlayerState::Playing {
                    actions.push(PlayerAction::Pause);
                }
            },
            PlayerCommand::Next => {
                return self.play_next_song(now_ns);
            },
            PlayerCommand::Sleep(secs) => {
                let delay: u64 = (secs as u64) * NANOS_PER_SEC;
                let update = self.sleep_timer.set_timer(now_ns, delay, volume);
                match update.restore_volume {
                    Some(v) => {
                        actions.push(PlayerAction::RestoreVolume(v));
                    },
                    None => {},
                }
                match update.schedule_after_ns {
                    Some(d) => {
                        actions.push(PlayerAction::ScheduleFade { after_ns: d });
                    },
                    None => {},
                }
                let info = self.info(now_ns);
                actions.push(PlayerAction::Publish(info));
            },
        }
        assert(action_views(actions@) =~= on_command(
            old(self)@,
            command@,
            now_ns as int,
            volume,
        ).1);
        actions
    }

    /// Takes the outcome of a playlist lookup: the tracks in the playlist's
    /// order, or `None` where the lookup failed.
    pub fn playlist_resolved(&mut self, tracks: Option<Vec<TrackId>>, now_ns: u64) -> (actions:
        Vec<PlayerAction<V>>)
        ensures
            final(self)@ == on_resolution(
                old(self)@,
                match tracks {
                    Some(ids) => Some(ids@),
                    None => None,
                },
                now_ns as int,
            ).0,
            action_views(actions@) == on_resolution(
                old(self)@,
                match tracks {
                    Some(ids) => Some(ids@),
                    None => None,
                },
                now_ns as int,
            ).1,
    {
        self.queue.clear();
        match tracks {
            Some(ids) => {
                let mut i: usize = 0;
                while i < ids.len()
                    invariant
                        i <= ids.len(),
                        self.queue@ == ids@.take(i as int),
                        self.state == old(self).state,
                        self.shuffle == old(self).shuffle,
                        self.current_song == old(self).current_song,
                        self.sleep_timer == old(self).sleep_timer,
                    decreases ids.len() - i,
                {
                    self.queue.push_back(ids[i]);
                    i = i + 1;
                }
                assert(ids@.take(i as int) =~= ids@);
                self.play_next_song(now_ns)
            },
            None => {
                let mut actions: Vec<PlayerAction<V>> = Vec::new();
                actions.push(PlayerAction::ReportFailedLookup);
                assert(action_views(actions@) =~= seq![ActionView::<V>::ReportFailedLookup]);
                actions
            },
        }
    }

    /// Takes one event of the decoding engine at `now_ns`. `Started`,
    /// `Paused` and `Stopped` set the state, and publish only where it
    /// changes; `TrackEnded` advances; `TrackChanged` stores the metadata and
    /// always publishes.
    pub fn handle_event(&mut self, event: PlaybackEvent, now_ns: u64) -> (actions: Vec<
        PlayerAction<V>,
    >)
        ensures
            final(self)@ == on_event(old(self)@, event@, now_ns as int).0,
            action_views(actions@) == on_event(old(self)@, event@, now_ns as int).1,
    {
        match event {
            PlaybackEvent::Started { position_ms: _ } => self.set_state(
                SpotifyPlayerState::Playing,
                now_ns,
            ),
            PlaybackEvent::Paused { track: _, position_ms: _ } => self.set_state(
                SpotifyPlayerState::Paused,
                now_ns,
            ),
            PlaybackEvent::Stopped => self.set_state(SpotifyPlayerState::Stopped, now_ns),
            PlaybackEvent::TrackEnded => self.play_next_song(now_ns),
            PlaybackEvent::TrackChanged(metadata) => {
                self.current_song = Some(metadata);
                let info = self.info(now_ns);
                let mut actions: Vec<PlayerAction<V>> = Vec::new();
                actions.push(PlayerAction::Publish(info));
                actions
            },
        }
    }
}


/// An event together with the clock's reading when it is handled.
pub struct TimedEvent {
    pub event: EventView,
    pub now: int,
}

/// The controller after a run of events, handled in order, and the actions
/// that the run asked for, in order.
pub open spec fn run_events<V>(p: PlayerView<V>, events: Seq<TimedEvent>) -> (
    PlayerView<V>,
    Seq<ActionView<V>>,
)
    decreases events.len(),
{
    if events.len() == 0 {
        (p, Seq::empty())
    } else {
        let before = run_events(p, events.drop_last());
        let step = on_event(before.0, events.last().event, events.last().now);
        (step.0, before.1 + step.1)
    }
}

/// The event reports that the player is in state `s`.
pub open spec fn reports_state(e: EventView, s: SpotifyPlayerState) -> bool {
    match e {
        EventView::Started { .. } => s == SpotifyPlayerState::Playing,
        EventView::Paused { .. } => s == SpotifyPlayerState::Paused,
        EventView::Stopped => s == SpotifyPlayerState::Stopped,
        EventView::TrackEnded => false,
        EventView::TrackChanged(_) => false,
    }
}

/// The controller after one advance for each clock reading of `nows`, and the
/// actions that they asked for, in order.
pub open spec fn run_advances<V>(p: PlayerView<V>, nows: Seq<int>) -> (
    PlayerView<V>,
    Seq<ActionView<V>>,
)
    decreases nows.len(),
{
    if nows.len() == 0 {
        (p, Seq::empty())
    } else {
        let before = run_advances(p, nows.drop_last());
        let step = advance(before.0, nows.last());
        (step.0, before.1 + step.1)
    }
}

/// The loads of the first `n` tracks of `ids`, in order.
pub open spec fn loads_of<V>(ids: Seq<TrackId>, n: int) -> Seq<ActionView<V>> {
    Seq::new(
        n as nat,
        |i: int| ActionView::LoadTrack { track: ids[i], autostart: true, start_position_ms: 0 },
    )
}

/// A run of events that all report one state publishes at most once: not at
/// all where the player already holds that state, in which case the run
/// changes nothing, and otherwise one snapshot, at the first event of the run.
pub proof fn lemma_same_state_publishes_once<V>(
    p: PlayerView<V>,
    events: Seq<TimedEvent>,
    s: SpotifyPlayerState,
)
    requires
        forall|i: int| 0 <= i < events.len() ==> reports_state((#[trigger] events[i]).event, s),
    ensures
        p.state == s ==> run_events(p, events) == (p, Seq::<ActionView<V>>::empty()),
        p.state != s && events.len() > 0 ==> run_events(p, events) == (
            PlayerView { state: s, ..p },
            seq![ActionView::<V>::Publish(snapshot(PlayerView { state: s, ..p }, events[0].now))],
        ),
        run_events(p, events).1.len() <= 1,
    decreases events.len(),
{
    if events.len() > 0 {
        let head = events.drop_last();
        lemma_same_state_publishes_once(p, head, s);
        if head.len() > 0 {
            assert(head[0] == events[0]);
        }
    }
}

/// The queue is first in, first out: with `ids` in the queue, as after the
/// playlist's lookup, the first `n` advances load the first `n` tracks of
/// `ids` in their order and leave the rest; they change nothing else.
pub proof fn lemma_queue_fifo<V>(p: PlayerView<V>, ids: Seq<TrackId>, nows: Seq<int>)
    requires
        nows.len() <= ids.len(),
    ensures
        run_advances(with_queue(p, ids), nows) == (
            with_queue(p, ids.skip(nows.len() as int)),
            loads_of::<V>(ids, nows.len() as int),
        ),
    decreases nows.len(),
{
    let n = nows.len() as int;
    if n == 0 {
        assert(ids.skip(0) =~= ids);
    } else {
        lemma_queue_fifo(p, ids, nows.drop_last());
        assert(ids.skip(n - 1).drop_first() =~= ids.skip(n));
    }
}

/// An advance on an empty queue loads nothing and leaves the player stopped:
/// it publishes where the player was not stopped before, and does nothing at
/// all where it was.
pub proof fn lemma_advance_on_empty_stops<V>(p: PlayerView<V>, now: int)
    requires
        p.queue.len() == 0,
    ensures
        advance(p, now).0 == (PlayerView { state: SpotifyPlayerState::Stopped, ..p }),
        p.state == SpotifyPlayerState::Stopped ==> advance(p, now).1
            == Seq::<ActionView<V>>::empty(),
        p.state != SpotifyPlayerState::Stopped ==> advance(p, now).1 == seq![
            ActionView::<V>::Publish(
                snapshot(PlayerView { state: SpotifyPlayerState::Stopped, ..p }, now),
            ),
        ],
{
}

/// A playlist's lookup and the advances that follow it play the playlist
/// through: the lookup loads the first track, each of the next advances the
/// next one, and the advance after the last track stops the player.
pub proof fn lemma_playlist_plays_through<V>(
    p: PlayerView<V>,
    ids: Seq<TrackId>,
    now: int,
    nows: Seq<int>,
    last: int,
)
    requires
        ids.len() > 0,
        nows.len() == ids.len() - 1,
    ensures
        on_resolution(p, Some(ids), now).1 == loads_of::<V>(ids, 1),
        run_advances(on_resolution(p, Some(ids), now).0, nows).1 == loads_of::<V>(
            ids.skip(1),
            nows.len() as int,
        ),
        advance(run_advances(on_resolution(p, Some(ids), now).0, nows).0, last).0 == (PlayerView {
            state: SpotifyPlayerState::Stopped,
            queue: Seq::empty(),
            ..p
        }),
{
    assert(ids.drop_first() =~= ids.skip(1));
    lemma_queue_fifo(p, ids.skip(1), nows);
    assert(ids.skip(1).skip(nows.len() as int) =~= Seq::<TrackId>::empty());
}

/// Two sleep commands, the second before the first delay has run out, leave
/// the volume where it was before the first and one countdown running: the
/// second command restores the volume that the first captured, whatever the
/// cell holds by then, schedules its own fade, and publishes its own delay as
/// the time that remains. `v0` is what the cell held at the first command; a
/// fade that was scheduled before it must not have changed the cell yet.
pub proof fn lemma_sleep_commands_supersede<V>(
    p: PlayerView<V>,
    v0: V,
    now1: int,
    secs1: u32,
    v_between: V,
    now2: int,
    secs2: u32,
)
    requires
        secs1 > 0,
        secs2 > 0,
        now1 <= now2 < now1 + secs1 * NANOS_PER_SEC,
        p.timer.armed ==> p.timer.initial_volume == v0,
    ensures
        ({
            let first = on_command(p, CommandView::Sleep(secs1), now1, v0);
            let second = on_command(first.0, CommandView::Sleep(secs2), now2, v_between);
            &&& timer_remaining(first.0.timer, now2).is_some()
            &&& second.1 == seq![
                ActionView::RestoreVolume(v0),
                ActionView::ScheduleFade { after_ns: secs2 * NANOS_PER_SEC },
                ActionView::Publish(snapshot(second.0, now2)),
            ]
            &&& second.0.timer == (TimerState {
                armed: true,
                initial_volume: v0,
                deadline: Some(now2 + secs2 * NANOS_PER_SEC),
            })
            &&& snapshot(second.0, now2).sleep_timer == Some(secs2)
            &&& second.0 == (PlayerView { timer: second.0.timer, ..p })
        }),
{
    let first = on_command(p, CommandView::Sleep(secs1), now1, v0);
    let second = on_command(first.0, CommandView::Sleep(secs2), now2, v_between);
    assert(timer_actions(first.0.timer, secs2 * NANOS_PER_SEC) =~= seq![
        ActionView::RestoreVolume(v0),
        ActionView::ScheduleFade { after_ns: secs2 * NANOS_PER_SEC },
    ]);
    assert(second.1 =~= seq![
        ActionView::RestoreVolume(v0),
        ActionView::ScheduleFade { after_ns: secs2 * NANOS_PER_SEC },
        ActionView::Publish(snapshot(second.0, now2)),
    ]);
}

/// Commands do not set the player's state: `Play`, `Pause`, `Sleep` and
/// `Playlist` leave it as it is, whatever they ask of the engine, and so does
/// `Next` while tracks wait in the queue. Only a `Next` on an empty queue
/// stops the player. The state that an event reports is the state that the
/// player holds after it.
pub proof fn lemma_events_set_the_state<V>(
    p: PlayerView<V>,
    c: CommandView,
    e: EventView,
    s: SpotifyPlayerState,
    now: int,
    volume: V,
)
    ensures
        !(c is Next) ==> on_command(p, c, now, volume).0.state == p.state,
        c is Next && p.queue.len() > 0 ==> on_command(p, c, now, volume).0.state == p.state,
        c is Next && p.queue.len() == 0 ==> on_command(p, c, now, volume).0.state
            == SpotifyPlayerState::Stopped,
        reports_state(e, s) ==> on_event(p, e, now).0.state == s,
        e is TrackChanged ==> on_event(p, e, now).0.state == p.state,
{
}

} // verus!
