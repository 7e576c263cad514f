use carechords::info::{MusicMetadata, SpotifyPlayerInfo, SpotifyPlayerState};
use carechords::player::{PlaybackEvent, PlayerAction, PlayerCommand, SpotifyPlayer, NANOS_PER_SEC};
use carechords::track::TrackId;
use carechords::uri::{ItemId, ItemKind};

fn load(id: u128) -> PlayerAction<f64> {
    PlayerAction::LoadTrack { track: TrackId::new(id), autostart: true, start_position_ms: 0 }
}

fn info(
    status: SpotifyPlayerState,
    metadata: Option<MusicMetadata>,
    sleep_timer: Option<u32>,
) -> SpotifyPlayerInfo {
    SpotifyPlayerInfo::new(status, false, metadata, sleep_timer)
}

fn song() -> MusicMetadata {
    MusicMetadata::new("Artist".to_string(), "Title".to_string(), "http://cover".to_string())
}

#[test]
fn controller_starts_stopped_with_empty_queue() {
    let p: SpotifyPlayer<f64> = SpotifyPlayer::new(0.5);
    assert_eq!(p.state(), SpotifyPlayerState::Stopped);
    assert_eq!(p.queue_len(), 0);
    assert_eq!(p.info(0), info(SpotifyPlayerState::Stopped, None, None));
}

const PLAYLIST: &str = "spotify:playlist:37i9dQZF1DXcBWIGoYBM5M";

fn playlist() -> PlayerAction<f64> {
    PlayerAction::ResolvePlaylist(ItemId {
        id: 136159921382084734740266198768681045310,
        kind: ItemKind::NonPlayable,
    })
}

#[test]
fn playlist_command_asks_for_the_lookup() {
    let mut p: SpotifyPlayer<f64> = SpotifyPlayer::new(0.5);
    p.playlist_resolved(Some(vec![TrackId::new(1), TrackId::new(2)]), 0);
    let actions = p.handle_command(PlayerCommand::Playlist(PLAYLIST.to_string()), 0, 0.5);
    assert_eq!(actions, vec![playlist()]);
    assert_eq!(p.state(), SpotifyPlayerState::Stopped);
    assert_eq!(p.queue_len(), 1);
}

#[test]
fn playlist_command_with_a_bad_address_empties_the_queue() {
    let mut p: SpotifyPlayer<f64> = SpotifyPlayer::new(0.5);
    p.playlist_resolved(Some(vec![TrackId::new(1), TrackId::new(2)]), 0);
    p.handle_event(PlaybackEvent::Started { position_ms: 0 }, 0);
    for uri in ["p1", "spotify:playlist:7N42dgm5tFLK9N8MT7fHC8"] {
        let actions = p.handle_command(PlayerCommand::Playlist(uri.to_string()), 0, 0.5);
        assert_eq!(actions, vec![PlayerAction::RejectPlaylist(uri.to_string())]);
        assert_eq!(p.state(), SpotifyPlayerState::Playing);
        assert_eq!(p.queue_len(), 0);
    }
}

#[test]
fn scenario_playlist_of_two_tracks_plays_through() {
    let mut p: SpotifyPlayer<f64> = SpotifyPlayer::new(0.5);
    let asked = p.handle_command(PlayerCommand::Playlist(PLAYLIST.to_string()), 0, 0.5);
    assert_eq!(asked, vec![playlist()]);
    let first = p.playlist_resolved(Some(vec![TrackId::new(1), TrackId::new(2)]), 1);
    assert_eq!(first, vec![load(1)]);
    assert_eq!(p.queue_len(), 1);
    let started = p.handle_event(PlaybackEvent::Started { position_ms: 0 }, 2);
    assert_eq!(started, vec![PlayerAction::Publish(info(SpotifyPlayerState::Playing, None, None))]);
    let second = p.handle_event(PlaybackEvent::TrackEnded, 3);
    assert_eq!(second, vec![load(2)]);
    assert_eq!(p.state(), SpotifyPlayerState::Playing);
    let end = p.handle_event(PlaybackEvent::TrackEnded, 4);
    assert_eq!(end, vec![PlayerAction::Publish(info(SpotifyPlayerState::Stopped, None, None))]);
    assert_eq!(p.state(), SpotifyPlayerState::Stopped);
    assert_eq!(p.queue_len(), 0);
}

#[test]
fn queue_is_first_in_first_out() {
    let mut p: SpotifyPlayer<f64> = SpotifyPlayer::new(0.5);
    let ids: Vec<TrackId> = (10u128..15).map(TrackId::new).collect();
    assert_eq!(p.playlist_resolved(Some(ids), 0), vec![load(10)]);
    for id in 11u128..15 {
        assert_eq!(p.handle_command(PlayerCommand::Next, 0, 0.5), vec![load(id)]);
    }
    assert_eq!(p.queue_len(), 0);
    assert_eq!(p.handle_command(PlayerCommand::Next, 0, 0.5), vec![]);
    assert_eq!(p.state(), SpotifyPlayerState::Stopped);
}

#[test]
fn new_playlist_replaces_the_queue() {
    let mut p: SpotifyPlayer<f64> = SpotifyPlayer::new(0.5);
    p.playlist_resolved(Some(vec![TrackId::new(1), TrackId::new(2), TrackId::new(3)]), 0);
    assert_eq!(p.queue_len(), 2);
    assert_eq!(p.playlist_resolved(Some(vec![TrackId::new(8), TrackId::new(9)]), 0), vec![load(8)]);
    assert_eq!(p.queue_len(), 1);
    assert_eq!(p.handle_event(PlaybackEvent::TrackEnded, 0), vec![load(9)]);
}

#[test]
fn failed_lookup_leaves_an_empty_queue_and_the_state() {
    let mut p: SpotifyPlayer<f64> = SpotifyPlayer::new(0.5);
    p.playlist_resolved(Some(vec![TrackId::new(1), TrackId::new(2)]), 0);
    p.handle_event(PlaybackEvent::Started { position_ms: 0 }, 0);
    assert_eq!(p.playlist_resolved(None, 0), vec![PlayerAction::ReportFailedLookup]);
    assert_eq!(p.queue_len(), 0);
    assert_eq!(p.state(), SpotifyPlayerState::Playing);
}

#[test]
fn empty_playlist_stops_the_player() {
    let mut p: SpotifyPlayer<f64> = SpotifyPlayer::new(0.5);
    p.handle_event(PlaybackEvent::Started { position_ms: 0 }, 0);
    assert_eq!(
        p.playlist_resolved(Some(vec![]), 0),
        vec![PlayerAction::Publish(info(SpotifyPlayerState::Stopped, None, None))]
    );
}

#[test]
fn play_and_pause_are_ignored_in_the_wrong_state() {
    let mut p: SpotifyPlayer<f64> = SpotifyPlayer::new(0.5);
    assert_eq!(p.handle_command(PlayerCommand::Play, 0, 0.5), vec![]);
    assert_eq!(p.handle_command(PlayerCommand::Pause, 0, 0.5), vec![]);
    p.handle_event(PlaybackEvent::Started { position_ms: 0 }, 0);
    assert_eq!(p.handle_command(PlayerCommand::Play, 0, 0.5), vec![]);
    assert_eq!(p.handle_command(PlayerCommand::Pause, 0, 0.5), vec![PlayerAction::Pause]);
    assert_eq!(p.state(), SpotifyPlayerState::Playing);
    p.handle_event(PlaybackEvent::Paused { track: TrackId::new(1), position_ms: 1500 }, 0);
    assert_eq!(p.state(), SpotifyPlayerState::Paused);
    assert_eq!(p.handle_command(PlayerCommand::Pause, 0, 0.5), vec![]);
    assert_eq!(p.handle_command(PlayerCommand::Play, 0, 0.5), vec![PlayerAction::Play]);
    assert_eq!(p.state(), SpotifyPlayerState::Paused);
}

#[test]
fn repeated_state_events_publish_once() {
    let mut p: SpotifyPlayer<f64> = SpotifyPlayer::new(0.5);
    let mut publishes = 0;
    for position_ms in 0u32..5 {
        publishes += p.handle_event(PlaybackEvent::Started { position_ms }, 0).len();
    }
    assert_eq!(publishes, 1);
    let paused = PlaybackEvent::Paused { track: TrackId::new(1), position_ms: 7 };
    assert_eq!(
        p.handle_event(paused.clone(), 0),
        vec![PlayerAction::Publish(info(SpotifyPlayerState::Paused, None, None))]
    );
    for _ in 0..3 {
        assert_eq!(p.handle_event(paused.clone(), 0), vec![]);
    }
    let mut q: SpotifyPlayer<f64> = SpotifyPlayer::new(0.5);
    for _ in 0..4 {
        assert_eq!(q.handle_event(PlaybackEvent::Stopped, 0), vec![]);
    }
    assert_eq!(q.handle_event(PlaybackEvent::TrackEnded, 0), vec![]);
}

#[test]
fn track_change_always_publishes() {
    let mut p: SpotifyPlayer<f64> = SpotifyPlayer::new(0.5);
    for _ in 0..2 {
        assert_eq!(
            p.handle_event(PlaybackEvent::TrackChanged(song()), 0),
            vec![PlayerAction::Publish(info(SpotifyPlayerState::Stopped, Some(song()), None))]
        );
    }
    assert_eq!(p.info(0).metadata(), &Some(song()));
}

#[test]
fn sleep_command_arms_the_timer_and_publishes() {
    let mut p: SpotifyPlayer<f64> = SpotifyPlayer::new(0.5);
    let now = 5 * NANOS_PER_SEC;
    assert_eq!(
        p.handle_command(PlayerCommand::Sleep(90), now, 0.75),
        vec![
            PlayerAction::ScheduleFade { after_ns: 90 * NANOS_PER_SEC },
            PlayerAction::Publish(info(SpotifyPlayerState::Stopped, None, Some(90))),
        ]
    );
    assert_eq!(p.sleep_remaining_secs(now + 1), Some(89));
    assert_eq!(p.sleep_remaining_secs(now + 89 * NANOS_PER_SEC), Some(1));
    assert_eq!(p.sleep_remaining_secs(now + 90 * NANOS_PER_SEC - 1), Some(0));
    assert_eq!(p.sleep_remaining_secs(now + 90 * NANOS_PER_SEC), None);
    assert_eq!(p.info(now + 30 * NANOS_PER_SEC).sleep_timer(), Some(60));
}

#[test]
fn second_sleep_command_restores_the_volume_first() {
    let mut p: SpotifyPlayer<f64> = SpotifyPlayer::new(0.5);
    p.handle_command(PlayerCommand::Sleep(60), 0, 0.75);
    assert_eq!(
        p.handle_command(PlayerCommand::Sleep(30), 10 * NANOS_PER_SEC, 0.75),
        vec![
            PlayerAction::RestoreVolume(0.75),
            PlayerAction::ScheduleFade { after_ns: 30 * NANOS_PER_SEC },
            PlayerAction::Publish(info(SpotifyPlayerState::Stopped, None, Some(30))),
        ]
    );
}

#[test]
fn sleep_of_zero_cancels_and_publishes() {
    let mut p: SpotifyPlayer<f64> = SpotifyPlayer::new(0.5);
    p.handle_command(PlayerCommand::Sleep(60), 0, 0.75);
    assert_eq!(
        p.handle_command(PlayerCommand::Sleep(0), NANOS_PER_SEC, 0.2),
        vec![
            PlayerAction::RestoreVolume(0.75),
            PlayerAction::Publish(info(SpotifyPlayerState::Stopped, None, None)),
        ]
    );
    assert_eq!(p.sleep_remaining_secs(2 * NANOS_PER_SEC), None);
    assert_eq!(
        p.handle_command(PlayerCommand::Sleep(0), 3 * NANOS_PER_SEC, 0.2),
        vec![PlayerAction::Publish(info(SpotifyPlayerState::Stopped, None, None))]
    );
}

#[test]
fn snapshot_keeps_state_metadata_and_timer() {
    let mut p: SpotifyPlayer<f64> = SpotifyPlayer::new(0.5);
    p.handle_event(PlaybackEvent::TrackChanged(song()), 0);
    p.handle_event(PlaybackEvent::Started { position_ms: 0 }, 0);
    p.handle_command(PlayerCommand::Sleep(10), 0, 0.5);
    let i = p.info(NANOS_PER_SEC);
    assert_eq!(i.status(), SpotifyPlayerState::Playing);
    assert!(!i.shuffle());
    assert_eq!(i.metadata(), &Some(song()));
    assert_eq!(i.sleep_timer(), Some(9));
    assert_eq!(i.clone(), i);
}
