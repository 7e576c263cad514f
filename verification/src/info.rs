//! What the outside sees of the player: its state, the current track's
//! metadata, and the snapshot that is published on every observable change.

use vstd::prelude::*;
use vstd::string::*;

verus! {

/// The player's state. Only events of the decoding engine change it.
#[derive(Clone, Copy, Debug, PartialEq, Eq, Structural)]
pub enum SpotifyPlayerState {
    Stopped,
    Playing,
    Paused,
}

/// Artist, title and cover of a track.
#[derive(Debug, PartialEq, Eq)]
pub struct MusicMetadata {
    artist: String,
    title: String,
    artwork_url: String,
}

/// A track's metadata as contracts see it.
pub struct MetadataView {
    pub artist: Seq<char>,
    pub title: Seq<char>,
    pub artwork_url: Seq<char>,
}

impl View for MusicMetadata {
    type V = MetadataView;

    closed spec fn view(&self) -> MetadataView {
        MetadataView { artist: self.artist@, title: self.title@, artwork_url: self.artwork_url@ }
    }
}

impl Clone for MusicMetadata {
    fn clone(&self) -> (m: Self)
        ensures
            m@ == self@,
    {
        MusicMetadata {
            artist: self.artist.clone(),
            title: self.title.clone(),
            artwork_url: self.artwork_url.clone(),
        }
    }
}

impl MusicMetadata {
    /// The metadata made of these three texts.
    pub fn new(artist: String, title: String, artwork_url: String) -> (m: Self)
        ensures
            m@ == (MetadataView { artist: artist@, title: title@, artwork_url: artwork_url@ }),
    {
        MusicMetadata { artist, title, artwork_url }
    }

    /// The line that names the artist.
    pub fn artist(&self) -> (s: &String)
        ensures
            s@ == self@.artist,
    {
        &self.artist
    }

    /// The title of the track.
    pub fn title(&self) -> (s: &String)
        ensures
            s@ == self@.title,
    {
        &self.title
    }

    /// The address of the cover; empty where there is none.
    pub fn artwork_url(&self) -> (s: &String)
        ensures
            s@ == self@.artwork_url,
    {
        &self.artwork_url
    }
}

/// The view of metadata that may be absent.
pub open spec fn metadata_view(m: Option<MusicMetadata>) -> Option<MetadataView> {
    match m {
        Some(x) => Some(x@),
        None => None,
    }
}

/// A copy of metadata that may be absent.
pub fn clone_metadata(m: &Option<MusicMetadata>) -> (c: Option<MusicMetadata>)
    ensures
        metadata_view(c) == metadata_view(*m),
{
    match m {
        Some(x) => Some(x.clone()),
        None => None,
    }
}

/// The snapshot of the player that is published: its state, the shuffle flag,
/// the current track's metadata if there is one, and the whole seconds that a
/// pending sleep timer still has to run.
#[derive(Debug, PartialEq, Eq)]
pub struct SpotifyPlayerInfo {
    status: SpotifyPlayerState,
    shuffle: bool,
    metadata: Option<MusicMetadata>,
    sleep_timer: Option<u32>,
}

/// A snapshot as contracts see it.
pub struct PlayerInfoView {
    pub status: SpotifyPlayerState,
    pub shuffle: bool,
    pub metadata: Option<MetadataView>,
    pub sleep_timer: Option<u32>,
}

impl View for SpotifyPlayerInfo {
    type V = PlayerInfoView;

    closed spec fn view(&self) -> PlayerInfoView {
        PlayerInfoView {
            status: self.status,
            shuffle: self.shuffle,
            metadata: metadata_view(self.metadata),
            sleep_timer: self.sleep_timer,
        }
    }
}

impl Clone for SpotifyPlayerInfo {
    fn clone(&self) -> (i: Self)
        ensures
            i@ == self@,
    {
        SpotifyPlayerInfo {
            status: self.status,
            shuffle: self.shuffle,
            metadata: clone_metadata(&self.metadata),
            sleep_timer: self.sleep_timer,
        }
    }
}

impl SpotifyPlayerInfo {
    /// The snapshot made of these four values.
    pub fn new(
        status: SpotifyPlayerState,
        shuffle: bool,
        metadata: Option<MusicMetadata>,
        sleep_timer: Option<u32>,
    ) -> (i: Self)
        ensures
            i@ == (PlayerInfoView {
                status,
                shuffle,
                metadata: metadata_view(metadata),
                sleep_timer,
            }),
    {
        SpotifyPlayerInfo { status, shuffle, metadata, sleep_timer }
    }

    /// The player's state.
    pub fn status(&self) -> (s: SpotifyPlayerState)
        ensures
            s == self@.status,
    {
        self.status
    }

    /// Whether the tracks are played in random order.
    pub fn shuffle(&self) -> (b: bool)
        ensures
            b == self@.shuffle,
    {
        self.shuffle
    }

    /// The metadata of the current track, if one is known.
    pub fn metadata(&self) -> (m: &Option<MusicMetadata>)
        ensures
            metadata_view(*m) == self@.metadata,
    {
        &self.metadata
    }

    /// The whole seconds that a pending sleep timer still has to run.
    pub fn sleep_timer(&self) -> (t: Option<u32>)
        ensures
            t == self@.sleep_timer,
    {
        self.sleep_timer
    }
}

} // verus!
