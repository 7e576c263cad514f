//! Control of a media player that runs beside the server and is reached over
//! the session bus: finding it, reading its properties, the requests of the
//! control surface, the retry of failed calls, and the fade that ends a sleep
//! period.
//!
//! The bus itself is the driver's business. What it reads from the bus it
//! hands in as plain values, and what comes back says what to send.

use crate::info::{metadata_view, MetadataView, MusicMetadata};
use crate::text::{contains, is_prefix, join, joined, occurs_in, same_text, starts_with, texts};
use vstd::prelude::*;
use vstd::string::*;

verus! {

/// The part of a bus name by which the media player is recognised.
pub const PLAYER_BUS_NAME: &'static str = "org.mpris.MediaPlayer2.spotify";

/// The scheme that every address of the streaming service begins with.
pub const URI_SCHEME: &'static str = "spotify:";

/// What stands between the names of two artists of one track.
pub const ARTIST_SEPARATOR: &'static str = " & ";

/// How often a failed call is tried again.
pub const METHOD_CALL_MAX_RETRIES: usize = 3;

/// The wait before a call is tried again, in milliseconds.
pub const RETRY_WAIT_MS: u64 = 1000;

/// The wait after playback was transferred to this device, in milliseconds.
pub const TRANSFER_WAIT_MS: u64 = 1500;

/// Nanoseconds in a second.
pub const NANOS_IN_SECOND: u64 = 1_000_000_000;

/// What the media player reports of itself.
#[derive(Debug, PartialEq, Eq)]
pub struct PlayerStatus {
    pub playing: bool,
    pub shuffle: bool,
    pub metadata: Option<MusicMetadata>,
}

/// A player's status as contracts see it.
pub struct PlayerStatusView {
    pub playing: bool,
    pub shuffle: bool,
    pub metadata: Option<MetadataView>,
}

impl View for PlayerStatus {
    type V = PlayerStatusView;

    open spec fn view(&self) -> PlayerStatusView {
        PlayerStatusView {
            playing: self.playing,
            shuffle: self.shuffle,
            metadata: metadata_view(self.metadata),
        }
    }
}

/// The state of the media player as the control surface shows it: the
/// player's status and the whole seconds that the sleep period still lasts.
#[derive(Debug, PartialEq, Eq)]
pub struct PlayerStateDto {
    playing: bool,
    shuffle: bool,
    metadata: Option<MusicMetadata>,
    sleep_timer: Option<u64>,
}

/// The shown state as contracts see it.
pub struct PlayerStateView {
    pub playing: bool,
    pub shuffle: bool,
    pub metadata: Option<MetadataView>,
    pub sleep_timer: Option<u64>,
}

impl View for PlayerStateDto {
    type V = PlayerStateView;

    closed spec fn view(&self) -> PlayerStateView {
        PlayerStateView {
            playing: self.playing,
            shuffle: self.shuffle,
            metadata: metadata_view(self.metadata),
            sleep_timer: self.sleep_timer,
        }
    }
}

impl PlayerStateDto {
    /// Whether the player plays.
    pub fn playing(&self) -> (b: bool)
        ensures
            b == self@.playing,
    {
        self.playing
    }

    /// Whether the tracks are played in random order.
    pub fn shuffle(&self) -> (b: bool)
        ensures
            b == self@.shuffle,
    {
        self.shuffle
    }

    /// The metadata of the current track, if the player shows any.
    pub fn metadata(&self) -> (m: &Option<MusicMetadata>)
        ensures
            metadata_view(*m) == self@.metadata,
    {
        &self.metadata
    }

    /// The whole seconds that the sleep period still lasts.
    pub fn sleep_timer(&self) -> (t: Option<u64>)
        ensures
            t == self@.sleep_timer,
    {
        self.sleep_timer
    }
}

/// The time from `now` to the end of the sleep period, while the end lies
/// ahead. Both times are nanoseconds of one monotonic clock.
pub open spec fn nanos_left(end_ns: Option<u64>, now_ns: u64) -> Option<u64> {
    match end_ns {
        Some(end) => if now_ns < end {
            Some((end - now_ns) as u64)
        } else {
            None
        },
        None => None,
    }
}

/// The whole seconds from `now` to the end of the sleep period, while the end
/// lies ahead.
pub open spec fn seconds_left(end_ns: Option<u64>, now_ns: u64) -> Option<u64> {
    match nanos_left(end_ns, now_ns) {
        Some(left) => Some(left / NANOS_IN_SECOND),
        None => None,
    }
}

/// The nanoseconds from `now_ns` to the end of the sleep period: how long
/// the fade has to wait before it begins. `None` where no period runs or its
/// end has passed, and then no fade begins.
pub fn time_until(end_ns: Option<u64>, now_ns: u64) -> (left: Option<u64>)
    ensures
        left == nanos_left(end_ns, now_ns),
{
    match end_ns {
        Some(end) => {
            if now_ns < end {
                Some(end - now_ns)
            } else {
                None
            }
        },
        None => None,
    }
}

/// The whole seconds from `now_ns` to the end of the sleep period, or `None`
/// where no period runs or its end has passed.
pub fn sleep_time_left(end_ns: Option<u64>, now_ns: u64) -> (left: Option<u64>)
    ensures
        left == seconds_left(end_ns, now_ns),
{
    match time_until(end_ns, now_ns) {
        Some(left) => Some(left / NANOS_IN_SECOND),
        None => None,
    }
}

/// The state that the control surface shows: the player's status, and the
/// time that the sleep period still lasts at `now_ns`.
pub fn create_playerstate_dto(status: PlayerStatus, sleep_end_ns: Option<u64>, now_ns: u64) -> (dto:
    PlayerStateDto)
    ensures
        dto@ == (PlayerStateView {
            playing: status.playing,
            shuffle: status.shuffle,
            metadata: metadata_view(status.metadata),
            sleep_timer: seconds_left(sleep_end_ns, now_ns),
        }),
{
    PlayerStateDto {
        sleep_timer: sleep_time_left(sleep_end_ns, now_ns),
        playing: status.playing,
        shuffle: status.shuffle,
        metadata: status.metadata,
    }
}

/// The name belongs to the media player.
pub open spec fn is_player_name(name: Seq<char>) -> bool {
    occurs_in(PLAYER_BUS_NAME@, name)
}

/// The bus name of the media player: the first of the names on the bus that
/// holds the player's name, or `None` where none does.
pub fn find_spotify_destination(names: &Vec<String>) -> (destination: Option<String>)
    ensures
        match destination {
            Some(d) => exists|i: int|
                0 <= i < names@.len() && d@ == (#[trigger] names@[i])@ && is_player_name(
                    names@[i]@,
                ) && forall|j: int| 0 <= j < i ==> !is_player_name((#[trigger] names@[j])@),
            None => forall|j: int|
                0 <= j < names@.len() ==> !is_player_name((#[trigger] names@[j])@),
        },
{
    let mut i: usize = 0;
    while i < names.len()
        invariant
            i <= names.len(),
            forall|j: int| 0 <= j < i ==> !is_player_name((#[trigger] names@[j])@),
        decreases names.len() - i,
    {
        if contains(names[i].as_str(), PLAYER_BUS_NAME) {
            return Some(names[i].clone());
        }
        i = i + 1;
    }
    None
}

/// The playback status reads `Playing`.
pub open spec fn reads_playing(status: Seq<char>) -> bool {
    status == "Playing"@
}

/// The playback status reads `Playing` or `Paused`: the player on this
/// device is the one that is selected.
pub open spec fn reads_selected(status: Seq<char>) -> bool {
    status == "Playing"@ || status == "Paused"@
}

/// Whether the player plays, by its playback status.
pub fn is_playing(status: &str) -> (b: bool)
    ensures
        b == reads_playing(status@),
{
    same_text(status, "Playing")
}

/// Whether the player on this device is the selected one, by its playback
/// status.
pub fn is_selected_playback(status: &str) -> (b: bool)
    ensures
        b == reads_selected(status@),
{
    same_text(status, "Playing") || same_text(status, "Paused")
}

/// The wait after a transfer of playback to this device, where one is
/// needed before a request: it is where the player here is not the selected
/// one.
pub fn transfer_before_request(selected: bool) -> (wait_ms: Option<u64>)
    ensures
        wait_ms == if selected {
            None::<u64>
        } else {
            Some(TRANSFER_WAIT_MS)
        },
{
    if selected {
        None
    } else {
        Some(TRANSFER_WAIT_MS)
    }
}

/// The address with the service's scheme in front, unless it has it.
pub open spec fn with_scheme(uri: Seq<char>) -> Seq<char> {
    if is_prefix(URI_SCHEME@, uri) {
        uri
    } else {
        URI_SCHEME@ + uri
    }
}

/// The address to open for a request to play `uri`.
pub fn play_uri(uri: &str) -> (address: String)
    ensures
        address@ == with_scheme(uri@),
{
    if !starts_with(uri, URI_SCHEME) {
        String::from_str(URI_SCHEME).concat(uri)
    } else {
        String::from_str(uri)
    }
}

/// The track metadata that the player's properties hold: the title, the
/// cover's address, and the items of the artist list, each as a string if it
/// is one.
#[derive(Clone, Debug, PartialEq, Eq)]
pub struct MprisMetadata {
    pub title: Option<String>,
    pub art_url: Option<String>,
    pub artists: Option<Vec<Option<String>>>,
}

/// What the logic reads of the player's properties.
#[derive(Clone, Debug, PartialEq, Eq)]
pub struct MprisProperties {
    pub playback_status: Option<String>,
    pub shuffle: Option<bool>,
    pub metadata: Option<MprisMetadata>,
}

/// A text that may be missing; a missing one is empty.
pub open spec fn text_or_empty(t: Option<String>) -> Seq<char> {
    match t {
        Some(s) => s@,
        None => Seq::empty(),
    }
}

/// The items of a list that are strings, in order.
pub open spec fn string_items(items: Seq<Option<String>>) -> Seq<Seq<char>>
    decreases items.len(),
{
    if items.len() == 0 {
        Seq::empty()
    } else {
        string_items(items.drop_last()) + (match items.last() {
            Some(s) => seq![s@],
            None => Seq::empty(),
        })
    }
}

/// The line that names the artists: the strings of the artist list, joined.
pub open spec fn artist_line(artists: Option<Vec<Option<String>>>) -> Seq<char> {
    match artists {
        Some(items) => joined(string_items(items@), ARTIST_SEPARATOR@),
        None => Seq::empty(),
    }
}

/// The metadata of the properties: none without a title or without an
/// artist.
pub open spec fn metadata_of(m: MprisMetadata) -> Option<MetadataView> {
    if text_or_empty(m.title).len() == 0 || artist_line(m.artists).len() == 0 {
        None
    } else {
        Some(
            MetadataView {
                artist: artist_line(m.artists),
                title: text_or_empty(m.title),
                artwork_url: text_or_empty(m.art_url),
            },
        )
    }
}

fn text_or_default(t: &Option<String>) -> (s: String)
    ensures
        s@ == text_or_empty(*t),
{
    match t {
        Some(s) => s.clone(),
        None => String::new(),
    }
}

fn artist_names(artists: &Option<Vec<Option<String>>>) -> (line: String)
    ensures
        line@ == artist_line(*artists),
{
    match artists {
        Some(items) => {
            let mut names: Vec<String> = Vec::new();
            let mut i: usize = 0;
            while i < items.len()
                invariant
                    i <= items.len(),
                    texts(names@) == string_items(items@.take(i as int)),
                decreases items.len() - i,
            {
                assert(items@.take(i + 1).drop_last() =~= items@.take(i as int));
                match &items[i] {
                    Some(s) => {
                        names.push(s.clone());
                    },
                    None => {},
                }
                i = i + 1;
            }
            assert(items@.take(i as int) =~= items@);
            join(&names, ARTIST_SEPARATOR)
        },
        None => String::new(),
    }
}

/// The metadata of the current track, from the player's properties: the
/// title, the artists joined into one line, and the cover's address. None
/// where the title or the artists are missing or empty.
pub fn extract_metadata(m: &MprisMetadata) -> (metadata: Option<MusicMetadata>)
    ensures
        metadata_view(metadata) == metadata_of(*m),
{
    let title = text_or_default(&m.title);
    let artwork_url = text_or_default(&m.art_url);
    let artist = artist_names(&m.artists);
    if title.as_str().is_empty() || artist.as_str().is_empty() {
        return None;
    }
    Some(MusicMetadata::new(artist, title, artwork_url))
}

/// The status that the properties hold: playing is read from the playback
/// status; shuffle is off unless the properties say on; the metadata is
/// shown only while the player here is the selected one.
pub open spec fn status_of(props: MprisProperties) -> PlayerStatusView {
    PlayerStatusView {
        playing: props.playback_status matches Some(s) && reads_playing(s@),
        shuffle: props.shuffle == Some(true),
        metadata: if props.playback_status matches Some(s) && reads_selected(s@) {
            match props.metadata {
                Some(m) => metadata_of(m),
                None => None,
            }
        } else {
            None
        },
    }
}

/// The player's status, from its properties.
pub fn extract_status(props: &MprisProperties) -> (status: PlayerStatus)
    ensures
        status@ == status_of(*props),
{
    let playing = match &props.playback_status {
        Some(s) => is_playing(s.as_str()),
        None => false,
    };
    let active = match &props.playback_status {
        Some(s) => is_selected_playback(s.as_str()),
        None => false,
    };
    let metadata = if active {
        match &props.metadata {
            Some(m) => extract_metadata(m),
            None => None,
        }
    } else {
        None
    };
    let shuffle = match props.shuffle {
        Some(b) => b,
        None => false,
    };
    PlayerStatus { playing, shuffle, metadata }
}

/// What follows a failed call.
#[derive(Clone, Copy, Debug, PartialEq, Eq, Structural)]
pub enum RetryDecision {
    /// Look the player's bus name up again, wait, and make the call once
    /// more; `retries` counts this new try.
    Retry { retries: usize, wait_ms: u64 },
    /// Hand the failure to the caller.
    GiveUp,
}

/// What follows the failure of a call that has been tried again `retries`
/// times before.
pub fn after_failure(retries: usize) -> (decision: RetryDecision)
    ensures
        decision == if retries < METHOD_CALL_MAX_RETRIES {
            RetryDecision::Retry { retries: (retries + 1) as usize, wait_ms: RETRY_WAIT_MS }
        } else {
            RetryDecision::GiveUp
        },
{
    if retries < METHOD_CALL_MAX_RETRIES {
        RetryDecision::Retry { retries: retries + 1, wait_ms: RETRY_WAIT_MS }
    } else {
        RetryDecision::GiveUp
    }
}

/// What the control surface can ask of the media player.
#[derive(Clone, Copy, Debug, PartialEq, Eq, Structural)]
pub enum ControlAction {
    Play,
    Pause,
    Next,
    Previous,
}

/// The lower-case form of a text, as `str::to_lowercase` gives it.
pub uninterp spec fn lowercase_of(text: Seq<char>) -> Seq<char>;

/// Calls `str::to_lowercase`. The contract gives the result a name; what
/// the lower-case form of a text is, is not stated and not proved.
#[verifier::external_body]
fn to_lowercase(text: &str) -> (lower: String)
    ensures
        lower@ == lowercase_of(text@),
{
    text.to_lowercase()
}

/// The action that a lower-case word asks for.
pub open spec fn action_named(word: Seq<char>) -> Option<ControlAction> {
    if word == "play"@ {
        Some(ControlAction::Play)
    } else if word == "pause"@ {
        Some(ControlAction::Pause)
    } else if word == "next"@ {
        Some(ControlAction::Next)
    } else if word == "previous"@ {
        Some(ControlAction::Previous)
    } else {
        None
    }
}

/// The action that a word in lower case asks for: `play`, `pause`, `next`
/// or `previous`; any other word asks for nothing.
pub fn action_of_word(word: &str) -> (action: Option<ControlAction>)
    ensures
        action == action_named(word@),
{
    if same_text(word, "play") {
        Some(ControlAction::Play)
    } else if same_text(word, "pause") {
        Some(ControlAction::Pause)
    } else if same_text(word, "next") {
        Some(ControlAction::Next)
    } else if same_text(word, "previous") {
        Some(ControlAction::Previous)
    } else {
        None
    }
}

/// The action that a request of the control surface asks for, whatever the
/// case of its letters.
pub fn control_action(request: &str) -> (action: Option<ControlAction>)
    ensures
        action == action_named(lowercase_of(request@)),
{
    let lower = to_lowercase(request);
    action_of_word(lower.as_str())
}

/// The player's method that carries out an action.
pub open spec fn method_of(action: ControlAction) -> Seq<char> {
    match action {
        ControlAction::Play => "Play"@,
        ControlAction::Pause => "Pause"@,
        ControlAction::Next => "Next"@,
        ControlAction::Previous => "Previous"@,
    }
}

impl ControlAction {
    /// The name of the player's method that carries out the action.
    pub fn method(&self) -> (name: &'static str)
        ensures
            name@ == method_of(*self),
    {
        match *self {
            ControlAction::Play => "Play",
            ControlAction::Pause => "Pause",
            ControlAction::Next => "Next",
            ControlAction::Previous => "Previous",
        }
    }

    /// Whether the player here must be the selected one before the action:
    /// so it is for `Play`.
    pub fn needs_selected_playback(&self) -> (b: bool)
        ensures
            b == (*self == ControlAction::Play),
    {
        match *self {
            ControlAction::Play => true,
            _ => false,
        }
    }
}

/// The levels of the fade that ends a sleep period: it sets the volume
/// once for every hundredth, from full volume down to silence.
pub const VOLUME_FADE_LEVELS: u32 = 101;

/// The wait after each level of the fade but the first, in milliseconds.
pub const VOLUME_FADE_TICK_MS: u64 = 500;

/// The wait between the last level and the pause, in milliseconds.
pub const VOLUME_FADE_SETTLE_MS: u64 = 1000;

/// The wait between the pause and the return to full volume, in
/// milliseconds.
pub const VOLUME_FADE_GRACE_MS: u64 = 5000;

/// One step of the fade that ends a sleep period.
#[derive(Clone, Copy, Debug, PartialEq, Eq, Structural)]
pub enum VolumeFadeAction {
    /// Set the volume to full volume less `hundredths_off` hundredths of it,
    /// then wait `then_wait_ms`.
    SetLevel { hundredths_off: u32, then_wait_ms: u64 },
    /// Wait `after_ms`, then pause the player.
    Pause { after_ms: u64 },
    /// Wait `after_ms`, then set the volume to full volume.
    RestoreFull { after_ms: u64 },
    /// The fade is over.
    Finished,
}

/// What the fade does at its step `step`, counted from zero, where
/// `superseded` says whether the sleep period was set anew or cancelled
/// when the driver last looked, which it does after the wait of every level.
/// The fade walks down the levels, the first two without a wait between
/// them, pauses the player and returns to full volume; a fade that is
/// superseded on its way down returns to full volume at once and ends.
pub open spec fn volume_fade_at(step: int, superseded: bool) -> VolumeFadeAction {
    if step < 0 {
        VolumeFadeAction::Finished
    } else if step == 0 {
        VolumeFadeAction::SetLevel { hundredths_off: 0, then_wait_ms: 0 }
    } else if step <= VOLUME_FADE_LEVELS && superseded {
        VolumeFadeAction::RestoreFull { after_ms: 0 }
    } else if step < VOLUME_FADE_LEVELS {
        VolumeFadeAction::SetLevel {
            hundredths_off: step as u32,
            then_wait_ms: VOLUME_FADE_TICK_MS,
        }
    } else if step == VOLUME_FADE_LEVELS {
        VolumeFadeAction::Pause { after_ms: VOLUME_FADE_SETTLE_MS }
    } else if step == VOLUME_FADE_LEVELS + 1 {
        VolumeFadeAction::RestoreFull { after_ms: VOLUME_FADE_GRACE_MS }
    } else {
        VolumeFadeAction::Finished
    }
}

/// The step `step` of the fade that ends a sleep period, counted from zero.
/// The driver stops at the first `RestoreFull` and at `Finished`.
pub fn volume_fade_step(step: u32, superseded: bool) -> (action: VolumeFadeAction)
    ensures
        action == volume_fade_at(step as int, superseded),
{
    if step == 0 {
        VolumeFadeAction::SetLevel { hundredths_off: 0, then_wait_ms: 0 }
    } else if step <= VOLUME_FADE_LEVELS && superseded {
        VolumeFadeAction::RestoreFull { after_ms: 0 }
    } else if step < VOLUME_FADE_LEVELS {
        VolumeFadeAction::SetLevel { hundredths_off: step, then_wait_ms: VOLUME_FADE_TICK_MS }
    } else if step == VOLUME_FADE_LEVELS {
        VolumeFadeAction::Pause { after_ms: VOLUME_FADE_SETTLE_MS }
    } else if step == VOLUME_FADE_LEVELS + 1 {
        VolumeFadeAction::RestoreFull { after_ms: VOLUME_FADE_GRACE_MS }
    } else {
        VolumeFadeAction::Finished
    }
}

/// The first step from `1` to `n` at which the driver finds the fade
/// superseded, if there is one.
pub open spec fn first_superseded(superseded: spec_fn(int) -> bool, n: int) -> Option<int>
    decreases n,
{
    if n < 1 {
        None
    } else {
        match first_superseded(superseded, n - 1) {
            Some(k) => Some(k),
            None => if superseded(n) {
                Some(n)
            } else {
                None
            },
        }
    }
}

/// The step at which the fade returns to full volume, where `superseded`
/// says for every step what the driver finds when it looks: the first step at
/// which it finds the fade superseded on the way down, and the step after the
/// pause where it never does.
pub open spec fn restoring_step(superseded: spec_fn(int) -> bool) -> int {
    match first_superseded(superseded, VOLUME_FADE_LEVELS as int) {
        Some(k) => k,
        None => VOLUME_FADE_LEVELS + 1,
    }
}

proof fn lemma_first_superseded(superseded: spec_fn(int) -> bool, n: int)
    ensures
        match first_superseded(superseded, n) {
            Some(k) => 1 <= k <= n && superseded(k) && forall|j: int|
                1 <= j < k ==> !#[trigger] superseded(j),
            None => forall|j: int| 1 <= j <= n ==> !#[trigger] superseded(j),
        },
    decreases n,
{
    if n >= 1 {
        lemma_first_superseded(superseded, n - 1);
    }
}

/// Every fade ends at full volume: whatever the driver finds when it looks,
/// there is a step at which the fade returns to full volume, and before that
/// step it neither returns to full volume nor ends.
pub proof fn lemma_volume_fade_ends_at_full_volume(superseded: spec_fn(int) -> bool)
    ensures
        1 <= restoring_step(superseded) <= VOLUME_FADE_LEVELS + 1,
        volume_fade_at(
            restoring_step(superseded),
            superseded(restoring_step(superseded)),
        ) is RestoreFull,
        forall|j: int|
            0 <= j < restoring_step(superseded) ==> (#[trigger] volume_fade_at(
                j,
                superseded(j),
            ) is SetLevel || volume_fade_at(j, superseded(j)) is Pause),
{
    lemma_first_superseded(superseded, VOLUME_FADE_LEVELS as int);
}

} // verus!
