//! Silence failover: which input branch of the mixing graph is active, decided
//! from periodic readings of the downstream buffer with a hysteresis band.

use vstd::prelude::*;

verus! {

/// The selectable inputs of the mixing graph: generated silence, or the
/// bridged (live) audio of the streaming service.
#[derive(Clone, Copy, Debug, PartialEq, Eq, Structural)]
pub enum SpotifyInputSourceSelector {
    Silence,
    Spotify,
}

/// One reading of the downstream buffer, in bytes.
#[derive(Clone, Copy, Debug, PartialEq, Eq, Structural)]
pub struct BufferOccupancy {
    pub current_bytes: u64,
    pub max_bytes: u64,
}

/// What the monitor asks of its driver after one poll.
#[derive(Clone, Copy, Debug, PartialEq, Eq, Structural)]
pub enum MonitorAction {
    /// Leave the mixing graph as it is.
    Keep,
    /// Make this branch the active one.
    Switch(SpotifyInputSourceSelector),
    /// The buffer could not be read; log it. Asked for once only.
    ReportFailure,
}

/// The monitor as contracts see it.
pub struct MonitorState {
    pub branch: SpotifyInputSourceSelector,
    pub failure_reported: bool,
}

/// Time between two polls of the buffer, in milliseconds.
pub const POLL_INTERVAL_MS: u64 = 500;

/// The buffer holds strictly less than a tenth of its capacity.
pub open spec fn below_low_water(o: BufferOccupancy) -> bool {
    o.current_bytes * 10 < o.max_bytes
}

/// The buffer holds at least its full capacity.
pub open spec fn at_high_water(o: BufferOccupancy) -> bool {
    o.current_bytes >= o.max_bytes
}

/// The branch that is active after a reading `o` was taken while `branch` was.
pub open spec fn next_branch(
    branch: SpotifyInputSourceSelector,
    o: BufferOccupancy,
) -> SpotifyInputSourceSelector {
    match branch {
        SpotifyInputSourceSelector::Spotify => if below_low_water(o) {
            SpotifyInputSourceSelector::Silence
        } else {
            SpotifyInputSourceSelector::Spotify
        },
        SpotifyInputSourceSelector::Silence => if at_high_water(o) {
            SpotifyInputSourceSelector::Spotify
        } else {
            SpotifyInputSourceSelector::Silence
        },
    }
}

/// One poll: the state after it and the action it asks for. `None` stands for
/// a reading that failed.
pub open spec fn monitor_step(s: MonitorState, sample: Option<BufferOccupancy>) -> (
    MonitorState,
    MonitorAction,
) {
    match sample {
        None => (
            MonitorState { branch: s.branch, failure_reported: true },
            if s.failure_reported {
                MonitorAction::Keep
            } else {
                MonitorAction::ReportFailure
            },
        ),
        Some(o) => {
            let b = next_branch(s.branch, o);
            (
                MonitorState { branch: b, failure_reported: s.failure_reported },
                if b == s.branch {
                    MonitorAction::Keep
                } else {
                    MonitorAction::Switch(b)
                },
            )
        },
    }
}

/// The state after a run of polls, taken in order.
pub open spec fn monitor_run(s: MonitorState, samples: Seq<Option<BufferOccupancy>>) -> MonitorState
    decreases samples.len(),
{
    if samples.len() == 0 {
        s
    } else {
        monitor_step(monitor_run(s, samples.drop_last()), samples.last()).0
    }
}

/// A poll that lies inside the hysteresis band, or that failed.
pub open spec fn in_band(sample: Option<BufferOccupancy>) -> bool {
    match sample {
        None => true,
        Some(o) => !below_low_water(o) && !at_high_water(o),
    }
}

/// Polls the buffer's occupancy and flips the active branch at the two
/// hysteresis boundaries.
pub struct FailoverMonitor {
    active_branch: SpotifyInputSourceSelector,
    failure_reported: bool,
}

impl View for FailoverMonitor {
    type V = MonitorState;

    closed spec fn view(&self) -> MonitorState {
        MonitorState { branch: self.active_branch, failure_reported: self.failure_reported }
    }
}

impl FailoverMonitor {
    /// A monitor whose active branch is `initial` and that has reported no
    /// failure yet.
    pub fn new(initial: SpotifyInputSourceSelector) -> (m: Self)
        ensures
            m@ == (MonitorState { branch: initial, failure_reported: false }),
    {
        FailoverMonitor { active_branch: initial, failure_reported: false }
    }

    /// The branch that is active now.
    pub fn active_branch(&self) -> (b: SpotifyInputSourceSelector)
        ensures
            b == self@.branch,
    {
        self.active_branch
    }

    /// Takes one poll of the buffer (`None` where it could not be read) and
    /// says what to do with the mixing graph.
    pub fn observe(&mut self, sample: Option<BufferOccupancy>) -> (action: MonitorAction)
        ensures
            final(self)@ == monitor_step(old(self)@, sample).0,
            action == monitor_step(old(self)@, sample).1,
    {
        match sample {
            None => {
                let first = !self.failure_reported;
                self.failure_reported = true;
                if first {
                    MonitorAction::ReportFailure
                } else {
                    MonitorAction::Keep
                }
            },
            Some(o) => {
                let low = (o.current_bytes as u128) * 10 < (o.max_bytes as u128);
                let high = o.current_bytes >= o.max_bytes;
                match self.active_branch {
                    SpotifyInputSourceSelector::Spotify => {
                        if low {
                            self.active_branch = SpotifyInputSourceSelector::Silence;
                            MonitorAction::Switch(SpotifyInputSourceSelector::Silence)
                        } else {
                            MonitorAction::Keep
                        }
                    },
                    SpotifyInputSourceSelector::Silence => {
                        if high {
                            self.active_branch = SpotifyInputSourceSelector::Spotify;
                            MonitorAction::Switch(SpotifyInputSourceSelector::Spotify)
                        } else {
                            MonitorAction::Keep
                        }
                    },
                }
            },
        }
    }

    /// A switch made from outside the monitor: `branch` becomes the active
    /// one. Returns whether that changed anything.
    pub fn switch_to(&mut self, branch: SpotifyInputSourceSelector) -> (changed: bool)
        ensures
            final(self)@ == (MonitorState {
                branch,
                failure_reported: old(self)@.failure_reported,
            }),
            changed == (old(self)@.branch != branch),
    {
        let changed = self.active_branch != branch;
        self.active_branch = branch;
        changed
    }
}

/// A reading flips the branch exactly at the boundaries: from the live branch
/// to silence when the buffer is strictly below a tenth of its capacity, from
/// silence to the live branch when it is at or above its capacity; any other
/// reading leaves the branch as it was.
pub proof fn lemma_flip_only_at_boundaries(branch: SpotifyInputSourceSelector, o: BufferOccupancy)
    ensures
        next_branch(branch, o) != branch <==> (branch == SpotifyInputSourceSelector::Spotify
            && below_low_water(o)) || (branch == SpotifyInputSourceSelector::Silence
            && at_high_water(o)),
        branch == SpotifyInputSourceSelector::Spotify && below_low_water(o) ==> next_branch(
            branch,
            o,
        ) == SpotifyInputSourceSelector::Silence,
        branch == SpotifyInputSourceSelector::Silence && at_high_water(o) ==> next_branch(
            branch,
            o,
        ) == SpotifyInputSourceSelector::Spotify,
{
}

/// A run of polls that all lie inside the hysteresis band, or failed, leaves
/// the active branch where it was.
pub proof fn lemma_band_keeps_branch(s: MonitorState, samples: Seq<Option<BufferOccupancy>>)
    requires
        forall|i: int| 0 <= i < samples.len() ==> in_band(#[trigger] samples[i]),
    ensures
        monitor_run(s, samples).branch == s.branch,
    decreases samples.len(),
{
    if samples.len() > 0 {
        lemma_band_keeps_branch(s, samples.drop_last());
    }
}

/// After a flip the very next reading cannot flip back unless it crosses the
/// whole band: a reading that took the live branch to silence is below the
/// upper boundary, and one that restored the live branch is not below the
/// lower one.
pub proof fn lemma_no_immediate_oscillation(branch: SpotifyInputSourceSelector, o: BufferOccupancy)
    requires
        next_branch(branch, o) != branch,
    ensures
        next_branch(next_branch(branch, o), o) == next_branch(branch, o),
{
}

} // verus!
