//! The sleep timer: at most one pending delayed action, the volume that was
//! captured when it was armed, and the fade that the action performs.
//!
//! The timer keeps no clock and owns no task. Its driver reads the clock and
//! the volume cell, hands both in, and carries out what comes back. Times are
//! nanoseconds of one monotonic clock. The volume is whatever the driver's
//! volume cell holds: the timer stores and returns it and never computes on it.

use vstd::prelude::*;

verus! {

/// The steps of a fade.
pub const FADE_STEPS: u32 = 100;

/// How long the whole fade takes, in nanoseconds.
pub const FADE_DURATION_NS: u64 = 10_000_000_000;

/// How long one step of the fade lasts, in nanoseconds.
pub const FADE_STEP_NS: u64 = 100_000_000;

/// How long the fade waits after pausing before it restores the volume, in
/// nanoseconds.
pub const FADE_GRACE_NS: u64 = 1_000_000_000;

/// The timer as contracts see it.
pub struct TimerState<V> {
    /// A delayed action has been scheduled and not been cancelled since.
    pub armed: bool,
    /// The volume that was captured when the timer was last armed.
    pub initial_volume: V,
    /// When the pending action is due.
    pub deadline: Option<int>,
}

/// What the driver does after `set_timer`, in this order: where
/// `restore_volume` is `Some`, abort the scheduled action and write that
/// volume to the cell; where `schedule_after_ns` is `Some`, schedule the fade
/// to start after that delay.
#[derive(Clone, Copy, Debug, PartialEq)]
pub struct TimerUpdate<V> {
    pub restore_volume: Option<V>,
    pub schedule_after_ns: Option<u64>,
}

/// The timer after `set_timer` at time `now`, where the volume cell held
/// `current` when the call was made.
pub open spec fn timer_after_set<V>(s: TimerState<V>, now: int, delay: int, current: V)
    -> TimerState<V> {
    if delay == 0 {
        TimerState { armed: false, initial_volume: s.initial_volume, deadline: None }
    } else {
        TimerState {
            armed: true,
            initial_volume: if s.armed {
                s.initial_volume
            } else {
                current
            },
            deadline: Some(now + delay),
        }
    }
}

/// The volume to restore when the timer is set: the captured one, if an
/// action was scheduled.
pub open spec fn timer_restores<V>(s: TimerState<V>) -> Option<V> {
    if s.armed {
        Some(s.initial_volume)
    } else {
        None
    }
}

/// The delay to schedule the next action with, if any.
pub open spec fn timer_schedules(delay: int) -> Option<int> {
    if delay == 0 {
        None
    } else {
        Some(delay)
    }
}

/// What the volume cell holds once the driver has carried out an update.
pub open spec fn volume_after<V>(restore: Option<V>, before: V) -> V {
    match restore {
        Some(v) => v,
        None => before,
    }
}

/// The time left until the deadline, while it lies ahead.
pub open spec fn timer_remaining<V>(s: TimerState<V>, now: int) -> Option<int> {
    match s.deadline {
        Some(d) => if d > now {
            Some(d - now)
        } else {
            None
        },
        None => None,
    }
}

/// A countdown is running: an action is scheduled and its deadline lies ahead.
pub open spec fn timer_counting<V>(s: TimerState<V>, now: int) -> bool {
    s.armed && timer_remaining(s, now).is_some()
}

/// Runs at most one cancellable delayed action and remembers the volume to
/// go back to.
pub struct SleepTimer<V> {
    armed: bool,
    initial_volume: V,
    deadline: Option<u64>,
}

impl<V> View for SleepTimer<V> {
    type V = TimerState<V>;

    closed spec fn view(&self) -> TimerState<V> {
        TimerState {
            armed: self.armed,
            initial_volume: self.initial_volume,
            deadline: match self.deadline {
                Some(d) => Some(d as int),
                None => None,
            },
        }
    }
}

impl<V: Copy> SleepTimer<V> {
    /// A timer with nothing scheduled. `volume` is what the volume cell holds.
    pub fn new(volume: V) -> (t: Self)
        ensures
            t@ == (TimerState { armed: false, initial_volume: volume, deadline: None }),
    {
        SleepTimer { armed: false, initial_volume: volume, deadline: None }
    }

    /// Sets the timer at time `now_ns`, where the volume cell holds
    /// `current_volume`. An action that was scheduled is cancelled and its
    /// captured volume restored. With a delay of zero nothing new is
    /// scheduled; otherwise the volume is captured, as it is after the
    /// restore, and the fade scheduled to start after `delay_ns`.
    pub fn set_timer(&mut self, now_ns: u64, delay_ns: u64, current_volume: V) -> (update:
        TimerUpdate<V>)
        requires
            now_ns + delay_ns <= u64::MAX,
        ensures
            final(self)@ == timer_after_set(
                old(self)@,
                now_ns as int,
                delay_ns as int,
                current_volume,
            ),
            update.restore_volume == timer_restores(old(self)@),
            match update.schedule_after_ns {
                Some(d) => timer_schedules(delay_ns as int) == Some(d as int),
                None => timer_schedules(delay_ns as int).is_none(),
            },
    {
        let mut restore: Option<V> = None;
        let mut volume = current_volume;
        if self.armed {
            self.armed = false;
            restore = Some(self.initial_volume);
            volume = self.initial_volume;
        }
        if delay_ns == 0 {
            self.deadline = None;
            return TimerUpdate { restore_volume: restore, schedule_after_ns: None };
        }
        self.initial_volume = volume;
        self.deadline = Some(now_ns + delay_ns);
        self.armed = true;
        TimerUpdate { restore_volume: restore, schedule_after_ns: Some(delay_ns) }
    }

    /// The time in nanoseconds until the pending action is due, or `None`
    /// where nothing is pending or the deadline has passed.
    pub fn remaining_time(&self, now_ns: u64) -> (left: Option<u64>)
        ensures
            match left {
                Some(d) => timer_remaining(self@, now_ns as int) == Some(d as int),
                None => timer_remaining(self@, now_ns as int).is_none(),
            },
    {
        match self.deadline {
            Some(d) => {
                if d > now_ns {
                    Some(d - now_ns)
                } else {
                    None
                }
            },
            None => None,
        }
    }

    /// Whether an action has been scheduled and not been cancelled since.
    pub fn is_armed(&self) -> (b: bool)
        ensures
            b == self@.armed,
    {
        self.armed
    }

    /// The volume that was captured when the timer was last armed.
    pub fn initial_volume(&self) -> (v: V)
        ensures
            v == self@.initial_volume,
    {
        self.initial_volume
    }
}

/// One step of the fade that runs when the timer expires.
#[derive(Clone, Copy, Debug, PartialEq, Eq, Structural)]
pub enum FadeAction {
    /// Set the volume to the volume at the fade's start, less the fraction
    /// `elapsed / total` of it, then wait `wait_ns`.
    SetLevel { elapsed: u32, total: u32, wait_ns: u64 },
    /// Pause playback, then wait `wait_ns`.
    PauseAndWait { wait_ns: u64 },
    /// Write back the volume that the cell held at the fade's start.
    RestoreVolume,
    /// The fade is over.
    Finished,
}

/// What the fade does at its step `step`, counted from zero: a linear descent
/// to silence, one pause, one restore.
pub open spec fn fade_action_at(step: int) -> FadeAction {
    if 0 <= step < FADE_STEPS {
        FadeAction::SetLevel {
            elapsed: (step + 1) as u32,
            total: FADE_STEPS,
            wait_ns: FADE_STEP_NS,
        }
    } else if step == FADE_STEPS {
        FadeAction::PauseAndWait { wait_ns: FADE_GRACE_NS }
    } else if step == FADE_STEPS + 1 {
        FadeAction::RestoreVolume
    } else {
        FadeAction::Finished
    }
}

/// The step `step` of the fade, counted from zero.
pub fn fade_step(step: u32) -> (action: FadeAction)
    ensures
        action == fade_action_at(step as int),
{
    if step < FADE_STEPS {
        FadeAction::SetLevel { elapsed: step + 1, total: FADE_STEPS, wait_ns: FADE_STEP_NS }
    } else if step == FADE_STEPS {
        FadeAction::PauseAndWait { wait_ns: FADE_GRACE_NS }
    } else if step == FADE_STEPS + 1 {
        FadeAction::RestoreVolume
    } else {
        FadeAction::Finished
    }
}

/// Setting the timer twice, the second time before the first delay has run
/// out, leaves the volume cell at the value it had before the first call, and
/// leaves one countdown: the first action is cancelled, the second is
/// scheduled and its deadline is the second call's. This holds whatever the
/// cell held at the second call. `s0` is the timer and `v0` the cell before
/// the first call; an action that is still scheduled then must not have
/// changed the cell yet.
pub proof fn lemma_rearm_restores_volume<V>(
    s0: TimerState<V>,
    v0: V,
    now1: int,
    delay1: int,
    v_between: V,
    now2: int,
    delay2: int,
)
    requires
        delay1 > 0,
        delay2 > 0,
        now1 <= now2 < now1 + delay1,
        s0.armed ==> s0.initial_volume == v0,
    ensures
        ({
            let s1 = timer_after_set(s0, now1, delay1, v0);
            let s2 = timer_after_set(s1, now2, delay2, v_between);
            &&& volume_after(timer_restores(s0), v0) == v0
            &&& timer_counting(s1, now2)
            &&& timer_restores(s1) == Some(v0)
            &&& volume_after(timer_restores(s1), v_between) == v0
            &&& s2.initial_volume == v0
            &&& s2.armed
            &&& s2.deadline == Some(now2 + delay2)
            &&& timer_remaining(s2, now2) == Some(delay2)
            &&& timer_schedules(delay2) == Some(delay2)
        }),
{
}

/// Setting the timer with a delay of zero while a countdown runs restores the
/// captured volume at once and leaves nothing pending: no time remains at any
/// later moment.
pub proof fn lemma_zero_delay_cancels<V>(s: TimerState<V>, now: int, current: V, later: int)
    requires
        timer_counting(s, now),
    ensures
        timer_restores(s) == Some(s.initial_volume),
        volume_after(timer_restores(s), current) == s.initial_volume,
        timer_schedules(0).is_none(),
        !timer_after_set(s, now, 0, current).armed,
        timer_remaining(timer_after_set(s, now, 0, current), later).is_none(),
{
}

/// The fade descends linearly: each level step silences one more hundredth
/// than the step before, the last one silences everything, and the steps take
/// the fade's whole duration between them. Then come the pause, the restore
/// and nothing more.
pub proof fn lemma_fade_is_linear(step: int)
    requires
        0 <= step < FADE_STEPS,
    ensures
        fade_action_at(step) == (FadeAction::SetLevel {
            elapsed: (step + 1) as u32,
            total: FADE_STEPS,
            wait_ns: FADE_STEP_NS,
        }),
        fade_action_at(FADE_STEPS - 1) == (FadeAction::SetLevel {
            elapsed: FADE_STEPS,
            total: FADE_STEPS,
            wait_ns: FADE_STEP_NS,
        }),
        FADE_STEPS * FADE_STEP_NS == FADE_DURATION_NS,
        fade_action_at(FADE_STEPS as int) == (FadeAction::PauseAndWait { wait_ns: FADE_GRACE_NS }),
        fade_action_at(FADE_STEPS + 1) == FadeAction::RestoreVolume,
        forall|k: int| k > FADE_STEPS + 1 ==> fade_action_at(k) == FadeAction::Finished,
{
}

} // verus!
