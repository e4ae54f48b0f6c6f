//! The timer state machine.
//!
//! A [`Timer`] starts in [`TimerType::Warning`] mode. When the warning
//! period elapses, [`Timer::update`] advances it to [`TimerType::DeadMan`]
//! mode with a fresh start and the configured dead-man period. A check-in
//! ([`Timer::reset`]) re-arms the warning period; it is the only way back
//! from dead-man mode.

use vstd::arithmetic::div_mod::*;
use vstd::prelude::*;

use crate::clock;
use crate::clock::ClockError;
use crate::config::Config;
use crate::state::PersistedState;

verus! {

/// The two stages of the switch.
#[derive(Debug, Clone, Copy, PartialEq, Eq, Structural)]
pub enum TimerType {
    /// The warning timer: a human must check in before it expires.
    Warning,
    /// The dead-man timer: the final action fires when it expires.
    DeadMan,
}

/// Failures surfaced by timer construction.
#[derive(Debug, Clone, Copy, PartialEq, Eq, Structural)]
pub enum TimerError {
    /// The wall clock is set before the Unix epoch.
    Clock,
    /// Durable storage could not be written during startup verification.
    Io,
}

/// The in-memory timer.
///
/// `start` is a monotonic instant chosen so that the monotonic time since
/// `start` approximates the true wall-clock time elapsed since the last
/// checkpoint, even across restarts (see [`Timer::from_persisted`]).
pub struct Timer {
    /// The current mode.
    pub timer_type: TimerType,
    /// The monotonic start of the current period.
    pub start: std::time::Instant,
    /// The length of the current period in seconds.
    pub duration: u64,
}

/// Seconds left of a period of `total` seconds once `elapsed` seconds have
/// passed; zero once elapsed time reaches the period.
pub open spec fn spec_remaining(total: u64, elapsed: u64) -> u64 {
    if elapsed < total {
        (total - elapsed) as u64
    } else {
        0
    }
}

/// Remaining time as a whole percentage, floor-rounded; zero for a period of
/// zero length rather than a division by zero.
pub open spec fn spec_remaining_percent(total: u64, elapsed: u64) -> int {
    if total == 0 {
        0
    } else {
        spec_remaining(total, elapsed) * 100 / (total as int)
    }
}

/// Whether [`Timer::update`] transitions: only a warning timer whose period
/// has fully elapsed advances to dead-man mode.
pub open spec fn spec_transitions(mode: TimerType, duration: u64, elapsed: u64) -> bool {
    mode is Warning && elapsed >= duration
}

/// The mode and duration after [`Timer::update`] observes `elapsed` seconds,
/// with `dead_man_duration` as the configured dead-man period.
pub open spec fn spec_update(
    mode: TimerType,
    duration: u64,
    elapsed: u64,
    dead_man_duration: u64,
) -> (TimerType, u64) {
    if spec_transitions(mode, duration, elapsed) {
        (TimerType::DeadMan, dead_man_duration)
    } else {
        (mode, duration)
    }
}

/// The period configured for a mode: the warning period in warning mode, the
/// dead-man period in dead-man mode.
pub open spec fn spec_duration_for(mode: TimerType, warning_secs: u64, dead_man_secs: u64) -> u64 {
    match mode {
        TimerType::Warning => warning_secs,
        TimerType::DeadMan => dead_man_secs,
    }
}

/// Seconds left of a period of `total` seconds after `elapsed` seconds,
/// saturating at zero.
pub fn remaining_at(total: u64, elapsed: u64) -> (r: u64)
    ensures
        r == spec_remaining(total, elapsed),
{
    if elapsed < total {
        total - elapsed
    } else {
        0
    }
}

/// Whether a period of `total` seconds has expired after `elapsed` seconds.
pub fn expired_at(total: u64, elapsed: u64) -> (r: bool)
    ensures
        r == (elapsed >= total),
{
    elapsed >= total
}

/// Remaining time as a percentage of a period of `total` seconds after
/// `elapsed` seconds: floor-rounded, never above 100, and zero for a
/// zero-length period.
pub fn remaining_percent_at(total: u64, elapsed: u64) -> (r: u16)
    ensures
        r == spec_remaining_percent(total, elapsed),
        r <= 100,
{
    if total == 0 {
        0
    } else {
        let rem = remaining_at(total, elapsed);
        let pct = (rem as u128) * 100 / (total as u128);
        proof {
            lemma_div_is_ordered(rem * 100, total * 100, total as int);
            lemma_div_multiples_vanish(100, total as int);
        }
        pct as u16
    }
}

/// Remaining percentage is monotonically non-increasing as elapsed time
/// advances, never exceeds 100, and is exactly zero from the moment the
/// elapsed time reaches the period.
pub proof fn lemma_remaining_percent_monotonic(total: u64, e1: u64, e2: u64)
    requires
        total > 0,
        e1 <= e2,
    ensures
        spec_remaining_percent(total, e2) <= spec_remaining_percent(total, e1),
        spec_remaining_percent(total, e1) <= 100,
        0 <= spec_remaining_percent(total, e1),
        e2 >= total ==> spec_remaining_percent(total, e2) == 0,
{
    let r1 = spec_remaining(total, e1);
    let r2 = spec_remaining(total, e2);
    lemma_div_is_ordered(r2 * 100, r1 * 100, total as int);
    lemma_div_is_ordered(r1 * 100, total * 100, total as int);
    lemma_div_multiples_vanish(100, total as int);
    lemma_div_pos_is_pos(r1 * 100, total as int);
    if e2 >= total {
        assert(r2 == 0);
        lemma_div_pos_is_pos(r2 * 100, total as int);
        lemma_div_is_ordered(r2 * 100, 0, total as int);
    }
}

/// Dead-man mode is terminal with respect to automatic transitions:
/// `update` never changes a dead-man timer, whatever it observes. Its own
/// expiry is read through `expired`, and only a check-in leaves the mode.
pub proof fn lemma_dead_man_is_terminal(duration: u64, elapsed: u64, dead_man_duration: u64)
    ensures
        spec_update(TimerType::DeadMan, duration, elapsed, dead_man_duration) == (
            TimerType::DeadMan,
            duration,
        ),
{
}

/// A second `update` with the same observation changes nothing: the mode and
/// duration reached after one update are a fixed point, so no further
/// automatic transition occurs.
pub proof fn lemma_update_idempotent(
    mode: TimerType,
    duration: u64,
    elapsed: u64,
    dead_man_duration: u64,
)
    ensures
        ({
            let once = spec_update(mode, duration, elapsed, dead_man_duration);
            spec_update(once.0, once.1, elapsed, dead_man_duration) == once
        }),
        spec_transitions(mode, duration, elapsed) ==> !spec_transitions(
            TimerType::DeadMan,
            dead_man_duration,
            elapsed,
        ),
{
}

/// What a host poll loop must do after observing the timer.
#[derive(Debug, Clone, Copy, PartialEq, Eq, Structural)]
pub enum LoopAction {
    /// Nothing due: keep polling.
    Continue,
    /// The warning period ran out: send the warning email (the next
    /// [`Timer::update`] advances the timer to dead-man mode).
    SendWarning,
    /// The dead-man period ran out: send the final email and stop polling.
    SendDeadMan,
}

/// The action owed when a timer in `mode` is observed with `expired` telling
/// whether its period has run out.
pub open spec fn spec_loop_decision(mode: TimerType, expired: bool) -> LoopAction {
    if !expired {
        LoopAction::Continue
    } else {
        match mode {
            TimerType::Warning => LoopAction::SendWarning,
            TimerType::DeadMan => LoopAction::SendDeadMan,
        }
    }
}

/// Decide what a poll loop must do for a timer in `mode` whose period has
/// run out exactly when `expired` holds: nothing while time remains, the
/// warning email at warning expiry, the final email — and the end of
/// polling — at dead-man expiry.
pub fn loop_decision(mode: TimerType, expired: bool) -> (a: LoopAction)
    ensures
        a == spec_loop_decision(mode, expired),
{
    if !expired {
        LoopAction::Continue
    } else {
        match mode {
            TimerType::Warning => LoopAction::SendWarning,
            TimerType::DeadMan => LoopAction::SendDeadMan,
        }
    }
}

impl Timer {
    /// Create a new timer of the given type, starting now, lasting
    /// `duration` seconds.
    pub fn new(timer_type: TimerType, duration: u64) -> (t: Timer)
        ensures
            t.timer_type == timer_type,
            t.duration == duration,
    {
        Timer { timer_type, start: std::time::Instant::now(), duration }
    }

    /// Rehydrate a timer from a persisted checkpoint so that wall-clock time
    /// already spent before a restart stays spent.
    ///
    /// The start instant is moved into the past by the wall-clock seconds
    /// elapsed since the checkpoint (clamped to zero for a future
    /// checkpoint), and the duration is the configured period matching the
    /// persisted mode. Fails only when the wall clock is set before the
    /// Unix epoch.
    pub fn from_persisted(
        state: &PersistedState,
        warning_secs: u64,
        dead_man_secs: u64,
    ) -> (r: Result<Timer, TimerError>)
        ensures
            r matches Ok(t) ==> t.timer_type == state.mode && t.duration == spec_duration_for(
                state.mode,
                warning_secs,
                dead_man_secs,
            ),
            r is Err ==> r == Err::<Timer, TimerError>(TimerError::Clock),
    {
        let now_epoch = match clock::epoch_now() {
            Ok(secs) => secs,
            Err(ClockError) => {
                return Err(TimerError::Clock);
            },
        };
        let wall = clock::wall_elapsed(now_epoch, state.last_modified);
        let start = clock::instant_back_by(std::time::Instant::now(), wall);
        let duration = match state.mode {
            TimerType::Warning => warning_secs,
            TimerType::DeadMan => dead_man_secs,
        };
        Ok(Timer { timer_type: state.mode, start, duration })
    }

    /// Get the type of the timer.
    pub fn get_type(&self) -> (t: TimerType)
        ensures
            t == self.timer_type,
    {
        self.timer_type
    }

    /// Monotonic seconds elapsed since the timer's start.
    ///
    /// The value comes from the monotonic clock, so nothing relates it to
    /// earlier reads; it is never negative by its type.
    pub fn elapsed(&self) -> u64 {
        clock::elapsed_secs(&self.start)
    }

    /// Seconds left before the timer expires: the duration less the elapsed
    /// time, saturating at zero, so never more than the duration.
    pub fn remaining(&self) -> (r: u64)
        ensures
            r <= self.duration,
    {
        let e = clock::elapsed_secs(&self.start);
        remaining_at(self.duration, e)
    }

    /// Remaining time as a percentage of the duration: floor-rounded, never
    /// above 100, and zero for a zero-length duration (no division by zero).
    pub fn remaining_percent(&self) -> (r: u16)
        ensures
            r <= 100,
            self.duration == 0 ==> r == 0,
    {
        let e = clock::elapsed_secs(&self.start);
        remaining_percent_at(self.duration, e)
    }

    /// Whether the timer has expired: a zero-length duration is expired from
    /// the start.
    pub fn expired(&self) -> (r: bool)
        ensures
            self.duration == 0 ==> r,
    {
        let e = clock::elapsed_secs(&self.start);
        expired_at(self.duration, e)
    }

    /// Advance a warning timer whose period has fully elapsed to dead-man
    /// mode: the mode becomes [`TimerType::DeadMan`], the start is re-armed
    /// to now, and the duration becomes `dead_man_duration`. Anything else —
    /// in particular a timer already in dead-man mode — is left untouched.
    ///
    /// Returns whether a transition happened, so the caller can persist a
    /// snapshot of the new state exactly when one did.
    pub fn update(&mut self, elapsed: u64, dead_man_duration: u64) -> (transitioned: bool)
        ensures
            transitioned == spec_transitions(old(self).timer_type, old(self).duration, elapsed),
            (final(self).timer_type, final(self).duration) == spec_update(
                old(self).timer_type,
                old(self).duration,
                elapsed,
                dead_man_duration,
            ),
            !transitioned ==> final(self).start == old(self).start,
    {
        if self.timer_type == TimerType::Warning && elapsed >= self.duration {
            self.timer_type = TimerType::DeadMan;
            self.start = std::time::Instant::now();
            self.duration = dead_man_duration;
            true
        } else {
            false
        }
    }

    /// The check-in operation. A warning timer only has its start re-armed
    /// to now, keeping its duration; a dead-man timer is demoted back to
    /// warning mode with its start re-armed and the configured warning
    /// period as its duration.
    pub fn reset(&mut self, config: &Config)
        ensures
            final(self).timer_type is Warning,
            old(self).timer_type is Warning ==> final(self).duration == old(self).duration,
            old(self).timer_type is DeadMan ==> final(self).duration == config.timer_warning,
    {
        match self.timer_type {
            TimerType::Warning => {
                self.start = std::time::Instant::now();
            },
            TimerType::DeadMan => {
                self.timer_type = TimerType::Warning;
                self.start = std::time::Instant::now();
                self.duration = config.timer_warning;
            },
        }
    }

    /// The snapshot to persist for this timer, checkpointed at wall-clock
    /// time `now` (epoch seconds).
    pub fn snapshot(&self, now: u64) -> (s: PersistedState)
        ensures
            s.mode == self.timer_type,
            s.last_modified == now,
    {
        PersistedState { mode: self.timer_type, last_modified: now }
    }

    /// The remaining time rendered for a human, at decreasing resolution
    /// (see [`crate::label::format_duration`]). Once the timer has expired —
    /// in particular for a zero-length duration — it reads `0 second(s)`.
    pub fn label(&self) -> (r: String)
        ensures
            self.duration == 0 ==> r@ == crate::label::spec_format_duration(0),
    {
        let e = clock::elapsed_secs(&self.start);
        let rem = remaining_at(self.duration, e);
        crate::label::format_duration(rem)
    }

    /// A short human title for the timer's mode.
    pub fn title(&self) -> (r: String)
        ensures
            self.timer_type is Warning ==> r@ == "Warning"@,
            self.timer_type is DeadMan ==> r@ == "Dead Man's Switch"@,
    {
        match self.timer_type {
            TimerType::Warning => "Warning".to_owned(),
            TimerType::DeadMan => "Dead Man's Switch".to_owned(),
        }
    }
}

} // verus!
