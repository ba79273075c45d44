//! The countdown timer: a duration it was set to, the time that remains, and whether it runs.

use vstd::prelude::*;

use crate::duration::Duration;
use crate::types::TimerState;

verus! {

/// What a tick of the timer reports.
#[derive(Debug, Clone, Copy, PartialEq, Eq, Structural)]
pub enum TimerTickResult {
    NoEvent,
    TimerExpired,
}

/// The timer as a mathematical value: its state, and the set and remaining spans in nanoseconds.
pub ghost struct TimerView {
    pub state: TimerState,
    pub duration: nat,
    pub remaining: nat,
}

impl TimerView {
    /// What the timer keeps at every moment: no more remains than it was set to.
    pub open spec fn wf(self) -> bool {
        self.remaining <= self.duration
    }

    /// Space bar: a running timer pauses; a paused one runs again if time remains; a finished one stays.
    pub open spec fn toggled(self) -> TimerView {
        match self.state {
            TimerState::Running => TimerView { state: TimerState::Paused, ..self },
            TimerState::Paused => if self.remaining != 0 {
                TimerView { state: TimerState::Running, ..self }
            } else {
                self
            },
            TimerState::Finished => self,
        }
    }

    /// `r`: a timer set to a non-empty span starts again from the full span.
    pub open spec fn restarted(self) -> TimerView {
        if self.duration != 0 {
            TimerView { state: TimerState::Running, remaining: self.duration, ..self }
        } else {
            self
        }
    }

    /// Setting a new span: the remaining time becomes the whole span, the state stays.
    pub open spec fn with_duration(self, d: nat) -> TimerView {
        TimerView { duration: d, remaining: d, ..self }
    }

    /// Whether a tick of `delta` nanoseconds ends the countdown.
    pub open spec fn expires_after(self, delta: nat) -> bool {
        self.state == TimerState::Running && self.remaining != 0 && delta >= self.remaining
    }

    /// The timer after `delta` nanoseconds: only a running timer with time left counts down,
    /// and when the time is used up it stops at zero, finished.
    pub open spec fn ticked(self, delta: nat) -> TimerView {
        if self.state != TimerState::Running || self.remaining == 0 {
            self
        } else if delta < self.remaining {
            TimerView { remaining: (self.remaining - delta) as nat, ..self }
        } else {
            TimerView { state: TimerState::Finished, remaining: 0, ..self }
        }
    }
}

/// The countdown timer.
#[derive(Debug)]
pub struct TimerModeState {
    state: TimerState,
    duration: Duration,
    remaining: Duration,
}

impl View for TimerModeState {
    type V = TimerView;

    closed spec fn view(&self) -> TimerView {
        TimerView { state: self.state, duration: self.duration@, remaining: self.remaining@ }
    }
}

impl Default for TimerModeState {
    /// A paused timer set to nothing.
    fn default() -> (t: Self)
        ensures
            t@ == (TimerView { state: TimerState::Paused, duration: 0, remaining: 0 }),
    {
        TimerModeState { state: TimerState::Paused, duration: Duration::zero(), remaining: Duration::zero() }
    }
}

impl TimerModeState {
    #[verifier::type_invariant]
    spec fn inv(self) -> bool {
        self@.wf()
    }

    /// The state of the timer.
    pub fn state(&self) -> (s: TimerState)
        ensures
            s == self@.state,
    {
        self.state
    }

    /// Pauses a running timer, resumes a paused one that has time left; a finished timer stays finished.
    pub fn toggle(&mut self)
        ensures
            final(self)@ == old(self)@.toggled(),
            final(self)@.wf(),
    {
        proof { use_type_invariant(&*self); }
        self.state = match self.state {
            TimerState::Running => TimerState::Paused,
            TimerState::Paused => {
                if !self.remaining.is_zero() {
                    TimerState::Running
                } else {
                    TimerState::Paused
                }
            },
            TimerState::Finished => TimerState::Finished,
        };
    }

    /// Restarts the countdown from the full span, unless the timer is set to nothing.
    pub fn reset(&mut self)
        ensures
            final(self)@ == old(self)@.restarted(),
            final(self)@.wf(),
    {
        proof { use_type_invariant(&*self); }
        if !self.duration.is_zero() {
            self.state = TimerState::Running;
            self.remaining = self.duration;
        }
    }

    /// Whether the timer counts down.
    pub fn is_running(&self) -> (r: bool)
        ensures
            r == (self@.state == TimerState::Running),
    {
        self.state == TimerState::Running
    }

    /// Sets the span of the timer; the whole span remains.
    pub fn set_duration(&mut self, duration: Duration)
        ensures
            final(self)@ == old(self)@.with_duration(duration@),
            final(self)@.wf(),
    {
        *self = TimerModeState { state: self.state, duration, remaining: duration };
    }

    /// The span the timer is set to.
    pub fn duration(&self) -> (d: &Duration)
        ensures
            d@ == self@.duration,
    {
        &self.duration
    }

    /// The time that remains.
    pub fn remaining(&self) -> (d: Duration)
        ensures
            d@ == self@.remaining,
    {
        self.remaining
    }

    /// The remaining whole seconds as hours, minutes and seconds.
    pub fn remaining_time_parts(&self) -> (parts: (u64, u64, u64))
        ensures
            parts.0 == (self@.remaining / 1_000_000_000) / 3600,
            parts.1 == ((self@.remaining / 1_000_000_000) % 3600) / 60,
            parts.2 == (self@.remaining / 1_000_000_000) % 60,
            parts.0 * 3600 + parts.1 * 60 + parts.2 == self@.remaining / 1_000_000_000,
            parts.1 < 60,
            parts.2 < 60,
    {
        let remaining_secs = self.remaining.as_secs();
        let hours = remaining_secs / 3600;
        let minutes = (remaining_secs % 3600) / 60;
        let seconds = remaining_secs % 60;
        assert(hours * 3600 + minutes * 60 + seconds == remaining_secs) by (nonlinear_arith)
            requires
                hours == remaining_secs / 3600,
                minutes == (remaining_secs % 3600) / 60,
                seconds == remaining_secs % 60,
        ;
        (hours, minutes, seconds)
    }

    /// Counts down by `delta`; reports `TimerExpired` on the tick that uses up the remaining time.
    pub fn tick(&mut self, delta: Duration) -> (r: TimerTickResult)
        ensures
            final(self)@ == old(self)@.ticked(delta@),
            final(self)@.wf(),
            r == (if old(self)@.expires_after(delta@) {
                TimerTickResult::TimerExpired
            } else {
                TimerTickResult::NoEvent
            }),
    {
        proof { use_type_invariant(&*self); }
        if self.state != TimerState::Running || self.remaining.is_zero() {
            return TimerTickResult::NoEvent;
        }
        match self.remaining.checked_sub(delta) {
            Some(new_time) => {
                if !new_time.is_zero() {
                    self.remaining = new_time;
                    return TimerTickResult::NoEvent;
                }
            },
            None => {},
        }
        self.remaining = Duration::zero();
        self.state = TimerState::Finished;
        TimerTickResult::TimerExpired
    }
}

} // verus!
