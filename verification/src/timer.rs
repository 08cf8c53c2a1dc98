//! The session state machine: work and break phases counted down against a
//! clock, with a one-shot signal raised at every phase change.

use crate::clock::{minutes, minutes_to_nanos, Clock};
use vstd::prelude::*;

verus! {

/// Minutes of work in a timer that has not been configured.
pub const DEFAULT_WORK_MINUTES: u32 = 25;

/// Minutes of short break in a timer that has not been configured.
pub const DEFAULT_SHORT_BREAK_MINUTES: u32 = 5;

/// Minutes of long break in a timer that has not been configured.
pub const DEFAULT_LONG_BREAK_MINUTES: u32 = 15;

/// Work phases in one cycle; the break after the last of them is the long one.
pub const SESSIONS_PER_CYCLE: u32 = 4;

/// The phase a session is in.
#[derive(Debug, Clone, Copy, PartialEq, Eq, Structural)]
pub enum SessionType {
    Work,
    ShortBreak,
    LongBreak,
}

/// The timer as a mathematical value. All times are in nanoseconds.
pub struct TimerState {
    /// Configured length of a work phase.
    pub work: nat,
    /// Configured length of a short break.
    pub short_break: nat,
    /// Configured length of a long break.
    pub long_break: nat,
    /// The current phase.
    pub phase: SessionType,
    /// Which work phase of the cycle this is, or the break after it: 1 to 4.
    pub cycle: nat,
    /// Time left in the current phase.
    pub remaining: nat,
    /// Length of the current phase as it was when the phase began or was reset.
    pub total: nat,
    /// Whether the countdown is running.
    pub running: bool,
    /// The timestamp of the last tick, kept while running.
    pub last_tick: Option<nat>,
    /// Raised by a phase change and lowered only by the consumer.
    pub just_completed: bool,
}

impl TimerState {
    /// What holds of every timer.
    pub open spec fn wf(self) -> bool {
        &&& self.remaining <= self.total
        &&& 1 <= self.cycle <= 4
        &&& self.running <==> self.last_tick is Some
    }

    /// A fresh timer: the first work phase, full and paused.
    pub open spec fn initial() -> TimerState {
        TimerState {
            work: minutes(25),
            short_break: minutes(5),
            long_break: minutes(15),
            phase: SessionType::Work,
            cycle: 1,
            remaining: minutes(25),
            total: minutes(25),
            running: false,
            last_tick: None,
            just_completed: false,
        }
    }

    /// The configured length of `phase`.
    pub open spec fn configured(self, phase: SessionType) -> nat {
        match phase {
            SessionType::Work => self.work,
            SessionType::ShortBreak => self.short_break,
            SessionType::LongBreak => self.long_break,
        }
    }

    /// The timer after new lengths, in minutes, were applied. A paused timer
    /// takes the new length of its phase at once; a running one keeps counting
    /// what it had.
    pub open spec fn after_durations(self, work: nat, short_break: nat, long_break: nat) -> TimerState {
        let set = TimerState {
            work: minutes(work),
            short_break: minutes(short_break),
            long_break: minutes(long_break),
            ..self
        };
        if self.running {
            set
        } else {
            TimerState {
                remaining: set.configured(self.phase),
                total: set.configured(self.phase),
                ..set
            }
        }
    }

    /// The timer after `start` at `now`.
    pub open spec fn after_start(self, now: nat) -> TimerState {
        if self.running {
            self
        } else {
            TimerState { running: true, last_tick: Some(now), ..self }
        }
    }

    /// The timer after `pause`.
    pub open spec fn after_pause(self) -> TimerState {
        TimerState { running: false, last_tick: None, ..self }
    }

    /// The timer after `reset`: paused, with the current phase full again at
    /// its configured length.
    pub open spec fn after_reset(self) -> TimerState {
        TimerState {
            running: false,
            last_tick: None,
            remaining: self.configured(self.phase),
            total: self.configured(self.phase),
            ..self
        }
    }

    /// The phase that follows the current one.
    pub open spec fn next_phase(self) -> SessionType {
        match self.phase {
            SessionType::Work => if self.cycle % 4 == 0 {
                SessionType::LongBreak
            } else {
                SessionType::ShortBreak
            },
            _ => SessionType::Work,
        }
    }

    /// The cycle index once the current phase is over: it moves only when a
    /// break ends, and from 4 it goes back to 1.
    pub open spec fn next_cycle(self) -> nat {
        match self.phase {
            SessionType::Work => self.cycle,
            _ => if self.cycle % 4 == 0 {
                1
            } else {
                self.cycle + 1
            },
        }
    }

    /// The timer after its phase completed at `now`: the next phase, full,
    /// running from `now`, with the completion signal raised.
    pub open spec fn after_completion(self, now: nat) -> TimerState {
        TimerState {
            phase: self.next_phase(),
            cycle: self.next_cycle(),
            remaining: self.configured(self.next_phase()),
            total: self.configured(self.next_phase()),
            running: true,
            last_tick: Some(now),
            just_completed: true,
            ..self
        }
    }

    /// The timer after `skip` at `now`: the phase completes, and a timer that
    /// was paused stays paused.
    pub open spec fn after_skip(self, now: nat) -> TimerState {
        if self.running {
            self.after_completion(now)
        } else {
            TimerState { running: false, last_tick: None, ..self.after_completion(now) }
        }
    }

    /// Time between the last tick and `now`; none if `now` is not later.
    pub open spec fn elapsed_at(self, now: nat) -> nat {
        match self.last_tick {
            Some(last) => if now >= last {
                (now - last) as nat
            } else {
                0
            },
            None => 0,
        }
    }

    /// Whether a tick at `now` ends the current phase.
    pub open spec fn completes_at(self, now: nat) -> bool {
        self.running && self.elapsed_at(now) >= self.remaining
    }

    /// The timer after a tick at `now`.
    pub open spec fn after_tick(self, now: nat) -> TimerState {
        if !self.running {
            self
        } else if self.elapsed_at(now) >= self.remaining {
            self.after_completion(now)
        } else {
            TimerState {
                remaining: (self.remaining - self.elapsed_at(now)) as nat,
                last_tick: Some(now),
                ..self
            }
        }
    }

    /// The timer after the consumer took the completion signal.
    pub open spec fn after_clear(self) -> TimerState {
        TimerState { just_completed: false, ..self }
    }

    /// The session number shown to the user.
    pub open spec fn displayed_session(self) -> nat {
        match self.phase {
            SessionType::Work => self.cycle,
            _ => if self.cycle == 1 {
                4
            } else {
                (self.cycle - 1) as nat
            },
        }
    }

    /// The part of the current phase that is over, as the numerator of a
    /// fraction: 1 of 1 for a phase of no length.
    pub open spec fn progress_elapsed(self) -> nat {
        if self.total == 0 {
            1
        } else if self.remaining >= self.total {
            0
        } else {
            (self.total - self.remaining) as nat
        }
    }

    /// The denominator of that fraction.
    pub open spec fn progress_total(self) -> nat {
        if self.total == 0 {
            1
        } else {
            self.total
        }
    }
}

/// A fraction between 0 and 1: `elapsed` parts of `total`.
#[derive(Debug, Clone, Copy, PartialEq, Eq, Structural)]
pub struct Progress {
    pub elapsed: u128,
    pub total: u128,
}

impl Progress {
    /// The fraction is a number from 0 to 1.
    pub open spec fn in_unit_interval(self) -> bool {
        0 < self.total && self.elapsed <= self.total
    }

    /// The fraction is 0.
    pub open spec fn is_zero(self) -> bool {
        self.elapsed == 0
    }

    /// The fraction is 1.
    pub open spec fn is_one(self) -> bool {
        self.elapsed == self.total
    }
}

/// A pomodoro timer.
pub struct PomodoroTimer {
    work_duration: u128,
    short_break_duration: u128,
    long_break_duration: u128,
    current_session: SessionType,
    session_count: u32,
    time_remaining: u128,
    is_running: bool,
    last_update: Option<u128>,
    total_duration: u128,
    just_completed: bool,
    clock: Clock,
}

impl View for PomodoroTimer {
    type V = TimerState;

    closed spec fn view(&self) -> TimerState {
        TimerState {
            work: self.work_duration as nat,
            short_break: self.short_break_duration as nat,
            long_break: self.long_break_duration as nat,
            phase: self.current_session,
            cycle: self.session_count as nat,
            remaining: self.time_remaining as nat,
            total: self.total_duration as nat,
            running: self.is_running,
            last_tick: match self.last_update {
                Some(last) => Some(last as nat),
                None => None,
            },
            just_completed: self.just_completed,
        }
    }
}

impl PomodoroTimer {
    #[verifier::type_invariant]
    spec fn well_formed(self) -> bool {
        &&& self.time_remaining <= self.total_duration
        &&& 1 <= self.session_count <= 4
        &&& self.is_running <==> self.last_update is Some
    }

    /// A timer at the start of its first work phase, paused, with the default
    /// lengths.
    pub fn new() -> (timer: PomodoroTimer)
        ensures
            timer@ == TimerState::initial(),
    {
        let work_duration = minutes_to_nanos(DEFAULT_WORK_MINUTES);
        PomodoroTimer {
            work_duration,
            short_break_duration: minutes_to_nanos(DEFAULT_SHORT_BREAK_MINUTES),
            long_break_duration: minutes_to_nanos(DEFAULT_LONG_BREAK_MINUTES),
            current_session: SessionType::Work,
            session_count: 1,
            time_remaining: work_duration,
            is_running: false,
            last_update: None,
            total_duration: work_duration,
            just_completed: false,
            clock: Clock::start(),
        }
    }

    fn configured(&self, phase: SessionType) -> (length: u128)
        ensures
            length == self@.configured(phase),
    {
        match phase {
            SessionType::Work => self.work_duration,
            SessionType::ShortBreak => self.short_break_duration,
            SessionType::LongBreak => self.long_break_duration,
        }
    }

    /// Applies new phase lengths, in minutes.
    pub fn update_durations(&mut self, work_min: u32, short_break_min: u32, long_break_min: u32)
        ensures
            final(self)@ == old(self)@.after_durations(
                work_min as nat,
                short_break_min as nat,
                long_break_min as nat,
            ),
            final(self)@.wf(),
    {
        proof {
            use_type_invariant(&*self);
        }
        let work_duration = minutes_to_nanos(work_min);
        let short_break_duration = minutes_to_nanos(short_break_min);
        let long_break_duration = minutes_to_nanos(long_break_min);
        if self.is_running {
            *self = PomodoroTimer {
                work_duration,
                short_break_duration,
                long_break_duration,
                ..*self
            };
        } else {
            let length = match self.current_session {
                SessionType::Work => work_duration,
                SessionType::ShortBreak => short_break_duration,
                SessionType::LongBreak => long_break_duration,
            };
            *self = PomodoroTimer {
                work_duration,
                short_break_duration,
                long_break_duration,
                time_remaining: length,
                total_duration: length,
                ..*self
            };
        }
    }

    /// Starts the countdown from the present moment; a running timer is left
    /// as it is.
    pub fn start(&mut self)
        ensures
            exists|now: nat| final(self)@ == #[trigger] old(self)@.after_start(now),
            final(self)@.wf(),
    {
        if !self.is_running {
            let now = self.clock.now();
            self.start_at(now);
        } else {
            assert(self@ == self@.after_start(0));
            proof {
                use_type_invariant(&*self);
            }
        }
    }

    /// Starts the countdown from `now`; a running timer is left as it is.
    pub fn start_at(&mut self, now: u128)
        ensures
            final(self)@ == old(self)@.after_start(now as nat),
            final(self)@.wf(),
    {
        proof {
            use_type_invariant(&*self);
        }
        if !self.is_running {
            *self = PomodoroTimer { is_running: true, last_update: Some(now), ..*self };
        }
    }

    /// Stops the countdown; the time left stays as of the last tick.
    pub fn pause(&mut self)
        ensures
            final(self)@ == old(self)@.after_pause(),
            final(self)@.wf(),
    {
        proof {
            use_type_invariant(&*self);
        }
        *self = PomodoroTimer { is_running: false, last_update: None, ..*self };
    }

    /// Stops the countdown and fills the current phase again, at its
    /// configured length.
    pub fn reset(&mut self)
        ensures
            final(self)@ == old(self)@.after_reset(),
            final(self)@.remaining == final(self)@.total,
            final(self)@.wf(),
    {
        proof {
            use_type_invariant(&*self);
        }
        let length = self.configured(self.current_session);
        *self = PomodoroTimer {
            is_running: false,
            last_update: None,
            time_remaining: length,
            total_duration: length,
            ..*self
        };
    }

    /// Ends the current phase at the present moment, whatever time is left. A
    /// paused timer enters the next phase paused.
    pub fn skip(&mut self)
        ensures
            exists|now: nat| final(self)@ == #[trigger] old(self)@.after_skip(now),
            final(self)@.wf(),
    {
        let now = self.clock.now();
        self.skip_at(now);
    }

    /// Ends the current phase at `now`, whatever time is left. A paused timer
    /// enters the next phase paused.
    pub fn skip_at(&mut self, now: u128)
        ensures
            final(self)@ == old(self)@.after_skip(now as nat),
            final(self)@.wf(),
    {
        let was_running = self.is_running;
        self.complete_session(now);
        if !was_running {
            self.pause();
        }
    }

    /// Counts down to the present moment.
    pub fn update(&mut self)
        ensures
            exists|now: nat| final(self)@ == #[trigger] old(self)@.after_tick(now),
            final(self)@.wf(),
    {
        if self.is_running {
            let now = self.clock.now();
            self.tick(now);
        } else {
            assert(self@ == self@.after_tick(0));
            proof {
                use_type_invariant(&*self);
            }
        }
    }

    /// Counts down to `now`. A running timer loses the time since its last
    /// tick; if that uses up what was left, the phase completes. A paused
    /// timer is left as it is.
    pub fn tick(&mut self, now: u128)
        ensures
            final(self)@ == old(self)@.after_tick(now as nat),
            final(self)@.wf(),
            final(self)@.just_completed == (old(self)@.just_completed || old(self)@.completes_at(
                now as nat,
            )),
            !old(self)@.completes_at(now as nat) ==> final(self)@.remaining <= old(self)@.remaining,
    {
        proof {
            use_type_invariant(&*self);
        }
        if let Some(last_update) = self.last_update {
            let elapsed = if now >= last_update {
                now - last_update
            } else {
                0
            };
            if elapsed >= self.time_remaining {
                self.complete_session(now);
            } else {
                *self = PomodoroTimer {
                    time_remaining: self.time_remaining - elapsed,
                    last_update: Some(now),
                    ..*self
                };
            }
        }
    }

    fn complete_session(&mut self, now: u128)
        ensures
            final(self)@ == old(self)@.after_completion(now as nat),
            final(self)@.wf(),
    {
        proof {
            use_type_invariant(&*self);
        }
        let wraps = self.session_count % SESSIONS_PER_CYCLE == 0;
        let (next_session, next_count) = match self.current_session {
            SessionType::Work => if wraps {
                (SessionType::LongBreak, self.session_count)
            } else {
                (SessionType::ShortBreak, self.session_count)
            },
            SessionType::ShortBreak | SessionType::LongBreak => if wraps {
                (SessionType::Work, 1)
            } else {
                (SessionType::Work, self.session_count + 1)
            },
        };
        let length = self.configured(next_session);
        *self = PomodoroTimer {
            current_session: next_session,
            session_count: next_count,
            time_remaining: length,
            total_duration: length,
            is_running: true,
            last_update: Some(now),
            just_completed: true,
            ..*self
        };
    }

    /// How far the current phase has come.
    pub fn progress(&self) -> (progress: Progress)
        ensures
            progress.elapsed == self@.progress_elapsed(),
            progress.total == self@.progress_total(),
            progress.in_unit_interval(),
            progress.is_one() <==> self@.remaining == 0,
            progress.is_zero() <==> self@.total > 0 && self@.remaining == self@.total,
    {
        proof {
            use_type_invariant(self);
        }
        if self.total_duration == 0 {
            Progress { elapsed: 1, total: 1 }
        } else {
            Progress {
                elapsed: self.total_duration - self.time_remaining,
                total: self.total_duration,
            }
        }
    }

    /// Counts down to the present moment, then says how far the current phase
    /// has come.
    pub fn get_progress(&mut self) -> (progress: Progress)
        ensures
            exists|now: nat| final(self)@ == #[trigger] old(self)@.after_tick(now),
            final(self)@.wf(),
            progress.elapsed == final(self)@.progress_elapsed(),
            progress.total == final(self)@.progress_total(),
            progress.in_unit_interval(),
    {
        self.update();
        self.progress()
    }

    /// Whether the countdown is running.
    pub fn is_running(&self) -> (running: bool)
        ensures
            running == self@.running,
    {
        self.is_running
    }

    /// The current phase.
    pub fn get_session_type(&self) -> (phase: SessionType)
        ensures
            phase == self@.phase,
    {
        self.current_session
    }

    /// The session number shown to the user: the cycle index during work, the
    /// one before it (4 before 1) during a break.
    pub fn get_session_count(&self) -> (count: u32)
        ensures
            count == self@.displayed_session(),
            1 <= count <= 4,
    {
        proof {
            use_type_invariant(self);
        }
        match self.current_session {
            SessionType::Work => self.session_count,
            _ => if self.session_count == 1 {
                4
            } else {
                self.session_count - 1
            },
        }
    }

    /// The cycle index: which work phase of the cycle this is, or the break
    /// after it.
    pub fn cycle_index(&self) -> (cycle: u32)
        ensures
            cycle == self@.cycle,
            1 <= cycle <= 4,
    {
        proof {
            use_type_invariant(self);
        }
        self.session_count
    }

    /// Time left in the current phase, in nanoseconds.
    pub fn remaining(&self) -> (nanos: u128)
        ensures
            nanos == self@.remaining,
            nanos <= self@.total,
    {
        proof {
            use_type_invariant(self);
        }
        self.time_remaining
    }

    /// Length of the current phase, in nanoseconds.
    pub fn total(&self) -> (nanos: u128)
        ensures
            nanos == self@.total,
    {
        self.total_duration
    }

    /// Whether a phase has completed since the signal was last cleared.
    pub fn just_completed(&self) -> (raised: bool)
        ensures
            raised == self@.just_completed,
    {
        self.just_completed
    }

    /// Lowers the completion signal.
    pub fn clear_completed_flag(&mut self)
        ensures
            final(self)@ == old(self)@.after_clear(),
            final(self)@.wf(),
    {
        proof {
            use_type_invariant(&*self);
        }
        *self = PomodoroTimer { just_completed: false, ..*self };
    }
}

} // verus!
