//! The timer application without its window: the timer, the settings being
//! edited, and what each press of a control does. The window draws what this
//! state shows and reports the presses.

use crate::timer::{PomodoroTimer, SessionType, TimerState};
use vstd::prelude::*;

verus! {

/// The longest work phase the settings offer, in minutes.
pub const MAX_WORK_MINUTES: u32 = 60;

/// The longest short break the settings offer, in minutes.
pub const MAX_SHORT_BREAK_MINUTES: u32 = 30;

/// The longest long break the settings offer, in minutes.
pub const MAX_LONG_BREAK_MINUTES: u32 = 60;

/// A control of the timer window.
#[derive(Debug, Clone, Copy, PartialEq, Eq, Structural)]
pub enum Control {
    Start,
    Pause,
    Reset,
    Skip,
}

/// Why settings were not applied.
#[derive(Debug, Clone, Copy, PartialEq, Eq, Structural)]
pub enum SettingsError {
    /// The work phase was given no length.
    ZeroWorkDuration,
    /// The short break was given no length.
    ZeroShortBreak,
    /// The long break was given no length.
    ZeroLongBreak,
}

/// What stands in the way of applying the three lengths, if anything: each
/// must be a positive number of minutes.
pub open spec fn settings_error(work: u32, short_break: u32, long_break: u32) -> Option<SettingsError> {
    if work == 0 {
        Some(SettingsError::ZeroWorkDuration)
    } else if short_break == 0 {
        Some(SettingsError::ZeroShortBreak)
    } else if long_break == 0 {
        Some(SettingsError::ZeroLongBreak)
    } else {
        None
    }
}

/// The timer after `control` was pressed at `now`.
pub open spec fn after_press(timer: TimerState, control: Control, now: nat) -> TimerState {
    match control {
        Control::Start => timer.after_start(now),
        Control::Pause => timer.after_pause(),
        Control::Reset => timer.after_reset(),
        Control::Skip => timer.after_skip(now),
    }
}

/// The timer application.
pub struct PomodoroApp {
    /// The timer.
    pub timer: PomodoroTimer,
    /// Whether the settings are on show.
    pub show_settings: bool,
    /// The length of the work phase being edited, in minutes.
    pub work_duration: u32,
    /// The length of the short break being edited, in minutes.
    pub short_break: u32,
    /// The length of the long break being edited, in minutes.
    pub long_break: u32,
}

impl Default for PomodoroApp {
    /// A fresh timer, the settings hidden and at their defaults.
    fn default() -> (app: PomodoroApp)
        ensures
            app.timer@ == TimerState::initial(),
            !app.show_settings,
            app.work_duration == 25,
            app.short_break == 5,
            app.long_break == 15,
    {
        PomodoroApp {
            timer: PomodoroTimer::new(),
            show_settings: false,
            work_duration: 25,
            short_break: 5,
            long_break: 15,
        }
    }
}

impl PomodoroApp {
    /// Takes the completion signal. If a phase has ended since the signal was
    /// last taken, this lowers the signal and returns the phase the timer is
    /// in now; the caller then notifies the user and sets off the overlay,
    /// once. Otherwise it returns nothing and changes nothing.
    pub fn take_completion(&mut self) -> (completed: Option<SessionType>)
        ensures
            old(self).timer@.just_completed ==> completed == Some(old(self).timer@.phase)
                && final(self).timer@ == old(self).timer@.after_clear(),
            !old(self).timer@.just_completed ==> completed is None && final(self).timer@ == old(
                self,
            ).timer@,
            !final(self).timer@.just_completed,
            final(self).show_settings == old(self).show_settings,
            final(self).work_duration == old(self).work_duration,
            final(self).short_break == old(self).short_break,
            final(self).long_break == old(self).long_break,
    {
        if self.timer.just_completed() {
            let session = self.timer.get_session_type();
            self.timer.clear_completed_flag();
            Some(session)
        } else {
            None
        }
    }

    /// The control offered to start or stop the countdown: start while
    /// paused, pause while running.
    pub fn primary_control(&self) -> (control: Control)
        ensures
            control == if self.timer@.running {
                Control::Pause
            } else {
                Control::Start
            },
    {
        if self.timer.is_running() {
            Control::Pause
        } else {
            Control::Start
        }
    }

    /// Does what a press of `control` at `now` asks for.
    pub fn press_at(&mut self, control: Control, now: u128)
        ensures
            final(self).timer@ == after_press(old(self).timer@, control, now as nat),
            final(self).timer@.wf(),
            final(self).show_settings == old(self).show_settings,
            final(self).work_duration == old(self).work_duration,
            final(self).short_break == old(self).short_break,
            final(self).long_break == old(self).long_break,
    {
        match control {
            Control::Start => self.timer.start_at(now),
            Control::Pause => self.timer.pause(),
            Control::Reset => self.timer.reset(),
            Control::Skip => self.timer.skip_at(now),
        }
    }

    /// Does what a press of `control` at the present moment asks for.
    pub fn press(&mut self, control: Control)
        ensures
            exists|now: nat|
                final(self).timer@ == #[trigger] after_press(old(self).timer@, control, now),
            final(self).timer@.wf(),
            final(self).show_settings == old(self).show_settings,
            final(self).work_duration == old(self).work_duration,
            final(self).short_break == old(self).short_break,
            final(self).long_break == old(self).long_break,
    {
        match control {
            Control::Start => {
                self.timer.start();
                let ghost now = choose|now: nat|
                    self.timer@ == #[trigger] old(self).timer@.after_start(now);
                assert(self.timer@ == after_press(old(self).timer@, control, now));
            },
            Control::Pause => {
                self.timer.pause();
                assert(self.timer@ == after_press(old(self).timer@, control, 0));
            },
            Control::Reset => {
                self.timer.reset();
                assert(self.timer@ == after_press(old(self).timer@, control, 0));
            },
            Control::Skip => {
                self.timer.skip();
                let ghost now = choose|now: nat|
                    self.timer@ == #[trigger] old(self).timer@.after_skip(now);
                assert(self.timer@ == after_press(old(self).timer@, control, now));
            },
        }
    }

    /// Shows the settings if they are hidden and hides them if they are on
    /// show.
    pub fn toggle_settings(&mut self)
        ensures
            final(self).show_settings == !old(self).show_settings,
            final(self).timer@ == old(self).timer@,
            final(self).work_duration == old(self).work_duration,
            final(self).short_break == old(self).short_break,
            final(self).long_break == old(self).long_break,
    {
        self.show_settings = !self.show_settings;
    }

    /// Applies the lengths being edited to the timer. Each must be a positive
    /// number of minutes; where one is not, the timer is left as it is and the
    /// first that is not is reported.
    pub fn apply_settings(&mut self) -> (applied: Result<(), SettingsError>)
        ensures
            match settings_error(old(self).work_duration, old(self).short_break, old(self).long_break) {
                Some(error) => applied == Err::<(), SettingsError>(error) && final(self).timer@
                    == old(self).timer@,
                None => applied is Ok && final(self).timer@ == old(self).timer@.after_durations(
                    old(self).work_duration as nat,
                    old(self).short_break as nat,
                    old(self).long_break as nat,
                ),
            },
            final(self).show_settings == old(self).show_settings,
            final(self).work_duration == old(self).work_duration,
            final(self).short_break == old(self).short_break,
            final(self).long_break == old(self).long_break,
    {
        if self.work_duration == 0 {
            Err(SettingsError::ZeroWorkDuration)
        } else if self.short_break == 0 {
            Err(SettingsError::ZeroShortBreak)
        } else if self.long_break == 0 {
            Err(SettingsError::ZeroLongBreak)
        } else {
            self.timer.update_durations(self.work_duration, self.short_break, self.long_break);
            Ok(())
        }
    }
}

/// The overlay is set off once for each end of a phase: after the signal was
/// taken, taking it again gives nothing until a phase has ended again.
pub proof fn lemma_signal_is_taken_once(timer: TimerState)
    ensures
        !timer.after_clear().just_completed,
        timer.after_clear().after_clear() == timer.after_clear(),
        timer.after_clear().phase == timer.phase,
        timer.after_clear().remaining == timer.remaining,
{
}

/// Lengths that were applied are positive, so the timer they configure never
/// has a phase of no length.
pub proof fn lemma_applied_settings_are_positive(
    timer: TimerState,
    work: u32,
    short_break: u32,
    long_break: u32,
)
    requires
        settings_error(work, short_break, long_break) is None,
    ensures
        timer.after_durations(work as nat, short_break as nat, long_break as nat).work > 0,
        timer.after_durations(work as nat, short_break as nat, long_break as nat).short_break > 0,
        timer.after_durations(work as nat, short_break as nat, long_break as nat).long_break > 0,
{
}

} // verus!
