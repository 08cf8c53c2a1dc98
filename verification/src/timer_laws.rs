//! What holds of the session state machine over whole runs: its invariant,
//! the countdown within a phase, the cycle of phases, the completion signal
//! and the progress fraction.

use crate::timer::{SessionType, TimerState};
use vstd::prelude::*;

verus! {

/// One operation on a timer, with the timestamp it was given where it takes
/// one.
pub enum Command {
    Start { now: nat },
    Pause,
    Reset,
    Skip { now: nat },
    Tick { now: nat },
    SetDurations { work: nat, short_break: nat, long_break: nat },
    ClearCompleted,
}

impl TimerState {
    /// The timer after one operation.
    pub open spec fn after(self, command: Command) -> TimerState {
        match command {
            Command::Start { now } => self.after_start(now),
            Command::Pause => self.after_pause(),
            Command::Reset => self.after_reset(),
            Command::Skip { now } => self.after_skip(now),
            Command::Tick { now } => self.after_tick(now),
            Command::SetDurations { work, short_break, long_break } => self.after_durations(
                work,
                short_break,
                long_break,
            ),
            Command::ClearCompleted => self.after_clear(),
        }
    }

    /// The timer after a run of operations, first to last.
    pub open spec fn after_all(self, commands: Seq<Command>) -> TimerState
        decreases commands.len(),
    {
        if commands.len() == 0 {
            self
        } else {
            self.after_all(commands.drop_last()).after(commands.last())
        }
    }

    /// Whether `command` ends the current phase: a skip, or a tick that uses
    /// up the time left.
    pub open spec fn changes_phase_on(self, command: Command) -> bool {
        match command {
            Command::Skip { .. } => true,
            Command::Tick { now } => self.completes_at(now),
            _ => false,
        }
    }

    /// Whether every configured length is positive.
    pub open spec fn has_positive_durations(self) -> bool {
        self.work > 0 && self.short_break > 0 && self.long_break > 0
    }

    /// The timer after its phase completed once for each of `times`, in order.
    pub open spec fn after_completions(self, times: Seq<nat>) -> TimerState
        decreases times.len(),
    {
        if times.len() == 0 {
            self
        } else {
            self.after_completions(times.drop_last()).after_completion(times.last())
        }
    }
}

/// Whether `command` leaves the length and the fill of a phase alone: it is
/// neither a reset nor a change of the configured lengths.
pub open spec fn keeps_phase_length(command: Command) -> bool {
    !(command is Reset) && !(command is SetDurations)
}

/// The step `index` of `commands`, run from `start`, keeps the timer in its
/// phase and leaves the phase's length alone.
pub open spec fn stays_in_phase(start: TimerState, commands: Seq<Command>, index: int) -> bool {
    &&& keeps_phase_length(commands[index])
    &&& !start.after_all(commands.take(index)).changes_phase_on(commands[index])
}

/// A fresh timer is well formed.
pub proof fn lemma_initial_is_well_formed()
    ensures
        TimerState::initial().wf(),
{
}

/// No operation breaks the invariant: the time left never exceeds the length
/// of the phase, the cycle index stays between 1 and 4, and a tick reference
/// is kept exactly while running.
pub proof fn lemma_operation_keeps_invariant(state: TimerState, command: Command)
    requires
        state.wf(),
    ensures
        state.after(command).wf(),
{
}

/// The invariant holds after every run of operations.
pub proof fn lemma_run_keeps_invariant(state: TimerState, commands: Seq<Command>)
    requires
        state.wf(),
    ensures
        state.after_all(commands).wf(),
    decreases commands.len(),
{
    if commands.len() > 0 {
        lemma_run_keeps_invariant(state, commands.drop_last());
        lemma_operation_keeps_invariant(state.after_all(commands.drop_last()), commands.last());
    }
}

/// Running a prefix and then one more operation is running the longer prefix.
pub proof fn lemma_run_unfolds(state: TimerState, commands: Seq<Command>, index: int)
    requires
        0 <= index < commands.len(),
    ensures
        state.after_all(commands.take(index + 1)) == state.after_all(commands.take(index)).after(
            commands[index],
        ),
{
    let longer = commands.take(index + 1);
    assert(longer.drop_last() == commands.take(index));
    assert(longer.last() == commands[index]);
}

/// Within a phase the time left never grows: along a run of operations in
/// which no phase ends and nothing resets or reconfigures the timer, the time
/// left after any step is at most what it was at any earlier step. The
/// timestamps may be any; in particular they may be non-decreasing ticks.
pub proof fn lemma_time_left_never_grows(
    state: TimerState,
    commands: Seq<Command>,
    earlier: int,
    later: int,
)
    requires
        0 <= earlier <= later <= commands.len(),
        forall|index: int| earlier <= index < later ==> stays_in_phase(state, commands, index),
    ensures
        state.after_all(commands.take(later)).remaining <= state.after_all(
            commands.take(earlier),
        ).remaining,
        state.after_all(commands.take(later)).phase == state.after_all(
            commands.take(earlier),
        ).phase,
        state.after_all(commands.take(later)).total == state.after_all(
            commands.take(earlier),
        ).total,
    decreases later - earlier,
{
    if earlier < later {
        lemma_time_left_never_grows(state, commands, earlier, later - 1);
        lemma_run_unfolds(state, commands, later - 1);
        assert(stays_in_phase(state, commands, later - 1));
    }
}

/// A run of ticks at the given timestamps.
pub open spec fn ticks_at(times: Seq<nat>) -> Seq<Command> {
    Seq::new(times.len(), |index: int| Command::Tick { now: times[index] })
}

/// Along a run of ticks none of which ends the phase, the time left after any
/// tick is at most what it was after any earlier tick.
pub proof fn lemma_ticks_never_add_time(state: TimerState, times: Seq<nat>, earlier: int, later: int)
    requires
        0 <= earlier <= later <= times.len(),
        forall|index: int|
            earlier <= index < later ==> !(#[trigger] state.after_all(
                ticks_at(times).take(index),
            )).completes_at(times[index]),
    ensures
        state.after_all(ticks_at(times).take(later)).remaining <= state.after_all(
            ticks_at(times).take(earlier),
        ).remaining,
{
    assert forall|index: int| earlier <= index < later implies stays_in_phase(
        state,
        ticks_at(times),
        index,
    ) by {
        assert(!state.after_all(ticks_at(times).take(index)).completes_at(times[index]));
    }
    lemma_time_left_never_grows(state, ticks_at(times), earlier, later);
}

/// The countdown goes by the clock: on a running timer, after a run of ticks
/// with timestamps in order none of which ends the phase, the time left is
/// what it was less the time from the tick reference to the last tick,
/// however many ticks there were.
pub proof fn lemma_ticks_count_the_time_passed(state: TimerState, times: Seq<nat>)
    requires
        state.wf(),
        state.running,
        times.len() > 0,
        state.last_tick->0 <= times[0],
        forall|index: int| 0 < index < times.len() ==> times[index - 1] <= #[trigger] times[index],
        forall|index: int|
            0 <= index < times.len() ==> !(#[trigger] state.after_all(
                ticks_at(times).take(index),
            )).completes_at(times[index]),
    ensures
        state.after_all(ticks_at(times)).remaining + (times.last() - state.last_tick->0)
            == state.remaining,
        state.after_all(ticks_at(times)).running,
        state.after_all(ticks_at(times)).last_tick == Some(times.last()),
        state.after_all(ticks_at(times)).phase == state.phase,
    decreases times.len(),
{
    let commands = ticks_at(times);
    let last = times.len() - 1;
    assert(commands.take(commands.len() as int) == commands);
    assert(commands.take(0).len() == 0);
    lemma_run_unfolds(state, commands, last);
    if last > 0 {
        let shorter = times.take(last);
        assert(ticks_at(shorter) == commands.take(last));
        assert forall|index: int| 0 <= index < shorter.len() implies !(
        #[trigger] state.after_all(ticks_at(shorter).take(index))).completes_at(
            shorter[index],
        ) by {
            assert(ticks_at(shorter).take(index) == commands.take(index));
            assert(!state.after_all(commands.take(index)).completes_at(times[index]));
        }
        assert forall|index: int| 0 < index < shorter.len() implies shorter[index - 1]
            <= #[trigger] shorter[index] by {
            assert(times[index - 1] <= times[index]);
        }
        lemma_ticks_count_the_time_passed(state, shorter);
        assert(times[last - 1] <= times[last]);
    }
    assert(!state.after_all(commands.take(last)).completes_at(times[last]));
}

/// A tick that does not end the phase takes exactly the time since the last
/// tick from the time left.
pub proof fn lemma_tick_subtracts_elapsed(state: TimerState, now: nat)
    requires
        state.running,
        !state.completes_at(now),
    ensures
        state.after_tick(now).remaining + state.elapsed_at(now) == state.remaining,
        state.after_tick(now).last_tick == Some(now),
{
}

/// Ticks do not depend on the frame rate: with timestamps in order, a tick at
/// `first` that does not end the phase, followed by a tick at `second`, leaves
/// the timer as the single tick at `second` would.
pub proof fn lemma_ticks_compose(state: TimerState, first: nat, second: nat)
    requires
        state.wf(),
        state.running,
        state.last_tick->0 <= first <= second,
        !state.completes_at(first),
    ensures
        state.after_tick(first).after_tick(second) == state.after_tick(second),
{
}

/// A second tick in the same instant changes nothing, when every configured
/// length is positive.
pub proof fn lemma_tick_is_idempotent(state: TimerState, now: nat)
    requires
        state.wf(),
        state.has_positive_durations(),
    ensures
        state.after_tick(now).after_tick(now) == state.after_tick(now),
{
}

/// A reset leaves the phase and the cycle index alone, stops the countdown,
/// and makes the time left equal to the length of the phase.
pub proof fn lemma_reset_refills(state: TimerState)
    ensures
        state.after_reset().remaining == state.after_reset().total,
        state.after_reset().total == state.configured(state.phase),
        state.after_reset().phase == state.phase,
        state.after_reset().cycle == state.cycle,
        !state.after_reset().running,
{
}

/// Running one more completion after a prefix is running the longer prefix.
pub proof fn lemma_completions_unfold(state: TimerState, times: Seq<nat>, index: int)
    requires
        0 <= index < times.len(),
    ensures
        state.after_completions(times.take(index + 1)) == state.after_completions(
            times.take(index),
        ).after_completion(times[index]),
{
    let longer = times.take(index + 1);
    assert(longer.drop_last() == times.take(index));
    assert(longer.last() == times[index]);
}

/// The cycle of phases. From work phase 1, every completed work phase but the
/// fourth is followed by a short break, the fourth by the long break, and the
/// completion of the long break starts work phase 1 again.
pub proof fn lemma_long_break_closes_the_cycle(state: TimerState, times: Seq<nat>)
    requires
        state.phase == SessionType::Work,
        state.cycle == 1,
        times.len() == 8,
    ensures
        forall|round: int|
            0 <= round < 3 ==> {
                &&& (#[trigger] state.after_completions(times.take(2 * round + 1))).phase
                    == SessionType::ShortBreak
                &&& state.after_completions(times.take(2 * round + 1)).cycle == round + 1
                &&& state.after_completions(times.take(2 * round + 2)).phase == SessionType::Work
                &&& state.after_completions(times.take(2 * round + 2)).cycle == round + 2
            },
        state.after_completions(times.take(7)).phase == SessionType::LongBreak,
        state.after_completions(times.take(7)).cycle == 4,
        state.after_completions(times.take(8)).phase == SessionType::Work,
        state.after_completions(times.take(8)).cycle == 1,
{
    assert(times.take(0).len() == 0);
    lemma_completions_unfold(state, times, 0);
    lemma_completions_unfold(state, times, 1);
    lemma_completions_unfold(state, times, 2);
    lemma_completions_unfold(state, times, 3);
    lemma_completions_unfold(state, times, 4);
    lemma_completions_unfold(state, times, 5);
    lemma_completions_unfold(state, times, 6);
    lemma_completions_unfold(state, times, 7);
}

/// A completion raises the signal, moves to the next phase and fills it at its
/// configured length; the cycle index moves only when a break ends.
pub proof fn lemma_completion_starts_next_phase(state: TimerState, now: nat)
    requires
        state.wf(),
    ensures
        state.after_completion(now).just_completed,
        state.after_completion(now).running,
        state.after_completion(now).remaining == state.after_completion(now).total,
        state.phase == SessionType::Work ==> state.after_completion(now).cycle == state.cycle,
        state.phase == SessionType::Work ==> (state.after_completion(now).phase
            == SessionType::LongBreak <==> state.cycle == 4),
        state.phase != SessionType::Work ==> state.after_completion(now).phase
            == SessionType::Work,
        state.phase != SessionType::Work ==> state.after_completion(now).cycle == state.cycle % 4
            + 1,
{
}

/// Only the end of a phase raises the completion signal, and only the
/// consumer lowers it: any other operation leaves it as it was.
pub proof fn lemma_signal_follows_phase_changes(state: TimerState, command: Command)
    ensures
        state.changes_phase_on(command) ==> state.after(command).just_completed,
        command is ClearCompleted ==> !state.after(command).just_completed,
        !state.changes_phase_on(command) && !(command is ClearCompleted) ==> state.after(
            command,
        ).just_completed == state.just_completed,
{
}

/// Once cleared, the signal stays down until the next phase change: after a
/// run of operations on a timer whose signal is down, the signal is up exactly
/// if some step ended a phase and no later step cleared the signal.
pub proof fn lemma_signal_raised_once_per_phase_change(state: TimerState, commands: Seq<Command>)
    requires
        !state.just_completed,
    ensures
        state.after_all(commands).just_completed <==> exists|index: int|
            0 <= index < commands.len() && #[trigger] raises_signal(state, commands, index),
    decreases commands.len(),
{
    if commands.len() > 0 {
        let shorter = commands.drop_last();
        let last = commands.len() - 1;
        lemma_signal_raised_once_per_phase_change(state, shorter);
        lemma_signal_follows_phase_changes(state.after_all(shorter), commands.last());
        assert(commands.take(last) == shorter);
        assert forall|index: int| 0 <= index < last implies (raises_signal(state, shorter, index)
            && !(commands.last() is ClearCompleted) <==> raises_signal(state, commands, index)) by {
            assert(shorter.take(index) == commands.take(index));
            assert(shorter[index] == commands[index]);
            if raises_signal(state, shorter, index) && !(commands.last() is ClearCompleted) {
                assert forall|after: int| index < after < commands.len() implies !(
                commands[after] is ClearCompleted) by {
                    if after < last {
                        assert(shorter[after] == commands[after]);
                    }
                }
            }
            if raises_signal(state, commands, index) {
                assert forall|after: int| index < after < shorter.len() implies !(
                shorter[after] is ClearCompleted) by {
                    assert(shorter[after] == commands[after]);
                }
                assert(!(commands[last] is ClearCompleted));
            }
        }
        if state.after_all(commands).just_completed {
            if state.after_all(shorter).changes_phase_on(commands.last()) {
                assert(raises_signal(state, commands, last));
            } else {
                let index = choose|index: int|
                    0 <= index < shorter.len() && #[trigger] raises_signal(state, shorter, index);
                assert(raises_signal(state, commands, index));
            }
        }
        if exists|index: int|
            0 <= index < commands.len() && #[trigger] raises_signal(state, commands, index) {
            let index = choose|index: int|
                0 <= index < commands.len() && #[trigger] raises_signal(state, commands, index);
            if index < last {
                assert(raises_signal(state, shorter, index));
            }
        }
    }
}

/// The step `index` of `commands`, run from `start`, ends a phase, and no
/// later step clears the signal.
pub open spec fn raises_signal(start: TimerState, commands: Seq<Command>, index: int) -> bool {
    &&& start.after_all(commands.take(index)).changes_phase_on(commands[index])
    &&& forall|after: int|
        index < after < commands.len() ==> !(#[trigger] commands[after] is ClearCompleted)
}

/// The progress fraction is a number from 0 to 1; it is 1 exactly when no
/// time is left, and 0 exactly when a phase of positive length is still full.
pub proof fn lemma_progress_spans_the_phase(state: TimerState)
    requires
        state.wf(),
    ensures
        0 < state.progress_total(),
        state.progress_elapsed() <= state.progress_total(),
        state.progress_elapsed() == state.progress_total() <==> state.remaining == 0,
        state.progress_elapsed() == 0 <==> state.total > 0 && state.remaining == state.total,
{
}

/// Progress never runs backwards within a phase: less time left means no less
/// progress.
pub proof fn lemma_progress_grows_as_time_runs(earlier: TimerState, later: TimerState)
    requires
        earlier.wf(),
        later.wf(),
        earlier.total == later.total,
        later.remaining <= earlier.remaining,
    ensures
        earlier.progress_total() == later.progress_total(),
        earlier.progress_elapsed() <= later.progress_elapsed(),
{
}

} // verus!
