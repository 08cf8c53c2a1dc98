//! The lifecycle of one showing of the overlay: it stays visible until its
//! time is up, a cancel is requested from outside, or the cancel key goes
//! down, and once it has ended it stays ended.

use vstd::prelude::*;

verus! {

/// How long the overlay stays up when nothing cancels it: 15 seconds, in
/// nanoseconds.
pub const ANIMATION_DURATION: u128 = 15_000_000_000;

/// One look at the world from the overlay's loop.
pub struct Observation {
    /// The time of the look, in nanoseconds on the overlay's clock.
    pub now: nat,
    /// Whether the cancel key is held down.
    pub key_down: bool,
    /// Whether a cancel has been requested from outside.
    pub cancel_requested: bool,
}

/// An overlay session as a mathematical value. Times are in nanoseconds.
pub struct SessionState {
    /// When the overlay came up.
    pub started_at: nat,
    /// The longest it may stay up.
    pub max_duration: nat,
    /// Whether it is still up.
    pub active: bool,
    /// Whether the cancel key was down at the last look.
    pub key_was_down: bool,
}

impl SessionState {
    /// A session that has just begun.
    pub open spec fn begun(started_at: nat, max_duration: nat) -> SessionState {
        SessionState { started_at, max_duration, active: true, key_was_down: false }
    }

    /// Time since the overlay came up; none if `now` is not later.
    pub open spec fn elapsed_at(self, now: nat) -> nat {
        if now >= self.started_at {
            (now - self.started_at) as nat
        } else {
            0
        }
    }

    /// Whether the session has outlived its longest duration at `now`.
    pub open spec fn timed_out_at(self, now: nat) -> bool {
        self.elapsed_at(now) > self.max_duration
    }

    /// Whether the cancel key has gone down since the last look.
    pub open spec fn key_pressed(self, key_down: bool) -> bool {
        key_down && !self.key_was_down
    }

    /// Whether what was observed ends the session.
    pub open spec fn ended_by(self, seen: Observation) -> bool {
        self.timed_out_at(seen.now) || seen.cancel_requested || self.key_pressed(seen.key_down)
    }

    /// The session after one look.
    pub open spec fn after(self, seen: Observation) -> SessionState {
        SessionState {
            active: self.active && !self.ended_by(seen),
            key_was_down: seen.key_down,
            ..self
        }
    }

    /// The session after a run of looks, first to last.
    pub open spec fn after_all(self, seen: Seq<Observation>) -> SessionState
        decreases seen.len(),
    {
        if seen.len() == 0 {
            self
        } else {
            self.after_all(seen.drop_last()).after(seen.last())
        }
    }

    /// The session after it was cancelled outright.
    pub open spec fn cancelled(self) -> SessionState {
        SessionState { active: false, ..self }
    }
}

/// One showing of the overlay.
pub struct OverlaySession {
    started_at: u128,
    max_duration: u128,
    active: bool,
    key_was_down: bool,
}

impl View for OverlaySession {
    type V = SessionState;

    closed spec fn view(&self) -> SessionState {
        SessionState {
            started_at: self.started_at as nat,
            max_duration: self.max_duration as nat,
            active: self.active,
            key_was_down: self.key_was_down,
        }
    }
}

impl OverlaySession {
    /// Begins a session at `started_at` that may last `max_duration`.
    pub fn new(started_at: u128, max_duration: u128) -> (session: OverlaySession)
        ensures
            session@ == SessionState::begun(started_at as nat, max_duration as nat),
    {
        OverlaySession { started_at, max_duration, active: true, key_was_down: false }
    }

    /// Takes one look at the world and says whether the overlay stays up. It
    /// comes down when more than the longest duration has passed since it came
    /// up, when a cancel was requested, or when the cancel key has gone down
    /// since the last look; a key that is merely held does not count again.
    /// A session that has ended never continues.
    pub fn should_continue(&mut self, now: u128, key_down: bool, cancel_requested: bool) -> (stays: bool)
        ensures
            final(self)@ == old(self)@.after(
                (Observation { now: now as nat, key_down, cancel_requested }),
            ),
            stays == final(self)@.active,
            !old(self)@.active ==> !stays,
    {
        let elapsed = if now >= self.started_at {
            now - self.started_at
        } else {
            0
        };
        let timed_out = elapsed > self.max_duration;
        let key_pressed = key_down && !self.key_was_down;
        if timed_out || cancel_requested || key_pressed {
            self.active = false;
        }
        self.key_was_down = key_down;
        self.active
    }

    /// Ends the session at once.
    pub fn cancel(&mut self)
        ensures
            final(self)@ == old(self)@.cancelled(),
    {
        self.active = false;
    }

    /// Whether the overlay is still up.
    pub fn is_active(&self) -> (active: bool)
        ensures
            active == self@.active,
    {
        self.active
    }

    /// Whether the session has outlived its longest duration at `now`.
    pub fn timed_out(&self, now: u128) -> (late: bool)
        ensures
            late == self@.timed_out_at(now as nat),
    {
        self.elapsed(now) > self.max_duration
    }

    /// Time since the overlay came up.
    pub fn elapsed(&self, now: u128) -> (nanos: u128)
        ensures
            nanos == self@.elapsed_at(now as nat),
    {
        if now >= self.started_at {
            now - self.started_at
        } else {
            0
        }
    }
}

/// Running a prefix of looks and then one more is running the longer prefix.
pub proof fn lemma_looks_unfold(session: SessionState, seen: Seq<Observation>, index: int)
    requires
        0 <= index < seen.len(),
    ensures
        session.after_all(seen.take(index + 1)) == session.after_all(seen.take(index)).after(
            seen[index],
        ),
{
    let longer = seen.take(index + 1);
    assert(longer.drop_last() == seen.take(index));
    assert(longer.last() == seen[index]);
}

/// Looking changes nothing but whether the overlay is up and what the key was
/// last seen to do.
pub proof fn lemma_looks_keep_the_schedule(session: SessionState, seen: Seq<Observation>)
    ensures
        session.after_all(seen).started_at == session.started_at,
        session.after_all(seen).max_duration == session.max_duration,
    decreases seen.len(),
{
    if seen.len() > 0 {
        lemma_looks_keep_the_schedule(session, seen.drop_last());
    }
}

/// The end is final: a session that has ended is still ended after any run of
/// looks, whatever they show.
pub proof fn lemma_ended_stays_ended(session: SessionState, seen: Seq<Observation>)
    requires
        !session.active,
    ensures
        !session.after_all(seen).active,
    decreases seen.len(),
{
    if seen.len() > 0 {
        lemma_ended_stays_ended(session, seen.drop_last());
    }
}

/// The overlay comes down at most once: if it is up after some number of
/// looks, it was up after every smaller number of them.
pub proof fn lemma_comes_down_once(
    session: SessionState,
    seen: Seq<Observation>,
    earlier: int,
    later: int,
)
    requires
        0 <= earlier <= later <= seen.len(),
        session.after_all(seen.take(later)).active,
    ensures
        session.after_all(seen.take(earlier)).active,
    decreases later - earlier,
{
    if earlier < later {
        lemma_looks_unfold(session, seen, later - 1);
        lemma_comes_down_once(session, seen, earlier, later - 1);
    }
}

/// The timeout goes by the clock alone: a look later than the longest
/// duration after the start ends the session, however many looks came before
/// and whatever they showed.
pub proof fn lemma_timeout_ends_the_session(
    session: SessionState,
    before: Seq<Observation>,
    late: Observation,
)
    requires
        late.now > session.started_at + session.max_duration,
    ensures
        !session.after_all(before).after(late).active,
{
    lemma_looks_keep_the_schedule(session, before);
}

/// Nothing but the three causes ends a session: after a run of looks the
/// overlay is up exactly if it was up before and no look showed a timeout, a
/// cancel request or a fresh press of the cancel key.
pub proof fn lemma_up_until_a_cause(session: SessionState, seen: Seq<Observation>)
    ensures
        session.after_all(seen).active <==> session.active && forall|index: int|
            0 <= index < seen.len() ==> !(#[trigger] session.after_all(seen.take(index))).ended_by(
                seen[index],
            ),
    decreases seen.len(),
{
    if seen.len() > 0 {
        let shorter = seen.drop_last();
        let last = seen.len() - 1;
        lemma_up_until_a_cause(session, shorter);
        assert(seen.take(last) == shorter);
        assert forall|index: int| 0 <= index < last implies shorter.take(index) == seen.take(
            index,
        ) && shorter[index] == seen[index] by {}
        if session.after_all(seen).active {
            assert forall|index: int| 0 <= index < seen.len() implies !(
            #[trigger] session.after_all(seen.take(index))).ended_by(seen[index]) by {
                if index < last {
                    assert(shorter.take(index) == seen.take(index));
                    assert(!session.after_all(shorter.take(index)).ended_by(shorter[index]));
                }
            }
        }
        if session.active && forall|index: int|
            0 <= index < seen.len() ==> !(#[trigger] session.after_all(seen.take(index))).ended_by(
                seen[index],
            ) {
            assert forall|index: int| 0 <= index < shorter.len() implies !(
            #[trigger] session.after_all(shorter.take(index))).ended_by(shorter[index]) by {
                assert(shorter.take(index) == seen.take(index));
                assert(!session.after_all(seen.take(index)).ended_by(seen[index]));
            }
            assert(!session.after_all(seen.take(last)).ended_by(seen[last]));
        }
    } else {
        assert(seen.take(0) == seen);
    }
}

} // verus!
