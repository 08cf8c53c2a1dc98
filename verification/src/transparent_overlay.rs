//! The overlay without its window: the tomatoes in the air, the session that
//! says how long they fall, and whether the window's guard has been asked
//! for. Each frame the window reports what it sees and is told what to do.

use crate::clock::Clock;
use crate::lifecycle::{Observation, OverlaySession, SessionState, ANIMATION_DURATION};
use crate::particles::{FieldState, ParticleField, Tomato, SPAWN_RATE};
use vstd::prelude::*;

verus! {

/// What the window reports at the start of a frame.
#[derive(Debug, Clone, Copy, PartialEq, Eq, Structural)]
pub struct FrameInput {
    /// The native handle of the window, where the window system has one.
    pub window_handle: Option<isize>,
    /// Whether the cancel key is held down.
    pub escape_down: bool,
    /// Whether a close was requested from outside.
    pub close_requested: bool,
    /// The time since the last frame, in nanoseconds.
    pub dt: u64,
    /// The width of the viewport, in pixels.
    pub viewport_width: u32,
    /// The height of the viewport, in pixels.
    pub viewport_height: u32,
}

/// What the window is to do in a frame.
#[derive(Debug, Clone, Copy, PartialEq, Eq, Structural)]
pub struct FrameOutput {
    /// The window on which to install the guard now, if any.
    pub install_guard: Option<isize>,
    /// Whether to draw the tomatoes and ask for another frame.
    pub draw: bool,
    /// Whether to close the window.
    pub close: bool,
}

/// The overlay as a mathematical value.
pub struct OverlayState {
    /// The tomatoes in the air.
    pub field: FieldState,
    /// The session.
    pub session: SessionState,
    /// Whether the guard has been asked for.
    pub hwnd_installed: bool,
}

impl OverlayState {
    /// An overlay that has just come up.
    pub open spec fn initial() -> OverlayState {
        OverlayState {
            field: FieldState { tomatoes: Seq::empty(), spawn_rate: 100 },
            session: SessionState::begun(0, 15_000_000_000),
            hwnd_installed: false,
        }
    }

    /// The window on which the guard is to be installed in a frame: the
    /// window reported, if the guard has not been asked for yet and the
    /// handle is not null.
    pub open spec fn guard_request(self, input: FrameInput) -> Option<isize> {
        match input.window_handle {
            Some(handle) => if !self.hwnd_installed && handle != 0 {
                Some(handle)
            } else {
                None
            },
            None => None,
        }
    }

    /// What the frame's look at the world shows.
    pub open spec fn seen(now: nat, input: FrameInput) -> Observation {
        Observation {
            now,
            key_down: input.escape_down,
            cancel_requested: input.close_requested,
        }
    }

    /// The overlay after a frame at `now` in which `newcomer` was born. The
    /// session takes its look; while it lasts, the tomatoes take their tick.
    pub open spec fn after_frame(self, now: nat, input: FrameInput, newcomer: Option<Tomato>) -> OverlayState {
        let session = self.session.after(Self::seen(now, input));
        OverlayState {
            field: if session.active {
                self.field.after_step(input.dt as nat, input.viewport_height as nat, newcomer)
            } else {
                self.field
            },
            session,
            hwnd_installed: self.hwnd_installed || self.guard_request(input) is Some,
        }
    }

    /// What the window is told in that frame.
    pub open spec fn output(self, now: nat, input: FrameInput) -> FrameOutput {
        let session = self.session.after(Self::seen(now, input));
        FrameOutput {
            install_guard: self.guard_request(input),
            draw: session.active,
            close: !session.active,
        }
    }
}

/// The overlay.
pub struct TransparentOverlay {
    field: ParticleField,
    session: OverlaySession,
    hwnd_installed: bool,
    clock: Clock,
}

impl View for TransparentOverlay {
    type V = OverlayState;

    closed spec fn view(&self) -> OverlayState {
        OverlayState {
            field: self.field@,
            session: self.session@,
            hwnd_installed: self.hwnd_installed,
        }
    }
}

impl TransparentOverlay {
    /// An overlay that comes up now: no tomato in the air yet, fifteen
    /// seconds to go, the guard not asked for.
    pub fn new() -> (overlay: TransparentOverlay)
        ensures
            overlay@ == OverlayState::initial(),
    {
        TransparentOverlay {
            field: ParticleField::new(SPAWN_RATE),
            session: OverlaySession::new(0, ANIMATION_DURATION),
            hwnd_installed: false,
            clock: Clock::start(),
        }
    }

    /// Whether the overlay is still up.
    pub fn is_active(&self) -> (active: bool)
        ensures
            active == self@.session.active,
    {
        self.session.is_active()
    }

    /// The tomatoes in the air, oldest first, for drawing.
    pub fn tomatoes(&self) -> (tomatoes: &Vec<Tomato>)
        ensures
            tomatoes@ == self@.field.tomatoes,
    {
        self.field.tomatoes()
    }

    /// One frame at `now`, with the birth already decided. The guard is asked
    /// for on the first frame that reports a window handle that is not null.
    /// The session takes its look at the key, the close request and the
    /// clock; if it goes on, `newcomer` joins the tomatoes, all fall and those
    /// out of view are removed, and the window is told to draw; if it has
    /// ended, the tomatoes are left alone and the window is told to close.
    pub fn update_with(&mut self, now: u128, input: FrameInput, newcomer: Option<Tomato>) -> (output: FrameOutput)
        ensures
            final(self)@ == old(self)@.after_frame(now as nat, input, newcomer),
            output == old(self)@.output(now as nat, input),
    {
        let install_guard = match input.window_handle {
            Some(handle) => if !self.hwnd_installed && handle != 0 {
                Some(handle)
            } else {
                None
            },
            None => None,
        };
        if install_guard.is_some() {
            self.hwnd_installed = true;
        }
        let stays = self.session.should_continue(now, input.escape_down, input.close_requested);
        if stays {
            self.field.advance(input.dt, input.viewport_height, newcomer);
        }
        FrameOutput { install_guard, draw: stays, close: !stays }
    }

    /// One frame at the present moment. The birth of a tomato is left to
    /// chance, with probability the spawn rate times the time since the last
    /// frame.
    pub fn update(&mut self, input: FrameInput) -> (output: FrameOutput)
        ensures
            exists|now: nat, newcomer: Option<Tomato>|
                {
                    &&& final(self)@ == #[trigger] old(self)@.after_frame(now, input, newcomer)
                    &&& output == old(self)@.output(now, input)
                    &&& newcomer matches Some(tomato) ==> tomato.fits_birth(
                        input.viewport_width as nat,
                    )
                },
            output.draw == !output.close,
            !old(self)@.session.active ==> output.close,
    {
        let now = self.clock.now();
        let newcomer = self.field.spawn(input.dt, input.viewport_width);
        self.update_with(now, input, newcomer)
    }
}

/// An overlay that has ended draws nothing more and keeps its tomatoes as
/// they are, whatever the frames report.
pub proof fn lemma_ended_overlay_stays_closed(
    overlay: OverlayState,
    now: nat,
    input: FrameInput,
    newcomer: Option<Tomato>,
)
    requires
        !overlay.session.active,
    ensures
        !overlay.after_frame(now, input, newcomer).session.active,
        overlay.after_frame(now, input, newcomer).field == overlay.field,
        overlay.output(now, input).close,
        !overlay.output(now, input).draw,
{
}

/// The guard is asked for once: after the frame that asks for it no frame
/// asks again.
pub proof fn lemma_guard_is_requested_once(
    overlay: OverlayState,
    now: nat,
    input: FrameInput,
    newcomer: Option<Tomato>,
    later: FrameInput,
)
    ensures
        overlay.guard_request(input) is Some ==> overlay.after_frame(
            now,
            input,
            newcomer,
        ).guard_request(later) is None,
        overlay.hwnd_installed ==> overlay.guard_request(input) is None,
        overlay.guard_request(input) != Some(0isize),
{
}

/// A frame later than fifteen seconds after the overlay came up closes it.
pub proof fn lemma_overlay_closes_on_time(overlay: OverlayState, now: nat, input: FrameInput)
    requires
        now > overlay.session.started_at + overlay.session.max_duration,
    ensures
        overlay.output(now, input).close,
{
}

} // verus!
