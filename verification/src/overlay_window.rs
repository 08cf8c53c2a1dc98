//! The overlay that lives inside the timer's own window system context: it
//! lies dormant until it is shown, and is made transparent a few frames after
//! that, once its window is sure to exist.

use crate::clock::Clock;
use crate::lifecycle::{Observation, OverlaySession, SessionState, ANIMATION_DURATION};
use crate::particles::{FieldState, ParticleField, Tomato, SPAWN_RATE};
use vstd::prelude::*;

verus! {

/// The number of frames after which the window is made transparent.
pub const FRAMES_BEFORE_TRANSPARENCY: u32 = 2;

/// What the window reports at the start of a frame.
#[derive(Debug, Clone, Copy, PartialEq, Eq, Structural)]
pub struct ViewportFrame {
    /// Whether the cancel key is down.
    pub escape_down: bool,
    /// The time since the last frame, in nanoseconds.
    pub dt: u64,
    /// The width of the viewport, in pixels.
    pub viewport_width: u32,
    /// The height of the viewport, in pixels.
    pub viewport_height: u32,
}

/// What the window is to do in a frame.
#[derive(Debug, Clone, Copy, PartialEq, Eq, Structural)]
pub struct ViewportOutput {
    /// Whether to make the window transparent now.
    pub enable_transparency: bool,
    /// Whether to draw the tomatoes and ask for another frame.
    pub draw: bool,
    /// Whether to close the window.
    pub close: bool,
}

/// The overlay as a mathematical value.
pub struct TomatoOverlayState {
    /// The tomatoes in the air.
    pub field: FieldState,
    /// The session of the current showing; ended while the overlay is
    /// dormant.
    pub session: SessionState,
    /// Whether the window of this showing has been made transparent.
    pub transparency_enabled: bool,
    /// The frames of this showing so far; it stops counting at the largest
    /// number it can hold.
    pub frame_count: nat,
}

impl TomatoOverlayState {
    /// A dormant overlay.
    pub open spec fn dormant() -> TomatoOverlayState {
        TomatoOverlayState {
            field: FieldState { tomatoes: Seq::empty(), spawn_rate: 100 },
            session: SessionState::begun(0, 15_000_000_000).cancelled(),
            transparency_enabled: false,
            frame_count: 0,
        }
    }

    /// The overlay after it was shown at `now`: a fresh session of fifteen
    /// seconds, no tomato in the air, the window not yet transparent.
    pub open spec fn after_show(self, now: nat) -> TomatoOverlayState {
        TomatoOverlayState {
            field: FieldState { tomatoes: Seq::empty(), ..self.field },
            session: SessionState::begun(now, 15_000_000_000),
            transparency_enabled: false,
            frame_count: 0,
        }
    }

    /// Whether a frame at `now` is one in which the window is on show: the
    /// overlay is up and its time is not over.
    pub open spec fn on_show_at(self, now: nat) -> bool {
        self.session.active && !self.session.timed_out_at(now)
    }

    /// The number of frames counted once one more was.
    pub open spec fn next_frame_count(self) -> nat {
        if self.frame_count >= u32::MAX {
            self.frame_count
        } else {
            self.frame_count + 1
        }
    }

    /// What the frame's look at the world shows.
    pub open spec fn seen(now: nat, frame: ViewportFrame) -> Observation {
        Observation { now, key_down: frame.escape_down, cancel_requested: false }
    }

    /// The overlay after a frame at `now` in which `newcomer` was born. A
    /// dormant overlay stays as it is. Otherwise the session takes its look;
    /// a frame counts while the window is on show, and while the session goes
    /// on the tomatoes take their tick.
    pub open spec fn after_frame(self, now: nat, frame: ViewportFrame, newcomer: Option<Tomato>) -> TomatoOverlayState {
        if !self.session.active {
            self
        } else {
            let session = self.session.after(Self::seen(now, frame));
            let frame_count = if self.on_show_at(now) {
                self.next_frame_count()
            } else {
                self.frame_count
            };
            TomatoOverlayState {
                field: if session.active {
                    self.field.after_step(frame.dt as nat, frame.viewport_height as nat, newcomer)
                } else {
                    self.field
                },
                session,
                transparency_enabled: self.transparency_enabled || (self.on_show_at(now)
                    && frame_count > 2),
                frame_count,
            }
        }
    }

    /// What the window is told in that frame.
    pub open spec fn output(self, now: nat, frame: ViewportFrame) -> ViewportOutput {
        if !self.session.active {
            ViewportOutput { enable_transparency: false, draw: false, close: false }
        } else {
            let session = self.session.after(Self::seen(now, frame));
            ViewportOutput {
                enable_transparency: !self.transparency_enabled && self.on_show_at(now)
                    && self.next_frame_count() > 2,
                draw: session.active,
                close: !session.active,
            }
        }
    }
}

/// The overlay.
pub struct TomatoOverlay {
    field: ParticleField,
    session: OverlaySession,
    transparency_enabled: bool,
    frame_count: u32,
    clock: Clock,
}

impl View for TomatoOverlay {
    type V = TomatoOverlayState;

    closed spec fn view(&self) -> TomatoOverlayState {
        TomatoOverlayState {
            field: self.field@,
            session: self.session@,
            transparency_enabled: self.transparency_enabled,
            frame_count: self.frame_count as nat,
        }
    }
}

impl TomatoOverlay {
    /// A dormant overlay.
    pub fn new() -> (overlay: TomatoOverlay)
        ensures
            overlay@ == TomatoOverlayState::dormant(),
    {
        let mut session = OverlaySession::new(0, ANIMATION_DURATION);
        session.cancel();
        TomatoOverlay {
            field: ParticleField::new(SPAWN_RATE),
            session,
            transparency_enabled: false,
            frame_count: 0,
            clock: Clock::start(),
        }
    }

    /// Whether the overlay is up.
    pub fn is_active(&self) -> (active: bool)
        ensures
            active == self@.session.active,
    {
        self.session.is_active()
    }

    /// The tomatoes in the air, oldest first, for drawing.
    pub fn tomatoes(&self) -> (tomatoes: &Vec<Tomato>)
        ensures
            tomatoes@ == self@.field.tomatoes,
    {
        self.field.tomatoes()
    }

    /// Shows the overlay from the present moment.
    pub fn show(&mut self)
        ensures
            exists|now: nat| final(self)@ == #[trigger] old(self)@.after_show(now),
    {
        let now = self.clock.now();
        self.show_at(now);
    }

    /// Shows the overlay from `now`, with a session of its own: whatever the
    /// last showing left is cleared away.
    pub fn show_at(&mut self, now: u128)
        ensures
            final(self)@ == old(self)@.after_show(now as nat),
    {
        self.session = OverlaySession::new(now, ANIMATION_DURATION);
        self.field.clear();
        self.transparency_enabled = false;
        self.frame_count = 0;
    }

    /// One frame at `now`, with the birth already decided. A dormant overlay
    /// does nothing. An overlay whose time is over closes without a frame.
    /// Otherwise the frame counts, the window is made transparent once more
    /// than two frames have counted, and a press of the cancel key closes the
    /// window; if none came, `newcomer` joins the tomatoes, all fall, those
    /// out of view are removed, and the window is told to draw.
    pub fn update_with(&mut self, now: u128, frame: ViewportFrame, newcomer: Option<Tomato>) -> (output: ViewportOutput)
        ensures
            final(self)@ == old(self)@.after_frame(now as nat, frame, newcomer),
            output == old(self)@.output(now as nat, frame),
    {
        if !self.session.is_active() {
            return ViewportOutput { enable_transparency: false, draw: false, close: false };
        }
        let mut enable_transparency = false;
        if !self.session.timed_out(now) {
            if self.frame_count < u32::MAX {
                self.frame_count = self.frame_count + 1;
            }
            if !self.transparency_enabled && self.frame_count > FRAMES_BEFORE_TRANSPARENCY {
                self.transparency_enabled = true;
                enable_transparency = true;
            }
        }
        let stays = self.session.should_continue(now, frame.escape_down, false);
        if stays {
            self.field.advance(frame.dt, frame.viewport_height, newcomer);
        }
        ViewportOutput { enable_transparency, draw: stays, close: !stays }
    }

    /// One frame at the present moment. The birth of a tomato is left to
    /// chance, with probability the spawn rate times the time since the last
    /// frame.
    pub fn update(&mut self, frame: ViewportFrame) -> (output: ViewportOutput)
        ensures
            exists|now: nat, newcomer: Option<Tomato>|
                {
                    &&& final(self)@ == #[trigger] old(self)@.after_frame(now, frame, newcomer)
                    &&& output == old(self)@.output(now, frame)
                    &&& newcomer matches Some(tomato) ==> tomato.fits_birth(
                        frame.viewport_width as nat,
                    )
                },
            !old(self)@.session.active ==> !output.draw && !output.close && final(self)@ == old(
                self,
            )@,
    {
        let now = self.clock.now();
        let newcomer = self.field.spawn(frame.dt, frame.viewport_width);
        self.update_with(now, frame, newcomer)
    }
}

/// A dormant overlay does nothing until it is shown, and a showing starts
/// from nothing: no tomato, no frame counted, the window not transparent.
pub proof fn lemma_showing_starts_afresh(
    overlay: TomatoOverlayState,
    now: nat,
    frame: ViewportFrame,
    newcomer: Option<Tomato>,
)
    ensures
        !overlay.session.active ==> overlay.after_frame(now, frame, newcomer) == overlay,
        overlay.after_show(now).session.active,
        overlay.after_show(now).field.tomatoes.len() == 0,
        overlay.after_show(now).frame_count == 0,
        !overlay.after_show(now).transparency_enabled,
        overlay.after_show(now).session.started_at == now,
{
}

/// The window is made transparent once in a showing: in the third frame in
/// which it is on show, and in no frame after it.
pub proof fn lemma_transparency_is_enabled_once(
    overlay: TomatoOverlayState,
    now: nat,
    frame: ViewportFrame,
    newcomer: Option<Tomato>,
    later: nat,
    later_frame: ViewportFrame,
)
    ensures
        overlay.output(now, frame).enable_transparency ==> overlay.after_frame(
            now,
            frame,
            newcomer,
        ).transparency_enabled,
        overlay.output(now, frame).enable_transparency ==> overlay.frame_count >= 2,
        overlay.transparency_enabled ==> !overlay.output(now, frame).enable_transparency,
        overlay.output(now, frame).enable_transparency ==> !overlay.after_frame(
            now,
            frame,
            newcomer,
        ).output(later, later_frame).enable_transparency,
        overlay.session.active && !overlay.transparency_enabled && overlay.frame_count == 2
            && overlay.on_show_at(now) ==> overlay.output(now, frame).enable_transparency,
{
}

} // verus!
