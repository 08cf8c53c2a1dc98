//! The falling tomatoes of the overlay. Each tick a tomato may be born above
//! the top edge, every tomato falls by its speed times the time passed, and
//! tomatoes that have left the bottom edge are removed. Lengths are whole
//! pixels, heights are kept in billionths of a pixel so that a speed in
//! pixels per second times a time in nanoseconds is exact.

use crate::random::random_below;
use vstd::prelude::*;

verus! {

/// The side of the square a tomato is drawn in, in pixels.
pub const TOMATO_SIZE: u32 = 60;

/// Units of height in one pixel.
pub const SUBPIXELS_PER_PIXEL: i128 = 1_000_000_000;

/// The height at which a tomato is born: one tomato above the top edge.
pub const SPAWN_HEIGHT: i128 = -60_000_000_000;

/// The rate at which tomatoes are born, in thousandths per second.
pub const SPAWN_RATE: u32 = 100;

/// The number of equally likely outcomes of the trial that decides a birth.
pub const TRIAL_OUTCOMES: u64 = 1_000_000_000_000;

/// The slowest fall, in pixels per second.
pub const MIN_FALL_SPEED: u32 = 150;

/// The bound below which every fall speed lies, in pixels per second.
pub const MAX_FALL_SPEED: u32 = 350;

/// The smallest sway to either side, in pixels.
pub const MIN_SWAY_AMPLITUDE: u32 = 20;

/// The bound below which every sway lies, in pixels.
pub const MAX_SWAY_AMPLITUDE: u32 = 50;

/// The slowest sway, in thousandths of a radian per second.
pub const MIN_SWAY_FREQUENCY: u32 = 2000;

/// The bound below which every sway frequency lies.
pub const MAX_SWAY_FREQUENCY: u32 = 4000;

/// The bound below which every sway phase lies: a full turn, in thousandths
/// of a radian.
pub const FULL_TURN: u32 = 6283;

/// The value of a wave at its crest: a sine of 1, in millionths.
pub const WAVE_CREST: i32 = 1_000_000;

/// One falling tomato.
#[derive(Debug, Clone, Copy, PartialEq, Eq, Structural)]
pub struct Tomato {
    /// The vertical line the tomato sways around, in pixels from the left.
    pub origin_x: u32,
    /// The height of its centre below the top edge, in billionths of a pixel.
    pub y: i128,
    /// How fast it falls, in pixels per second.
    pub fall_speed: u32,
    /// How far it sways to either side, in pixels.
    pub sway_amplitude: u32,
    /// How fast it sways, in thousandths of a radian per second.
    pub sway_frequency: u32,
    /// Where in its sway it starts, in thousandths of a radian.
    pub sway_phase: u32,
}

/// The height below which a tomato has left a viewport `viewport_height`
/// pixels high: one tomato below the bottom edge.
pub open spec fn floor_of(viewport_height: nat) -> int {
    ((viewport_height + 60) * 1_000_000_000) as int
}

/// `wave` held to the range of a sine, in millionths.
pub open spec fn clamped_wave(wave: int) -> int {
    if wave > 1_000_000 {
        1_000_000
    } else if wave < -1_000_000 {
        -1_000_000
    } else {
        wave
    }
}

impl Tomato {
    /// A tomato with the given parameters at the height where tomatoes are
    /// born.
    pub open spec fn born(
        origin_x: u32,
        fall_speed: u32,
        sway_amplitude: u32,
        sway_frequency: u32,
        sway_phase: u32,
    ) -> Tomato {
        Tomato {
            origin_x,
            y: -60_000_000_000i128,
            fall_speed,
            sway_amplitude,
            sway_frequency,
            sway_phase,
        }
    }

    /// Whether the parameters are ones a tomato can be born with in a window
    /// `window_width` pixels wide.
    pub open spec fn fits_birth(self, window_width: nat) -> bool {
        &&& self.y == -60_000_000_000i128
        &&& self.origin_x < window_width
        &&& 150 <= self.fall_speed < 350
        &&& 20 <= self.sway_amplitude < 50
        &&& 2000 <= self.sway_frequency < 4000
        &&& self.sway_phase < 6283
    }

    /// The height after falling for `dt` nanoseconds.
    pub open spec fn y_after(self, dt: nat) -> int {
        self.y + self.fall_speed * dt
    }

    /// Whether the tomato has left a viewport of the given height after
    /// falling for `dt` nanoseconds.
    pub open spec fn off_screen_after(self, dt: nat, viewport_height: nat) -> bool {
        self.y_after(dt) > floor_of(viewport_height)
    }

    /// The tomato after falling for `dt` nanoseconds.
    pub open spec fn advanced(self, dt: nat) -> Tomato {
        Tomato { y: self.y_after(dt) as i128, ..self }
    }

    /// What is left of the tomato after falling for `dt` nanoseconds in a
    /// viewport of the given height.
    pub open spec fn fallen(self, dt: nat, viewport_height: nat) -> Option<Tomato> {
        if self.off_screen_after(dt, viewport_height) {
            None
        } else {
            Some(self.advanced(dt))
        }
    }

    /// How far the tomato stands from its line when the wave is at `wave`
    /// millionths: that share of the amplitude, rounded towards the line.
    pub open spec fn sway_at(self, wave: int) -> int {
        let held = clamped_wave(wave);
        if held >= 0 {
            self.sway_amplitude * held / 1_000_000
        } else {
            -(self.sway_amplitude * (-held) / 1_000_000)
        }
    }

    /// The horizontal position of the tomato when the wave is at `wave`
    /// millionths, in pixels from the left.
    pub open spec fn x_at(self, wave: int) -> int {
        self.origin_x + self.sway_at(wave)
    }

    /// A tomato with the given parameters at the height where tomatoes are
    /// born.
    pub fn with_parameters(
        origin_x: u32,
        fall_speed: u32,
        sway_amplitude: u32,
        sway_frequency: u32,
        sway_phase: u32,
    ) -> (tomato: Tomato)
        ensures
            tomato == Tomato::born(
                origin_x,
                fall_speed,
                sway_amplitude,
                sway_frequency,
                sway_phase,
            ),
    {
        Tomato {
            origin_x,
            y: SPAWN_HEIGHT,
            fall_speed,
            sway_amplitude,
            sway_frequency,
            sway_phase,
        }
    }

    /// A tomato born at a random place along the top of a window
    /// `window_width` pixels wide, with a random speed and sway.
    pub fn new(window_width: u32) -> (tomato: Tomato)
        requires
            window_width > 0,
        ensures
            tomato.fits_birth(window_width as nat),
    {
        let origin_x = random_below(window_width as u64) as u32;
        let fall_speed = MIN_FALL_SPEED + random_below(
            (MAX_FALL_SPEED - MIN_FALL_SPEED) as u64,
        ) as u32;
        let sway_amplitude = MIN_SWAY_AMPLITUDE + random_below(
            (MAX_SWAY_AMPLITUDE - MIN_SWAY_AMPLITUDE) as u64,
        ) as u32;
        let sway_frequency = MIN_SWAY_FREQUENCY + random_below(
            (MAX_SWAY_FREQUENCY - MIN_SWAY_FREQUENCY) as u64,
        ) as u32;
        let sway_phase = random_below(FULL_TURN as u64) as u32;
        Tomato::with_parameters(origin_x, fall_speed, sway_amplitude, sway_frequency, sway_phase)
    }

    /// Lets the tomato fall for `dt` nanoseconds in a viewport
    /// `viewport_height` pixels high. Returns the tomato at its new height, or
    /// nothing if it has left the viewport: if its centre is more than one
    /// tomato below the bottom edge.
    pub fn update(&self, dt: u64, viewport_height: u32) -> (after: Option<Tomato>)
        ensures
            after == self.fallen(dt as nat, viewport_height as nat),
    {
        assert(0 <= self.fall_speed * dt <= 0xffff_ffff * 0xffff_ffff_ffff_ffff) by (nonlinear_arith)
            requires
                0 <= self.fall_speed <= 0xffff_ffff,
                0 <= dt <= 0xffff_ffff_ffff_ffff,
        ;
        let fall: i128 = self.fall_speed as i128 * dt as i128;
        let floor: i128 = (viewport_height as i128 + TOMATO_SIZE as i128) * SUBPIXELS_PER_PIXEL;
        match self.y.checked_add(fall) {
            Some(y) => if y > floor {
                None
            } else {
                Some(Tomato { y, ..*self })
            },
            None => None,
        }
    }

    /// Whether the tomato has left a viewport `viewport_height` pixels high.
    pub fn is_off_screen(&self, viewport_height: u32) -> (gone: bool)
        ensures
            gone == self.off_screen_after(0, viewport_height as nat),
    {
        assert(self.fall_speed * 0nat == 0) by (nonlinear_arith);
        self.y > (viewport_height as i128 + TOMATO_SIZE as i128) * SUBPIXELS_PER_PIXEL
    }

    /// The horizontal position at which to draw the tomato, in pixels from
    /// the left, given the value of its wave in millionths: the sine of the
    /// time since the overlay came up times the sway frequency, plus the sway
    /// phase. A value outside the range of a sine is held to the range, so the
    /// tomato never strays from its line by more than its amplitude.
    pub fn sway(&self, wave: i32) -> (x: i64)
        ensures
            x == self.x_at(wave as int),
            self.origin_x - self.sway_amplitude <= x <= self.origin_x + self.sway_amplitude,
    {
        let held: i32 = if wave > WAVE_CREST {
            WAVE_CREST
        } else if wave < -WAVE_CREST {
            -WAVE_CREST
        } else {
            wave
        };
        let size: u64 = if held >= 0 {
            held as u64
        } else {
            (-held) as u64
        };
        assert(self.sway_amplitude * size <= self.sway_amplitude * 1_000_000) by (nonlinear_arith)
            requires
                0 <= size <= 1_000_000,
                0 <= self.sway_amplitude,
        ;
        let offset: u64 = self.sway_amplitude as u64 * size / 1_000_000;
        if held >= 0 {
            self.origin_x as i64 + offset as i64
        } else {
            self.origin_x as i64 - offset as i64
        }
    }
}

/// What is left of `tomatoes`, in their order, after each has fallen for `dt`
/// nanoseconds in a viewport `viewport_height` pixels high.
pub open spec fn survivors(tomatoes: Seq<Tomato>, dt: nat, viewport_height: nat) -> Seq<Tomato>
    decreases tomatoes.len(),
{
    if tomatoes.len() == 0 {
        Seq::empty()
    } else {
        let before = survivors(tomatoes.drop_last(), dt, viewport_height);
        match tomatoes.last().fallen(dt, viewport_height) {
            Some(tomato) => before.push(tomato),
            None => before,
        }
    }
}

/// `tomatoes` with `newcomer`, if there is one, at the end.
pub open spec fn joined_by(tomatoes: Seq<Tomato>, newcomer: Option<Tomato>) -> Seq<Tomato> {
    match newcomer {
        Some(tomato) => tomatoes.push(tomato),
        None => tomatoes,
    }
}

/// Whether the trial that came out as `trial`, one of a million million
/// equally likely outcomes, gives birth to a tomato: at a rate of `rate`
/// thousandths per second over `dt` nanoseconds, `rate * dt` of the outcomes
/// do.
pub open spec fn birth_due(rate: nat, dt: nat, trial: nat) -> bool {
    trial < rate * dt
}

/// The field as a mathematical value.
pub struct FieldState {
    /// The tomatoes in the air, oldest first.
    pub tomatoes: Seq<Tomato>,
    /// The rate at which tomatoes are born, in thousandths per second.
    pub spawn_rate: nat,
}

impl FieldState {
    /// The field after one tick of `dt` nanoseconds in a viewport
    /// `viewport_height` pixels high, in which `newcomer` was born: the
    /// newcomer joins, all fall, and those that left the viewport are removed.
    pub open spec fn after_step(self, dt: nat, viewport_height: nat, newcomer: Option<Tomato>) -> FieldState {
        FieldState {
            tomatoes: survivors(joined_by(self.tomatoes, newcomer), dt, viewport_height),
            ..self
        }
    }
}

/// The tomatoes in the air. Their number has no bound of its own: a tomato
/// goes when it has fallen out of the viewport, and the overlay that owns the
/// field lives for seconds.
pub struct ParticleField {
    tomatoes: Vec<Tomato>,
    spawn_rate: u32,
}

impl View for ParticleField {
    type V = FieldState;

    closed spec fn view(&self) -> FieldState {
        FieldState { tomatoes: self.tomatoes@, spawn_rate: self.spawn_rate as nat }
    }
}

/// Decides a birth from the outcome of a trial.
pub fn spawn_due(rate: u32, dt: u64, trial: u64) -> (due: bool)
    ensures
        due == birth_due(rate as nat, dt as nat, trial as nat),
{
    assert(0 <= rate * dt <= 0xffff_ffff * 0xffff_ffff_ffff_ffff) by (nonlinear_arith)
        requires
            0 <= rate <= 0xffff_ffff,
            0 <= dt <= 0xffff_ffff_ffff_ffff,
    ;
    (trial as u128) < rate as u128 * dt as u128
}

impl ParticleField {
    /// An empty field in which tomatoes are born at `spawn_rate` thousandths
    /// per second.
    pub fn new(spawn_rate: u32) -> (field: ParticleField)
        ensures
            field@ == (FieldState { tomatoes: Seq::empty(), spawn_rate: spawn_rate as nat }),
    {
        ParticleField { tomatoes: Vec::new(), spawn_rate }
    }

    /// The tomatoes in the air, oldest first, for drawing.
    pub fn tomatoes(&self) -> (tomatoes: &Vec<Tomato>)
        ensures
            tomatoes@ == self@.tomatoes,
    {
        &self.tomatoes
    }

    /// Takes every tomato out of the air.
    pub fn clear(&mut self)
        ensures
            final(self)@ == (FieldState { tomatoes: Seq::empty(), ..old(self)@ }),
    {
        self.tomatoes.clear();
    }

    /// The number of tomatoes in the air.
    pub fn len(&self) -> (count: usize)
        ensures
            count == self@.tomatoes.len(),
    {
        self.tomatoes.len()
    }

    /// One tick with the birth already decided: `newcomer` joins the field if
    /// there is one, every tomato falls for `dt` nanoseconds, and those that
    /// have left a viewport `viewport_height` pixels high are removed.
    pub fn advance(&mut self, dt: u64, viewport_height: u32, newcomer: Option<Tomato>)
        ensures
            final(self)@ == old(self)@.after_step(dt as nat, viewport_height as nat, newcomer),
    {
        let mut kept: Vec<Tomato> = Vec::new();
        let count = self.tomatoes.len();
        let mut index: usize = 0;
        assert(self.tomatoes@.take(0) =~= Seq::empty());
        while index < count
            invariant
                index <= count,
                count == self.tomatoes@.len(),
                kept@ == survivors(
                    self.tomatoes@.take(index as int),
                    dt as nat,
                    viewport_height as nat,
                ),
            decreases count - index,
        {
            let after = self.tomatoes[index].update(dt, viewport_height);
            proof {
                let longer = self.tomatoes@.take(index + 1);
                assert(longer.drop_last() =~= self.tomatoes@.take(index as int));
                assert(longer.last() == self.tomatoes@[index as int]);
            }
            if let Some(tomato) = after {
                kept.push(tomato);
            }
            index = index + 1;
        }
        assert(self.tomatoes@.take(count as int) =~= self.tomatoes@);
        if let Some(born) = newcomer {
            proof {
                assert(self.tomatoes@.push(born).drop_last() =~= self.tomatoes@);
            }
            if let Some(tomato) = born.update(dt, viewport_height) {
                kept.push(tomato);
            }
        }
        self.tomatoes = kept;
    }

    /// Holds the trial that decides whether a tomato is born in a tick of
    /// `dt` nanoseconds, and where it comes out so bears the tomato at a random
    /// place along the top of a viewport `viewport_width` pixels wide. The
    /// trial gives birth with probability the spawn rate times `dt`. No
    /// tomato is born into a viewport of no width.
    pub fn spawn(&self, dt: u64, viewport_width: u32) -> (newcomer: Option<Tomato>)
        ensures
            newcomer matches Some(tomato) ==> tomato.fits_birth(viewport_width as nat),
            self@.spawn_rate * dt == 0 || viewport_width == 0 ==> newcomer is None,
            self@.spawn_rate * dt >= 1_000_000_000_000 && viewport_width > 0 ==> newcomer is Some,
    {
        let trial = random_below(TRIAL_OUTCOMES);
        if viewport_width > 0 && spawn_due(self.spawn_rate, dt, trial) {
            Some(Tomato::new(viewport_width))
        } else {
            None
        }
    }

    /// One tick of `dt` nanoseconds in a viewport of the given size, in
    /// pixels. A trial decides whether a tomato is born, with probability the
    /// spawn rate times `dt`; it is born at a random place along the top. Then
    /// every tomato falls and those that have left the viewport are removed.
    pub fn step(&mut self, dt: u64, viewport_width: u32, viewport_height: u32)
        ensures
            exists|newcomer: Option<Tomato>|
                {
                    &&& final(self)@ == #[trigger] old(self)@.after_step(
                        dt as nat,
                        viewport_height as nat,
                        newcomer,
                    )
                    &&& newcomer matches Some(tomato) ==> tomato.fits_birth(viewport_width as nat)
                    &&& old(self)@.spawn_rate * dt == 0 || viewport_width == 0 ==> newcomer is None
                    &&& old(self)@.spawn_rate * dt >= 1_000_000_000_000 && viewport_width > 0
                        ==> newcomer is Some
                },
    {
        let newcomer = self.spawn(dt, viewport_width);
        self.advance(dt, viewport_height, newcomer);
    }
}

} // verus!
