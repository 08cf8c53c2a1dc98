//! What holds of the falling tomatoes: they only ever fall, the length of the
//! ticks does not matter to where they are, each leaves the viewport within a
//! known number of ticks, and none sways further from its line than its
//! amplitude.

use crate::particles::{birth_due, clamped_wave, floor_of, survivors, Tomato};
use vstd::prelude::*;

verus! {

/// What is left of a tomato after `ticks` ticks of `dt` nanoseconds each.
pub open spec fn fallen_in_ticks(tomato: Tomato, ticks: nat, dt: nat, viewport_height: nat) -> Option<Tomato>
    decreases ticks,
{
    if ticks == 0 {
        tomato.fallen(0, viewport_height)
    } else {
        match fallen_in_ticks(tomato, (ticks - 1) as nat, dt, viewport_height) {
            Some(earlier) => earlier.fallen(dt, viewport_height),
            None => None,
        }
    }
}

/// What is left of `tomatoes` after `ticks` ticks of `dt` nanoseconds each in
/// which none is born.
pub open spec fn survivors_of_ticks(tomatoes: Seq<Tomato>, ticks: nat, dt: nat, viewport_height: nat) -> Seq<Tomato>
    decreases ticks,
{
    if ticks == 0 {
        survivors(tomatoes, 0, viewport_height)
    } else {
        survivors(
            survivors_of_ticks(tomatoes, (ticks - 1) as nat, dt, viewport_height),
            dt,
            viewport_height,
        )
    }
}

/// A tomato only ever falls: after more time it is no higher, so one that has
/// left the viewport does not come back.
pub proof fn lemma_descent_is_monotone(tomato: Tomato, sooner: nat, later: nat, viewport_height: nat)
    requires
        sooner <= later,
    ensures
        tomato.y_after(sooner) <= tomato.y_after(later),
        tomato.y <= tomato.y_after(sooner),
        tomato.off_screen_after(sooner, viewport_height) ==> tomato.off_screen_after(
            later,
            viewport_height,
        ),
{
    assert(tomato.fall_speed * sooner <= tomato.fall_speed * later) by (nonlinear_arith)
        requires
            sooner <= later,
            0 <= tomato.fall_speed,
    ;
    assert(0 <= tomato.fall_speed * sooner) by (nonlinear_arith)
        requires
            0 <= tomato.fall_speed,
            0 <= sooner,
    ;
}

/// The fall of a tomato goes by the time alone: a fall in two parts ends where
/// the fall over the whole time ends, and a tomato that left the viewport in
/// the first part is gone.
pub proof fn lemma_fall_adds_up(tomato: Tomato, first: nat, second: nat, viewport_height: nat)
    requires
        viewport_height <= u32::MAX,
    ensures
        tomato.fallen(first + second, viewport_height) == match tomato.fallen(
            first,
            viewport_height,
        ) {
            Some(between) => between.fallen(second, viewport_height),
            None => None,
        },
{
    lemma_descent_is_monotone(tomato, first, first + second, viewport_height);
    assert(tomato.fall_speed * (first + second) == tomato.fall_speed * first + tomato.fall_speed
        * second) by (nonlinear_arith);
    if !tomato.off_screen_after(first, viewport_height) {
        let between = tomato.advanced(first);
        assert(between.y == tomato.y_after(first));
        assert(between.y_after(second) == tomato.y_after(first + second));
        if !between.off_screen_after(second, viewport_height) {
            assert(between.advanced(second) == tomato.advanced(first + second));
        }
    }
}

/// The ticks of a tomato add up: after any number of ticks it is where one
/// tick of the whole time would have put it.
pub proof fn lemma_ticks_add_up(tomato: Tomato, ticks: nat, dt: nat, viewport_height: nat)
    requires
        viewport_height <= u32::MAX,
    ensures
        fallen_in_ticks(tomato, ticks, dt, viewport_height) == tomato.fallen(
            ticks * dt,
            viewport_height,
        ),
    decreases ticks,
{
    if ticks == 0 {
        assert(0 * dt == 0) by (nonlinear_arith);
    } else {
        lemma_ticks_add_up(tomato, (ticks - 1) as nat, dt, viewport_height);
        assert((ticks - 1) * dt + dt == ticks * dt) by (nonlinear_arith);
        lemma_fall_adds_up(tomato, ((ticks - 1) * dt) as nat, dt, viewport_height);
    }
}

/// A tomato is removed exactly when its fall has taken its centre more than
/// one tomato below the bottom edge: it is gone after `ticks` ticks of one
/// second exactly if falling `ticks` times its speed in pixels from where it
/// is takes it past that line.
pub proof fn lemma_removed_when_below_the_floor(tomato: Tomato, ticks: nat, viewport_height: nat)
    requires
        viewport_height <= u32::MAX,
    ensures
        fallen_in_ticks(tomato, ticks, 1_000_000_000, viewport_height) is None <==> tomato.y + ticks
            * tomato.fall_speed * 1_000_000_000 > floor_of(viewport_height),
{
    lemma_ticks_add_up(tomato, ticks, 1_000_000_000, viewport_height);
    assert(tomato.fall_speed * (ticks * 1_000_000_000) == ticks * tomato.fall_speed
        * 1_000_000_000) by (nonlinear_arith);
}

/// A tomato whose centre is inside the viewport is removed after at most
/// `(H + S) / v` ticks of one second, rounded up, where `H` is the height of
/// the viewport, `S` the size of a tomato and `v` the fall speed: any number
/// of ticks `ticks` with `ticks * v >= H + S` is enough.
pub proof fn lemma_leaves_viewport_in_time(tomato: Tomato, ticks: nat, viewport_height: nat)
    requires
        viewport_height <= u32::MAX,
        tomato.y > 0,
        ticks * tomato.fall_speed >= viewport_height + 60,
    ensures
        fallen_in_ticks(tomato, ticks, 1_000_000_000, viewport_height) is None,
{
    lemma_removed_when_below_the_floor(tomato, ticks, viewport_height);
    assert(ticks * tomato.fall_speed * 1_000_000_000 >= (viewport_height + 60) * 1_000_000_000)
        by (nonlinear_arith)
        requires
            ticks * tomato.fall_speed >= viewport_height + 60,
    ;
}

/// A tomato is removed within `(H + 2 S) / v + 1` ticks of one second of its
/// birth, the division rounded down: it is born one tomato above the top edge
/// and goes one tomato below the bottom edge, so it has `H + 2 S` pixels to
/// fall and must pass the line.
pub proof fn lemma_newborn_leaves_in_time(tomato: Tomato, ticks: nat, viewport_height: nat)
    requires
        viewport_height <= u32::MAX,
        tomato.y == -60_000_000_000i128,
        tomato.fall_speed > 0,
        ticks >= (viewport_height + 120) / (tomato.fall_speed as nat) + 1,
    ensures
        fallen_in_ticks(tomato, ticks, 1_000_000_000, viewport_height) is None,
{
    lemma_removed_when_below_the_floor(tomato, ticks, viewport_height);
    let distance = viewport_height + 120;
    let speed = tomato.fall_speed as nat;
    assert(ticks * speed > distance) by (nonlinear_arith)
        requires
            speed > 0,
            distance >= 0,
            ticks >= distance / speed + 1,
    {
        assert(distance == speed * (distance / speed) + distance % speed);
        assert(0 <= distance % speed < speed);
        assert(ticks * speed >= (distance / speed + 1) * speed);
    }
    assert(ticks * tomato.fall_speed * 1_000_000_000 > distance * 1_000_000_000) by (nonlinear_arith)
        requires
            ticks * tomato.fall_speed > distance,
    ;
}

/// Removal keeps the order and never adds: the survivors are no more than
/// there were tomatoes, each is inside the viewport or above it, and each is
/// one of the tomatoes, fallen.
pub proof fn lemma_survivors_are_on_screen(tomatoes: Seq<Tomato>, dt: nat, viewport_height: nat)
    ensures
        survivors(tomatoes, dt, viewport_height).len() <= tomatoes.len(),
        forall|index: int|
            0 <= index < survivors(tomatoes, dt, viewport_height).len() ==> {
                &&& (#[trigger] survivors(tomatoes, dt, viewport_height)[index]).y <= floor_of(
                    viewport_height,
                )
                &&& exists|source: int|
                    0 <= source < tomatoes.len() && (#[trigger] tomatoes[source]).fallen(
                        dt,
                        viewport_height,
                    ) == Some(survivors(tomatoes, dt, viewport_height)[index])
            },
    decreases tomatoes.len(),
{
    if tomatoes.len() > 0 {
        let shorter = tomatoes.drop_last();
        lemma_survivors_are_on_screen(shorter, dt, viewport_height);
        let before = survivors(shorter, dt, viewport_height);
        let all = survivors(tomatoes, dt, viewport_height);
        assert forall|index: int| 0 <= index < all.len() implies {
            &&& (#[trigger] all[index]).y <= floor_of(viewport_height)
            &&& exists|source: int|
                0 <= source < tomatoes.len() && (#[trigger] tomatoes[source]).fallen(
                    dt,
                    viewport_height,
                ) == Some(all[index])
        } by {
            if index < before.len() {
                let source = choose|source: int|
                    0 <= source < shorter.len() && (#[trigger] shorter[source]).fallen(
                        dt,
                        viewport_height,
                    ) == Some(before[index]);
                assert(tomatoes[source] == shorter[source]);
            } else {
                let last = tomatoes.len() - 1;
                assert(tomatoes[last].fallen(dt, viewport_height) == Some(all[index]));
            }
        }
    }
}

/// The length of the ticks does not matter to the field either: removing
/// after `first` nanoseconds and then after `second` more leaves what removing
/// once after the whole time leaves.
pub proof fn lemma_survivors_compose(tomatoes: Seq<Tomato>, first: nat, second: nat, viewport_height: nat)
    requires
        viewport_height <= u32::MAX,
    ensures
        survivors(survivors(tomatoes, first, viewport_height), second, viewport_height)
            == survivors(tomatoes, first + second, viewport_height),
    decreases tomatoes.len(),
{
    if tomatoes.len() > 0 {
        let shorter = tomatoes.drop_last();
        let last = tomatoes.last();
        lemma_survivors_compose(shorter, first, second, viewport_height);
        lemma_fall_adds_up(last, first, second, viewport_height);
        let before = survivors(shorter, first, viewport_height);
        match last.fallen(first, viewport_height) {
            Some(between) => {
                assert(before.push(between).drop_last() == before);
                assert(before.push(between).last() == between);
            },
            None => {},
        }
    }
}

/// In a run of ticks without births the field holds just the tomatoes that
/// one tick of the whole time would have left.
pub proof fn lemma_field_ticks_add_up(tomatoes: Seq<Tomato>, ticks: nat, dt: nat, viewport_height: nat)
    requires
        viewport_height <= u32::MAX,
    ensures
        survivors_of_ticks(tomatoes, ticks, dt, viewport_height) == survivors(
            tomatoes,
            ticks * dt,
            viewport_height,
        ),
    decreases ticks,
{
    if ticks == 0 {
        assert(0 * dt == 0) by (nonlinear_arith);
    } else {
        lemma_field_ticks_add_up(tomatoes, (ticks - 1) as nat, dt, viewport_height);
        assert((ticks - 1) * dt + dt == ticks * dt) by (nonlinear_arith);
        lemma_survivors_compose(tomatoes, ((ticks - 1) * dt) as nat, dt, viewport_height);
    }
}

/// A field without births runs empty: once every tomato has had the ticks of
/// one second it needs to pass the line below the bottom edge, none is left.
pub proof fn lemma_field_runs_empty(tomatoes: Seq<Tomato>, ticks: nat, viewport_height: nat)
    requires
        viewport_height <= u32::MAX,
        forall|index: int|
            0 <= index < tomatoes.len() ==> (#[trigger] tomatoes[index]).y + ticks
                * tomatoes[index].fall_speed * 1_000_000_000 > floor_of(viewport_height),
    ensures
        survivors_of_ticks(tomatoes, ticks, 1_000_000_000, viewport_height).len() == 0,
{
    lemma_field_ticks_add_up(tomatoes, ticks, 1_000_000_000, viewport_height);
    lemma_survivors_are_on_screen(tomatoes, ticks * 1_000_000_000, viewport_height);
    let left = survivors(tomatoes, ticks * 1_000_000_000, viewport_height);
    if left.len() > 0 {
        let source = choose|source: int|
            0 <= source < tomatoes.len() && (#[trigger] tomatoes[source]).fallen(
                ticks * 1_000_000_000,
                viewport_height,
            ) == Some(left[0]);
        assert(tomatoes[source].fall_speed * (ticks * 1_000_000_000) == ticks
            * tomatoes[source].fall_speed * 1_000_000_000) by (nonlinear_arith);
    }
}

/// A tomato never strays from its line by more than its amplitude, whatever
/// value the wave is given; at the crest and the trough of the wave it is a
/// full amplitude away, and at the zero of the wave it is on its line.
pub proof fn lemma_sway_stays_within_amplitude(tomato: Tomato, wave: int)
    ensures
        -tomato.sway_amplitude <= tomato.sway_at(wave) <= tomato.sway_amplitude,
        tomato.origin_x - tomato.sway_amplitude <= tomato.x_at(wave) <= tomato.origin_x
            + tomato.sway_amplitude,
        tomato.sway_at(1_000_000) == tomato.sway_amplitude,
        tomato.sway_at(-1_000_000) == -tomato.sway_amplitude,
        tomato.sway_at(0) == 0,
        tomato.sway_at(-wave) == -tomato.sway_at(wave),
{
    let held = clamped_wave(wave);
    let size = if held >= 0 {
        held
    } else {
        -held
    };
    let amplitude = tomato.sway_amplitude as int;
    assert(0 <= amplitude * size / 1_000_000 <= amplitude) by (nonlinear_arith)
        requires
            0 <= size <= 1_000_000,
            0 <= amplitude,
    ;
    assert(amplitude * 1_000_000 / 1_000_000 == amplitude) by (nonlinear_arith);
    assert(amplitude * 0 / 1_000_000 == 0) by (nonlinear_arith);
    assert(clamped_wave(-wave) == -clamped_wave(wave));
}

/// The trial gives birth with probability rate times time: of the million
/// million outcomes, those below `rate * dt` do. So a longer tick or a higher
/// rate never makes a birth less likely, no time means no birth, and a
/// million million or more means a certain one.
pub proof fn lemma_birth_follows_rate_and_time(rate: nat, dt: nat, longer: nat, trial: nat)
    requires
        dt <= longer,
        trial < 1_000_000_000_000,
    ensures
        birth_due(rate, dt, trial) ==> birth_due(rate, longer, trial),
        rate * dt == 0 ==> !birth_due(rate, dt, trial),
        rate * dt >= 1_000_000_000_000 ==> birth_due(rate, dt, trial),
        birth_due(rate, 0, trial) == false,
        birth_due(0, dt, trial) == false,
{
    assert(rate * dt <= rate * longer) by (nonlinear_arith)
        requires
            dt <= longer,
    ;
    assert(rate * 0 == 0) by (nonlinear_arith);
    assert(0 * dt == 0) by (nonlinear_arith);
}

} // verus!
