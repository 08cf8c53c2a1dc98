use rust_pomodoro::particles::{
    spawn_due, ParticleField, Tomato, FULL_TURN, MAX_FALL_SPEED, MAX_SWAY_AMPLITUDE,
    MAX_SWAY_FREQUENCY, MIN_FALL_SPEED, MIN_SWAY_AMPLITUDE, MIN_SWAY_FREQUENCY, SPAWN_HEIGHT,
    SPAWN_RATE, SUBPIXELS_PER_PIXEL, TOMATO_SIZE, TRIAL_OUTCOMES, WAVE_CREST,
};

const SECOND: u64 = 1_000_000_000;

fn tomato(origin_x: u32, fall_speed: u32) -> Tomato {
    Tomato::with_parameters(origin_x, fall_speed, 30, 3000, 1000)
}

#[test]
fn a_tomato_is_born_one_tomato_above_the_top() {
    let born = Tomato::with_parameters(100, 200, 30, 3000, 1000);
    assert_eq!(
        born,
        Tomato {
            origin_x: 100,
            y: -60_000_000_000,
            fall_speed: 200,
            sway_amplitude: 30,
            sway_frequency: 3000,
            sway_phase: 1000,
        }
    );
    assert_eq!(SPAWN_HEIGHT, -(TOMATO_SIZE as i128) * SUBPIXELS_PER_PIXEL);
}

#[test]
fn random_tomatoes_keep_to_their_ranges() {
    for width in [1u32, 2, 7, 1920, u32::MAX] {
        for _ in 0..500 {
            let born = Tomato::new(width);
            assert!(born.origin_x < width);
            assert_eq!(born.y, SPAWN_HEIGHT);
            assert!(MIN_FALL_SPEED <= born.fall_speed && born.fall_speed < MAX_FALL_SPEED);
            assert!(
                MIN_SWAY_AMPLITUDE <= born.sway_amplitude && born.sway_amplitude < MAX_SWAY_AMPLITUDE
            );
            assert!(
                MIN_SWAY_FREQUENCY <= born.sway_frequency && born.sway_frequency < MAX_SWAY_FREQUENCY
            );
            assert!(born.sway_phase < FULL_TURN);
        }
    }
}

#[test]
fn random_tomatoes_are_not_all_alike() {
    let first = Tomato::new(1_000_000);
    let mut differs = false;
    for _ in 0..100 {
        if Tomato::new(1_000_000) != first {
            differs = true;
        }
    }
    assert!(differs);
}

#[test]
fn a_tomato_falls_by_its_speed_times_the_time() {
    let born = tomato(10, 200);
    let after = born.update(SECOND / 2, 600).unwrap();
    assert_eq!(after.y, -60_000_000_000 + 100_000_000_000);
    assert_eq!(after, Tomato { y: 40_000_000_000, ..born });
    let later = after.update(1, 600).unwrap();
    assert_eq!(later.y, 40_000_000_200);
    assert_eq!(born.update(0, 600), Some(born));
}

#[test]
fn a_tomato_goes_when_it_is_more_than_one_tomato_below_the_bottom() {
    let born = tomato(10, 300);
    // 600 pixels of viewport: the line is at 660 pixels, 720 pixels below the birth.
    let at_the_line = born.update(2 * SECOND + 400_000_000, 600).unwrap();
    assert_eq!(at_the_line.y, 660_000_000_000);
    assert!(!at_the_line.is_off_screen(600));
    assert_eq!(born.update(2 * SECOND + 400_000_001, 600), None);
    assert_eq!(at_the_line.update(1, 600), None);
    assert!(at_the_line.is_off_screen(599));
    assert_eq!(at_the_line.update(0, 600), Some(at_the_line));
}

#[test]
fn a_fall_too_long_to_count_removes_the_tomato() {
    let fast = Tomato { y: i128::MAX - 5, ..tomato(0, u32::MAX) };
    assert_eq!(fast.update(u64::MAX, u32::MAX), None);
    assert_eq!(fast.update(1, u32::MAX), None);
    let still = tomato(0, 0);
    assert_eq!(still.update(u64::MAX, 0), Some(still));
    let deep = Tomato { y: i128::MIN, ..tomato(0, u32::MAX) };
    assert_eq!(
        deep.update(u64::MAX, 0),
        Some(Tomato { y: i128::MIN + u32::MAX as i128 * u64::MAX as i128, ..deep })
    );
}

#[test]
fn a_tomato_inside_the_viewport_leaves_within_the_bound() {
    // H = 540, S = 60, v = 300: (H + S) / v = 2 ticks of one second.
    let inside = Tomato { y: 1, ..tomato(10, 300) };
    let after_one = inside.update(SECOND, 540).unwrap();
    assert_eq!(after_one.update(SECOND, 540), None);
    // v = 250: (H + S) / v rounds up to 3.
    let slower = Tomato { y: 1, ..tomato(10, 250) };
    let mut left = Some(slower);
    let mut ticks = 0;
    while let Some(falling) = left {
        left = falling.update(SECOND, 540);
        ticks += 1;
    }
    assert_eq!(ticks, 3);
}

#[test]
fn a_newborn_needs_the_way_from_above_the_top_to_below_the_bottom() {
    // H = 540, S = 60, v = 300: 660 pixels to fall, gone after 660 / 300 + 1 = 3 ticks.
    let mut left = Some(tomato(10, 300));
    let mut ticks = 0;
    while let Some(falling) = left {
        left = falling.update(SECOND, 540);
        ticks += 1;
    }
    assert_eq!(ticks, 3);
    // v = 330 divides the way: at the line after 2 ticks, gone after 3.
    let exact = tomato(10, 330);
    let on_the_line = exact.update(2 * SECOND, 540).unwrap();
    assert_eq!(on_the_line.y, 600_000_000_000);
    assert_eq!(on_the_line.update(SECOND, 540), None);
}

#[test]
fn many_short_ticks_fall_as_far_as_one_long_tick() {
    let born = tomato(10, 173);
    let mut stepped = born;
    for _ in 0..1000 {
        stepped = stepped.update(1_234_567, 2000).unwrap();
    }
    assert_eq!(Some(stepped), born.update(1_234_567_000, 2000));
}

#[test]
fn the_sway_stays_within_the_amplitude() {
    let born = Tomato::with_parameters(100, 200, 30, 3000, 0);
    assert_eq!(born.sway(0), 100);
    assert_eq!(born.sway(WAVE_CREST), 130);
    assert_eq!(born.sway(-WAVE_CREST), 70);
    assert_eq!(born.sway(500_000), 115);
    assert_eq!(born.sway(-500_000), 85);
    assert_eq!(born.sway(33_333), 100);
    assert_eq!(born.sway(33_334), 101);
    assert_eq!(born.sway(-33_334), 99);
    assert_eq!(born.sway(i32::MAX), 130);
    assert_eq!(born.sway(i32::MIN), 70);
    let at_the_edge = Tomato::with_parameters(0, 200, 49, 3000, 0);
    assert_eq!(at_the_edge.sway(-WAVE_CREST), -49);
    let wide = Tomato::with_parameters(u32::MAX, 200, u32::MAX, 3000, 0);
    assert_eq!(wide.sway(WAVE_CREST), 2 * (u32::MAX as i64));
    assert_eq!(wide.sway(-WAVE_CREST), 0);
    for wave in (-1_200_000..=1_200_000).step_by(997) {
        let x = born.sway(wave);
        assert!((70..=130).contains(&x));
    }
}

#[test]
fn the_trial_gives_birth_below_rate_times_time() {
    // 100 thousandths per second over one second: a tenth of the outcomes.
    assert!(spawn_due(100, SECOND, 0));
    assert!(spawn_due(100, SECOND, 99_999_999_999));
    assert!(!spawn_due(100, SECOND, 100_000_000_000));
    assert!(!spawn_due(100, SECOND, TRIAL_OUTCOMES - 1));
    assert!(!spawn_due(0, SECOND, 0));
    assert!(!spawn_due(100, 0, 0));
    assert!(spawn_due(1000, SECOND, TRIAL_OUTCOMES - 1));
    assert!(spawn_due(u32::MAX, u64::MAX, u64::MAX));
    assert!(spawn_due(1, 1, 0));
    assert!(!spawn_due(1, 1, 1));
    assert_eq!(SPAWN_RATE, 100);
}

#[test]
fn a_tick_lets_every_tomato_fall_and_removes_those_out_of_view() {
    let mut field = ParticleField::new(0);
    assert_eq!(field.len(), 0);
    field.advance(0, 600, Some(tomato(1, 100)));
    field.advance(SECOND, 600, Some(tomato(2, 700)));
    field.advance(0, 600, Some(tomato(3, 200)));
    assert_eq!(
        field.tomatoes(),
        &vec![
            Tomato { y: 40_000_000_000, ..tomato(1, 100) },
            Tomato { y: 640_000_000_000, ..tomato(2, 700) },
            tomato(3, 200),
        ]
    );
    field.advance(SECOND, 600, None);
    assert_eq!(
        field.tomatoes(),
        &vec![
            Tomato { y: 140_000_000_000, ..tomato(1, 100) },
            Tomato { y: 140_000_000_000, ..tomato(3, 200) },
        ]
    );
    field.advance(3 * SECOND, 600, Some(tomato(4, 150)));
    assert_eq!(
        field.tomatoes(),
        &vec![
            Tomato { y: 440_000_000_000, ..tomato(1, 100) },
            Tomato { y: 390_000_000_000, ..tomato(4, 150) },
        ]
    );
    field.advance(0, 100, None);
    assert_eq!(field.len(), 0);
}

#[test]
fn a_newcomer_that_falls_out_at_once_never_joins() {
    let mut field = ParticleField::new(0);
    field.advance(10 * SECOND, 100, Some(tomato(1, 300)));
    assert_eq!(field.len(), 0);
}

#[test]
fn a_field_without_chance_bears_nothing() {
    let mut field = ParticleField::new(0);
    for _ in 0..200 {
        field.step(SECOND, 800, 600);
    }
    assert_eq!(field.len(), 0);
    let mut no_time = ParticleField::new(u32::MAX);
    for _ in 0..200 {
        no_time.step(0, 800, 600);
    }
    assert_eq!(no_time.len(), 0);
    let mut no_width = ParticleField::new(u32::MAX);
    for _ in 0..200 {
        no_width.step(SECOND, 0, 600);
    }
    assert_eq!(no_width.len(), 0);
    assert_eq!(no_width.spawn(SECOND, 0), None);
}

#[test]
fn a_field_with_certainty_bears_one_tomato_each_tick() {
    // 1000 thousandths per second over one second make the birth certain.
    let mut field = ParticleField::new(1000);
    field.step(SECOND, 800, 2000);
    assert_eq!(field.len(), 1);
    let first = field.tomatoes()[0];
    assert!(first.origin_x < 800);
    assert_eq!(first.y, SPAWN_HEIGHT + first.fall_speed as i128 * SECOND as i128);
    field.step(SECOND, 800, 2000);
    assert_eq!(field.len(), 2);
    assert_eq!(field.tomatoes()[0].y, SPAWN_HEIGHT + 2 * first.fall_speed as i128 * SECOND as i128);
    assert!(field.spawn(SECOND, 800).is_some());
}

#[test]
fn a_field_runs_empty_when_births_stop() {
    let mut field = ParticleField::new(1000);
    for _ in 0..5 {
        field.step(SECOND, 800, 600);
    }
    assert!(field.len() > 0);
    // The slowest tomato falls 150 pixels a second and has 720 to fall.
    for _ in 0..5 {
        field.advance(SECOND, 600, None);
    }
    assert_eq!(field.len(), 0);
}

#[test]
fn births_come_at_about_the_rate() {
    // Half the outcomes give birth; 2000 trials give about 1000 tomatoes.
    let mut field = ParticleField::new(500);
    let mut born = 0;
    for _ in 0..2000 {
        if field.spawn(SECOND, 100).is_some() {
            born += 1;
        }
    }
    assert!(born > 800 && born < 1200);
}

#[test]
fn a_field_can_be_cleared() {
    let mut field = ParticleField::new(1000);
    field.step(SECOND, 800, 2000);
    field.step(SECOND, 800, 2000);
    assert_eq!(field.len(), 2);
    field.clear();
    assert_eq!(field.len(), 0);
    field.step(SECOND, 800, 2000);
    assert_eq!(field.len(), 1);
}
