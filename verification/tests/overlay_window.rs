use rust_pomodoro::clock::seconds_to_nanos;
use rust_pomodoro::overlay_window::{
    TomatoOverlay, ViewportFrame, ViewportOutput, FRAMES_BEFORE_TRANSPARENCY,
};
use rust_pomodoro::particles::Tomato;

const SECOND: u64 = 1_000_000_000;

const FRAME: ViewportFrame =
    ViewportFrame { escape_down: false, dt: SECOND, viewport_width: 800, viewport_height: 600 };

const IDLE: ViewportOutput = ViewportOutput { enable_transparency: false, draw: false, close: false };

const DRAW: ViewportOutput = ViewportOutput { enable_transparency: false, draw: true, close: false };

const CLOSE: ViewportOutput = ViewportOutput { enable_transparency: false, draw: false, close: true };

#[test]
fn a_dormant_overlay_does_nothing() {
    let mut overlay = TomatoOverlay::new();
    assert!(!overlay.is_active());
    let born = Tomato::with_parameters(10, 200, 30, 3000, 0);
    assert_eq!(overlay.update_with(0, FRAME, Some(born)), IDLE);
    assert_eq!(overlay.update_with(seconds_to_nanos(99), FRAME, Some(born)), IDLE);
    assert_eq!(overlay.update(FRAME), IDLE);
    assert!(overlay.tomatoes().is_empty());
    assert!(!overlay.is_active());
}

#[test]
fn the_window_turns_transparent_in_the_third_frame() {
    assert_eq!(FRAMES_BEFORE_TRANSPARENCY, 2);
    let mut overlay = TomatoOverlay::new();
    overlay.show_at(seconds_to_nanos(100));
    assert!(overlay.is_active());
    assert_eq!(overlay.update_with(seconds_to_nanos(101), FRAME, None), DRAW);
    assert_eq!(overlay.update_with(seconds_to_nanos(102), FRAME, None), DRAW);
    assert_eq!(
        overlay.update_with(seconds_to_nanos(103), FRAME, None),
        ViewportOutput { enable_transparency: true, draw: true, close: false }
    );
    assert_eq!(overlay.update_with(seconds_to_nanos(104), FRAME, None), DRAW);
    assert_eq!(overlay.update_with(seconds_to_nanos(105), FRAME, None), DRAW);
}

#[test]
fn a_showing_ends_after_fifteen_seconds_and_can_be_repeated() {
    let mut overlay = TomatoOverlay::new();
    overlay.show_at(seconds_to_nanos(100));
    let born = Tomato::with_parameters(10, 10, 30, 3000, 0);
    assert_eq!(overlay.update_with(seconds_to_nanos(115), FRAME, Some(born)), DRAW);
    assert_eq!(overlay.tomatoes().len(), 1);
    assert_eq!(overlay.update_with(seconds_to_nanos(115) + 1, FRAME, None), CLOSE);
    assert!(!overlay.is_active());
    assert_eq!(overlay.update_with(seconds_to_nanos(116), FRAME, None), IDLE);
    overlay.show_at(seconds_to_nanos(200));
    assert!(overlay.is_active());
    assert!(overlay.tomatoes().is_empty());
    assert_eq!(overlay.update_with(seconds_to_nanos(201), FRAME, None), DRAW);
    assert_eq!(overlay.update_with(seconds_to_nanos(202), FRAME, None), DRAW);
    assert_eq!(
        overlay.update_with(seconds_to_nanos(203), FRAME, None),
        ViewportOutput { enable_transparency: true, draw: true, close: false }
    );
}

#[test]
fn escape_closes_a_showing() {
    let mut overlay = TomatoOverlay::new();
    overlay.show_at(0);
    let pressed = ViewportFrame { escape_down: true, ..FRAME };
    assert_eq!(overlay.update_with(1, FRAME, None), DRAW);
    assert_eq!(overlay.update_with(2, pressed, None), CLOSE);
    assert_eq!(overlay.update_with(3, FRAME, None), IDLE);
    let mut third = TomatoOverlay::new();
    third.show_at(0);
    third.update_with(1, FRAME, None);
    third.update_with(2, FRAME, None);
    assert_eq!(
        third.update_with(3, pressed, None),
        ViewportOutput { enable_transparency: true, draw: false, close: true }
    );
}

#[test]
fn a_showing_against_the_clock_draws() {
    let mut overlay = TomatoOverlay::new();
    overlay.show();
    assert!(overlay.is_active());
    assert_eq!(overlay.update(FRAME), DRAW);
    assert_eq!(overlay.update(FRAME), DRAW);
    assert_eq!(
        overlay.update(FRAME),
        ViewportOutput { enable_transparency: true, draw: true, close: false }
    );
    for tomato in overlay.tomatoes() {
        assert!(tomato.origin_x < 800);
    }
}
