use rust_pomodoro::clock::seconds_to_nanos;
use rust_pomodoro::particles::Tomato;
use rust_pomodoro::transparent_overlay::{FrameInput, FrameOutput, TransparentOverlay};

const SECOND: u64 = 1_000_000_000;

fn frame(window_handle: Option<isize>) -> FrameInput {
    FrameInput {
        window_handle,
        escape_down: false,
        close_requested: false,
        dt: SECOND,
        viewport_width: 800,
        viewport_height: 600,
    }
}

fn draw(install_guard: Option<isize>) -> FrameOutput {
    FrameOutput { install_guard, draw: true, close: false }
}

const CLOSE: FrameOutput = FrameOutput { install_guard: None, draw: false, close: true };

#[test]
fn a_fresh_overlay_is_up_and_empty() {
    let overlay = TransparentOverlay::new();
    assert!(overlay.is_active());
    assert!(overlay.tomatoes().is_empty());
}

#[test]
fn the_guard_is_asked_for_on_the_first_frame_with_a_handle() {
    let mut overlay = TransparentOverlay::new();
    assert_eq!(overlay.update_with(0, frame(None), None), draw(None));
    assert_eq!(overlay.update_with(1, frame(Some(0)), None), draw(None));
    assert_eq!(overlay.update_with(2, frame(Some(0x1234)), None), draw(Some(0x1234)));
    assert_eq!(overlay.update_with(3, frame(Some(0x1234)), None), draw(None));
    assert_eq!(overlay.update_with(4, frame(Some(0x5678)), None), draw(None));
}

#[test]
fn the_tomatoes_fall_while_the_overlay_is_up() {
    let mut overlay = TransparentOverlay::new();
    let born = Tomato::with_parameters(10, 200, 30, 3000, 0);
    overlay.update_with(seconds_to_nanos(1), frame(None), Some(born));
    assert_eq!(overlay.tomatoes(), &vec![Tomato { y: 140_000_000_000, ..born }]);
    overlay.update_with(seconds_to_nanos(2), frame(None), None);
    assert_eq!(overlay.tomatoes(), &vec![Tomato { y: 340_000_000_000, ..born }]);
    overlay.update_with(seconds_to_nanos(5), FrameInput { dt: 3 * SECOND, ..frame(None) }, None);
    assert!(overlay.tomatoes().is_empty());
}

#[test]
fn the_overlay_closes_after_fifteen_seconds() {
    let mut overlay = TransparentOverlay::new();
    assert_eq!(overlay.update_with(seconds_to_nanos(15), frame(None), None), draw(None));
    assert_eq!(overlay.update_with(seconds_to_nanos(15) + 1, frame(None), None), CLOSE);
    assert!(!overlay.is_active());
    assert_eq!(overlay.update_with(seconds_to_nanos(1), frame(None), None), CLOSE);
}

#[test]
fn a_press_of_escape_closes_the_overlay_and_freezes_the_tomatoes() {
    let mut overlay = TransparentOverlay::new();
    let born = Tomato::with_parameters(10, 200, 30, 3000, 0);
    overlay.update_with(seconds_to_nanos(1), frame(None), Some(born));
    let pressed = FrameInput { escape_down: true, ..frame(None) };
    assert_eq!(overlay.update_with(seconds_to_nanos(2), pressed, Some(born)), CLOSE);
    assert_eq!(overlay.tomatoes(), &vec![Tomato { y: 140_000_000_000, ..born }]);
    assert_eq!(overlay.update_with(seconds_to_nanos(3), frame(None), None), CLOSE);
    assert_eq!(overlay.tomatoes().len(), 1);
}

#[test]
fn a_close_request_closes_the_overlay() {
    let mut overlay = TransparentOverlay::new();
    let requested = FrameInput { close_requested: true, ..frame(Some(7)) };
    assert_eq!(
        overlay.update_with(seconds_to_nanos(1), requested, None),
        FrameOutput { install_guard: Some(7), draw: false, close: true }
    );
    assert!(!overlay.is_active());
}

#[test]
fn frames_against_the_clock_draw_until_cancelled() {
    let mut overlay = TransparentOverlay::new();
    let output = overlay.update(frame(Some(9)));
    assert_eq!(output, draw(Some(9)));
    for _ in 0..50 {
        assert_eq!(overlay.update(frame(Some(9))), draw(None));
    }
    for tomato in overlay.tomatoes() {
        assert!(tomato.origin_x < 800);
    }
    let pressed = FrameInput { escape_down: true, ..frame(Some(9)) };
    assert_eq!(overlay.update(pressed), CLOSE);
    assert_eq!(overlay.update(frame(Some(9))), CLOSE);
}
