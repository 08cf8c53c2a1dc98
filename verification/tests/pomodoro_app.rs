use rust_pomodoro::clock::{minutes_to_nanos, seconds_to_nanos};
use rust_pomodoro::pomodoro_app::{
    Control, PomodoroApp, SettingsError, MAX_LONG_BREAK_MINUTES, MAX_SHORT_BREAK_MINUTES,
    MAX_WORK_MINUTES,
};
use rust_pomodoro::timer::SessionType;

#[test]
fn a_fresh_application_shows_the_defaults() {
    let app = PomodoroApp::default();
    assert!(!app.show_settings);
    assert_eq!(app.work_duration, 25);
    assert_eq!(app.short_break, 5);
    assert_eq!(app.long_break, 15);
    assert_eq!(app.timer.remaining(), minutes_to_nanos(25));
    assert!(!app.timer.is_running());
    assert_eq!(app.primary_control(), Control::Start);
    assert_eq!((MAX_WORK_MINUTES, MAX_SHORT_BREAK_MINUTES, MAX_LONG_BREAK_MINUTES), (60, 30, 60));
}

#[test]
fn the_controls_drive_the_timer() {
    let mut app = PomodoroApp::default();
    app.press_at(Control::Start, 0);
    assert!(app.timer.is_running());
    assert_eq!(app.primary_control(), Control::Pause);
    app.timer.tick(seconds_to_nanos(30));
    app.press_at(Control::Pause, seconds_to_nanos(30));
    assert!(!app.timer.is_running());
    assert_eq!(app.timer.remaining(), seconds_to_nanos(1470));
    assert_eq!(app.primary_control(), Control::Start);
    app.press_at(Control::Reset, seconds_to_nanos(31));
    assert_eq!(app.timer.remaining(), seconds_to_nanos(1500));
    app.press_at(Control::Skip, seconds_to_nanos(32));
    assert_eq!(app.timer.get_session_type(), SessionType::ShortBreak);
    assert!(!app.timer.is_running());
}

#[test]
fn the_controls_work_against_the_clock_too() {
    let mut app = PomodoroApp::default();
    app.press(Control::Start);
    assert!(app.timer.is_running());
    app.press(Control::Skip);
    assert_eq!(app.timer.get_session_type(), SessionType::ShortBreak);
    assert!(app.timer.is_running());
    app.press(Control::Pause);
    assert!(!app.timer.is_running());
    app.press(Control::Reset);
    assert_eq!(app.timer.remaining(), minutes_to_nanos(5));
}

#[test]
fn a_completion_is_taken_once() {
    let mut app = PomodoroApp::default();
    assert_eq!(app.take_completion(), None);
    app.press_at(Control::Start, 0);
    app.timer.tick(minutes_to_nanos(25));
    assert_eq!(app.take_completion(), Some(SessionType::ShortBreak));
    assert!(!app.timer.just_completed());
    assert_eq!(app.take_completion(), None);
    app.timer.tick(minutes_to_nanos(26));
    assert_eq!(app.take_completion(), None);
    app.timer.tick(minutes_to_nanos(30));
    assert_eq!(app.take_completion(), Some(SessionType::Work));
    assert_eq!(app.take_completion(), None);
}

#[test]
fn the_settings_toggle() {
    let mut app = PomodoroApp::default();
    app.toggle_settings();
    assert!(app.show_settings);
    app.toggle_settings();
    assert!(!app.show_settings);
}

#[test]
fn positive_lengths_are_applied() {
    let mut app = PomodoroApp::default();
    app.work_duration = 50;
    app.short_break = 10;
    app.long_break = 30;
    assert_eq!(app.apply_settings(), Ok(()));
    assert_eq!(app.timer.remaining(), minutes_to_nanos(50));
    assert_eq!(app.timer.total(), minutes_to_nanos(50));
    app.work_duration = 1;
    app.short_break = 1;
    app.long_break = 1;
    assert_eq!(app.apply_settings(), Ok(()));
    assert_eq!(app.timer.remaining(), minutes_to_nanos(1));
}

#[test]
fn a_length_of_nothing_is_rejected() {
    let mut app = PomodoroApp::default();
    app.work_duration = 0;
    assert_eq!(app.apply_settings(), Err(SettingsError::ZeroWorkDuration));
    app.short_break = 0;
    app.long_break = 0;
    assert_eq!(app.apply_settings(), Err(SettingsError::ZeroWorkDuration));
    app.work_duration = 20;
    assert_eq!(app.apply_settings(), Err(SettingsError::ZeroShortBreak));
    app.short_break = 4;
    assert_eq!(app.apply_settings(), Err(SettingsError::ZeroLongBreak));
    assert_eq!(app.timer.remaining(), minutes_to_nanos(25));
    assert_eq!(app.timer.total(), minutes_to_nanos(25));
    app.long_break = 9;
    assert_eq!(app.apply_settings(), Ok(()));
    assert_eq!(app.timer.remaining(), minutes_to_nanos(20));
}

#[test]
fn settings_applied_while_running_wait_for_the_next_phase() {
    let mut app = PomodoroApp::default();
    app.press_at(Control::Start, 0);
    app.work_duration = 10;
    app.short_break = 2;
    assert_eq!(app.apply_settings(), Ok(()));
    assert_eq!(app.timer.total(), minutes_to_nanos(25));
    app.timer.tick(minutes_to_nanos(25));
    assert_eq!(app.timer.total(), minutes_to_nanos(2));
}
