//! A verified core for a pomodoro timer with a celebratory overlay.
//!
//! The crate holds the parts of the application that decide things: the
//! session state machine, the overlay's lifecycle, the falling-sprite
//! simulation, the registry of non-activating window guards and the window
//! message policy. Each function states what it computes in its contract and
//! Verus proves the body against it. Windowing, rendering and operating-system
//! calls are left to the program that links this library.

pub mod check_transparency;
pub mod clock;
pub mod display;
pub mod launch;
pub mod lifecycle;
pub mod overlay_window;
pub mod particles;
pub mod picture;
pub mod pomodoro_app;
mod random;
pub mod timer;
pub mod transparent_overlay;
pub mod windows_overlay;
pub mod windows_transparency;

pub mod guard_laws;
pub mod particle_laws;
pub mod timer_laws;
