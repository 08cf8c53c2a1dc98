use rust_pomodoro::windows_overlay::{
    classify_message, esc_is_down, install_overlay_window, message_policy, overlay_wndproc,
    return_focus, take_close_requested, uninstall_overlay_window, GuardRecord, InstallPlan,
    Policy, WindowGuards, WindowMessage, WindowResponse, WindowSnapshot, MA_NOACTIVATE,
    SW_SHOWNOACTIVATE, WM_ACTIVATE, WM_ERASEBKGND, WM_MOUSEACTIVATE, WM_NCACTIVATE, WM_SETFOCUS,
};
use rust_pomodoro::windows_transparency::OverlayStyle;

fn snapshot(foreground: isize, ex_style: u32, procedure: isize) -> WindowSnapshot {
    WindowSnapshot { foreground, ex_style, procedure }
}

#[test]
fn a_first_install_captures_and_plans() {
    let mut guards = WindowGuards::new();
    assert!(!guards.is_installed(0x1234));
    let plan = install_overlay_window(&mut guards, 0x1234, None, snapshot(0x77, 0x0000_0100, 0xbeef));
    assert_eq!(
        plan,
        Some(InstallPlan {
            style: OverlayStyle { ex_style: 0x0808_01a8, alpha: 255, raise_flags: 0x53 },
            show_command: 4,
        })
    );
    assert_eq!(SW_SHOWNOACTIVATE, 4);
    assert!(guards.is_installed(0x1234));
    assert_eq!(
        guards.record(0x1234),
        Some(GuardRecord { original_procedure: 0xbeef, return_focus: 0x77 })
    );
}

#[test]
fn a_preferred_focus_target_wins_over_the_foreground_window() {
    let mut guards = WindowGuards::new();
    install_overlay_window(&mut guards, 1, Some(0x55), snapshot(0x77, 0, 0xbeef));
    assert_eq!(return_focus(&guards, 1), Some(0x55));
    assert_eq!(
        guards.record(1),
        Some(GuardRecord { original_procedure: 0xbeef, return_focus: 0x55 })
    );
}

#[test]
fn installing_twice_captures_once() {
    let mut guards = WindowGuards::new();
    let first = install_overlay_window(&mut guards, 9, None, snapshot(0x77, 0x20, 0xbeef));
    assert!(first.is_some());
    let second = install_overlay_window(&mut guards, 9, Some(0x99), snapshot(0x88, 0x40, 0xcafe));
    assert_eq!(second, None);
    assert_eq!(
        guards.record(9),
        Some(GuardRecord { original_procedure: 0xbeef, return_focus: 0x77 })
    );
    assert_eq!(return_focus(&guards, 9), Some(0x77));
}

#[test]
fn windows_are_guarded_independently() {
    let mut guards = WindowGuards::new();
    install_overlay_window(&mut guards, 1, None, snapshot(0x10, 0, 0x100));
    install_overlay_window(&mut guards, 2, None, snapshot(0x20, 0, 0x200));
    assert_eq!(guards.record(1), Some(GuardRecord { original_procedure: 0x100, return_focus: 0x10 }));
    assert_eq!(guards.record(2), Some(GuardRecord { original_procedure: 0x200, return_focus: 0x20 }));
    assert_eq!(uninstall_overlay_window(&mut guards, 1), Some(0x100));
    assert_eq!(guards.record(1), None);
    assert_eq!(guards.record(2), Some(GuardRecord { original_procedure: 0x200, return_focus: 0x20 }));
    assert_eq!(guards.record(3), None);
}

#[test]
fn uninstall_gives_back_the_original_procedure_and_is_final() {
    let mut guards = WindowGuards::new();
    assert_eq!(uninstall_overlay_window(&mut guards, 5), None);
    install_overlay_window(&mut guards, 5, None, snapshot(0x77, 0, 0xbeef));
    assert_eq!(uninstall_overlay_window(&mut guards, 5), Some(0xbeef));
    assert!(!guards.is_installed(5));
    assert_eq!(uninstall_overlay_window(&mut guards, 5), None);
    assert_eq!(install_overlay_window(&mut guards, 5, None, snapshot(0x88, 0, 0xcafe)), None);
    assert!(!guards.is_installed(5));
    assert_eq!(return_focus(&guards, 5), None);
}

#[test]
fn no_foreground_window_means_no_focus_to_hand_back() {
    let mut guards = WindowGuards::new();
    install_overlay_window(&mut guards, 5, None, snapshot(0, 0, 0xbeef));
    assert_eq!(return_focus(&guards, 5), None);
    assert_eq!(
        overlay_wndproc(&guards, 5, WM_SETFOCUS, 0),
        WindowResponse::Handled { result: 0, restore_focus: None }
    );
    assert_eq!(return_focus(&guards, 6), None);
}

#[test]
fn messages_are_told_apart_by_number() {
    assert_eq!(WM_ACTIVATE, 6);
    assert_eq!(WM_SETFOCUS, 7);
    assert_eq!(WM_ERASEBKGND, 0x14);
    assert_eq!(WM_MOUSEACTIVATE, 0x21);
    assert_eq!(WM_NCACTIVATE, 0x86);
    assert_eq!(classify_message(0x21, 0), WindowMessage::MouseActivate);
    assert_eq!(classify_message(0x86, 1), WindowMessage::NonClientActivate);
    assert_eq!(classify_message(6, 0), WindowMessage::Activate { activating: false });
    assert_eq!(classify_message(6, 1), WindowMessage::Activate { activating: true });
    assert_eq!(classify_message(6, 2), WindowMessage::Activate { activating: true });
    assert_eq!(classify_message(6, 0x1_0000), WindowMessage::Activate { activating: false });
    assert_eq!(classify_message(6, 0x1_0002), WindowMessage::Activate { activating: true });
    assert_eq!(classify_message(7, 0), WindowMessage::SetFocus);
    assert_eq!(classify_message(0x14, 0), WindowMessage::EraseBackground);
    assert_eq!(classify_message(0x0f, 0), WindowMessage::Other);
    assert_eq!(classify_message(0, 0), WindowMessage::Other);
    assert_eq!(classify_message(u32::MAX, usize::MAX), WindowMessage::Other);
}

#[test]
fn each_kind_of_message_has_its_answer() {
    assert_eq!(MA_NOACTIVATE, 3);
    assert_eq!(
        message_policy(WindowMessage::MouseActivate),
        Policy::Suppress { result: 3, restore_focus: false }
    );
    assert_eq!(
        message_policy(WindowMessage::NonClientActivate),
        Policy::Suppress { result: 1, restore_focus: false }
    );
    assert_eq!(
        message_policy(WindowMessage::Activate { activating: true }),
        Policy::Suppress { result: 0, restore_focus: true }
    );
    assert_eq!(
        message_policy(WindowMessage::Activate { activating: false }),
        Policy::Suppress { result: 0, restore_focus: false }
    );
    assert_eq!(
        message_policy(WindowMessage::SetFocus),
        Policy::Suppress { result: 0, restore_focus: true }
    );
    assert_eq!(
        message_policy(WindowMessage::EraseBackground),
        Policy::Suppress { result: 1, restore_focus: false }
    );
    assert_eq!(message_policy(WindowMessage::Other), Policy::Forward);
}

#[test]
fn a_guarded_window_answers_activation_and_forwards_the_rest() {
    let mut guards = WindowGuards::new();
    install_overlay_window(&mut guards, 42, None, snapshot(0x77, 0, 0xbeef));
    assert_eq!(
        overlay_wndproc(&guards, 42, WM_MOUSEACTIVATE, 0),
        WindowResponse::Handled { result: 3, restore_focus: None }
    );
    assert_eq!(
        overlay_wndproc(&guards, 42, WM_NCACTIVATE, 1),
        WindowResponse::Handled { result: 1, restore_focus: None }
    );
    assert_eq!(
        overlay_wndproc(&guards, 42, WM_ACTIVATE, 1),
        WindowResponse::Handled { result: 0, restore_focus: Some(0x77) }
    );
    assert_eq!(
        overlay_wndproc(&guards, 42, WM_ACTIVATE, 0),
        WindowResponse::Handled { result: 0, restore_focus: None }
    );
    assert_eq!(
        overlay_wndproc(&guards, 42, WM_SETFOCUS, 0),
        WindowResponse::Handled { result: 0, restore_focus: Some(0x77) }
    );
    assert_eq!(
        overlay_wndproc(&guards, 42, WM_ERASEBKGND, 0),
        WindowResponse::Handled { result: 1, restore_focus: None }
    );
    assert_eq!(
        overlay_wndproc(&guards, 42, 0x000f, 0),
        WindowResponse::Forward { original_procedure: Some(0xbeef) }
    );
}

#[test]
fn a_window_without_a_guard_forwards_everything() {
    let mut guards = WindowGuards::new();
    assert_eq!(
        overlay_wndproc(&guards, 42, WM_SETFOCUS, 0),
        WindowResponse::Forward { original_procedure: None }
    );
    install_overlay_window(&mut guards, 42, None, snapshot(0x77, 0, 0xbeef));
    uninstall_overlay_window(&mut guards, 42);
    assert_eq!(
        overlay_wndproc(&guards, 42, WM_MOUSEACTIVATE, 0),
        WindowResponse::Forward { original_procedure: None }
    );
}

#[test]
fn a_close_request_is_taken_once() {
    let mut pending = true;
    assert!(take_close_requested(&mut pending));
    assert!(!pending);
    assert!(!take_close_requested(&mut pending));
    assert!(!pending);
}

#[test]
fn the_high_bit_of_the_key_state_means_down() {
    assert!(esc_is_down(i16::MIN));
    assert!(esc_is_down(-1));
    assert!(esc_is_down(0x8001u16 as i16));
    assert!(!esc_is_down(0));
    assert!(!esc_is_down(1));
    assert!(!esc_is_down(i16::MAX));
}
