//! What holds of the registry of window guards: a guard is captured once per
//! window, passes through its phases in one direction, and answers the
//! messages that would activate its window without ever passing them on.

use crate::windows_overlay::{GuardPhase, GuardTable, Policy, WindowMessage, WindowResponse, WindowSnapshot, message_kind, policy_for};
use vstd::prelude::*;

verus! {

/// One operation on the registry.
pub enum GuardCommand {
    Install { hwnd: isize, preferred_return_focus: Option<isize>, window: WindowSnapshot },
    Uninstall { hwnd: isize },
}

impl GuardTable {
    /// The registry after one operation.
    pub open spec fn after(self, command: GuardCommand) -> GuardTable {
        match command {
            GuardCommand::Install { hwnd, preferred_return_focus, window } => self.after_install(
                hwnd,
                preferred_return_focus,
                window,
            ),
            GuardCommand::Uninstall { hwnd } => self.after_uninstall(hwnd),
        }
    }

    /// The registry after a run of operations, first to last.
    pub open spec fn after_all(self, commands: Seq<GuardCommand>) -> GuardTable
        decreases commands.len(),
    {
        if commands.len() == 0 {
            self
        } else {
            self.after_all(commands.drop_last()).after(commands.last())
        }
    }
}

/// A first install captures the window's own procedure and the window to
/// hand the focus back to: the preferred one where one is given, else the one
/// that had the foreground.
pub proof fn lemma_first_install_captures(
    table: GuardTable,
    hwnd: isize,
    preferred_return_focus: Option<isize>,
    window: WindowSnapshot,
)
    requires
        table.is_fresh(hwnd),
    ensures
        table.after_install(hwnd, preferred_return_focus, window).is_installed(hwnd),
        table.after_install(hwnd, preferred_return_focus, window).record(hwnd) == Some(
            GuardTable::captured(preferred_return_focus, window),
        ),
        GuardTable::captured(preferred_return_focus, window).original_procedure
            == window.procedure,
        preferred_return_focus is Some ==> GuardTable::captured(
            preferred_return_focus,
            window,
        ).return_focus == preferred_return_focus->0,
        preferred_return_focus is None ==> GuardTable::captured(
            preferred_return_focus,
            window,
        ).return_focus == window.foreground,
        table.install_plan(hwnd, window) is Some,
{
}

/// Installing twice is installing once: a second install on the same window,
/// whatever it is given, changes nothing, asks for nothing to be written, and
/// leaves what the first one captured.
pub proof fn lemma_install_is_idempotent(
    table: GuardTable,
    hwnd: isize,
    first_preferred: Option<isize>,
    first_window: WindowSnapshot,
    second_preferred: Option<isize>,
    second_window: WindowSnapshot,
)
    ensures
        table.after_install(hwnd, first_preferred, first_window).after_install(
            hwnd,
            second_preferred,
            second_window,
        ) == table.after_install(hwnd, first_preferred, first_window),
        table.after_install(hwnd, first_preferred, first_window).install_plan(hwnd, second_window)
            is None,
        table.is_fresh(hwnd) ==> table.after_install(hwnd, first_preferred, first_window).after_install(
            hwnd,
            second_preferred,
            second_window,
        ).record(hwnd) == Some(GuardTable::captured(first_preferred, first_window)),
{
}

/// Uninstalling releases what was captured and is final: the window has no
/// guard afterwards, and neither an install nor another uninstall changes
/// that.
pub proof fn lemma_uninstall_is_final(
    table: GuardTable,
    hwnd: isize,
    preferred_return_focus: Option<isize>,
    window: WindowSnapshot,
)
    requires
        table.is_installed(hwnd),
    ensures
        table.after_uninstall(hwnd).is_retired(hwnd),
        table.after_uninstall(hwnd).record(hwnd) is None,
        table.after_uninstall(hwnd).after_install(hwnd, preferred_return_focus, window)
            == table.after_uninstall(hwnd),
        table.after_uninstall(hwnd).after_uninstall(hwnd) == table.after_uninstall(hwnd),
{
}

/// An operation on one window leaves every other window as it was.
pub proof fn lemma_other_windows_are_untouched(table: GuardTable, command: GuardCommand, other: isize)
    requires
        other != match command {
            GuardCommand::Install { hwnd, .. } => hwnd,
            GuardCommand::Uninstall { hwnd } => hwnd,
        },
    ensures
        table.after(command).phases.contains_key(other) == table.phases.contains_key(other),
        table.after(command).phases.contains_key(other) ==> table.after(command).phases[other]
            == table.phases[other],
{
}

/// A guard moves through its phases in one direction only. Over any run of
/// operations a retired window stays retired, and a window with a guard in
/// place either keeps exactly what was captured or has been retired: nothing
/// is ever captured a second time.
pub proof fn lemma_captured_once_per_window(table: GuardTable, commands: Seq<GuardCommand>, hwnd: isize)
    ensures
        table.is_retired(hwnd) ==> table.after_all(commands).is_retired(hwnd),
        table.is_installed(hwnd) ==> table.after_all(commands).is_retired(hwnd) || table.after_all(
            commands,
        ).record(hwnd) == table.record(hwnd),
        !table.is_fresh(hwnd) ==> !table.after_all(commands).is_fresh(hwnd),
    decreases commands.len(),
{
    if commands.len() > 0 {
        lemma_captured_once_per_window(table, commands.drop_last(), hwnd);
    }
}

/// A window whose guard is in place is never activated through its own
/// message handling: a click, a repaint of the frame, an activation, a gain of
/// focus and an erase of the background are all answered on the spot, and
/// every other message reaches the original procedure.
pub proof fn lemma_guard_answers_activation(table: GuardTable, hwnd: isize, message: WindowMessage)
    requires
        table.is_installed(hwnd),
    ensures
        message != WindowMessage::Other ==> table.response(hwnd, message) is Handled,
        message == WindowMessage::Other ==> table.response(hwnd, message)
            == (WindowResponse::Forward {
            original_procedure: Some(table.record(hwnd)->0.original_procedure),
        }),
        message == (WindowMessage::Activate { activating: true }) || message
            == WindowMessage::SetFocus ==> table.response(hwnd, message)
            == (WindowResponse::Handled { result: 0, restore_focus: table.focus_target(hwnd) }),
        table.response(hwnd, message) matches WindowResponse::Handled { restore_focus, .. }
            ==> restore_focus != Some(0isize),
{
}

/// A window without a guard in place has every message passed on to the
/// window system's default.
pub proof fn lemma_unguarded_window_forwards(table: GuardTable, hwnd: isize, message: WindowMessage)
    requires
        !table.is_installed(hwnd),
    ensures
        table.response(hwnd, message) == (WindowResponse::Forward { original_procedure: None }),
{
}

/// Only the five activation messages are told apart; a message with any
/// other number is of the kind that is passed on.
pub proof fn lemma_only_five_messages_are_answered(msg: u32, wparam: usize)
    ensures
        policy_for(message_kind(msg, wparam)) is Forward <==> !(msg == 0x0006 || msg == 0x0007
            || msg == 0x0014 || msg == 0x0021 || msg == 0x0086),
        message_kind(msg, wparam) == WindowMessage::Other ==> policy_for(message_kind(msg, wparam))
            == Policy::Forward,
{
}

/// When no foreground window was seen at install, handing back the focus is
/// skipped.
pub proof fn lemma_null_focus_target_is_skipped(
    table: GuardTable,
    hwnd: isize,
    window: WindowSnapshot,
)
    requires
        table.is_fresh(hwnd),
        window.foreground == 0,
    ensures
        table.after_install(hwnd, None, window).focus_target(hwnd) is None,
{
}

} // verus!
