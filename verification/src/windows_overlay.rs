//! The guard that keeps an overlay window from ever taking the focus: a
//! registry of guarded windows with what was captured when each guard was
//! installed, and the policy by which a guarded window answers the messages
//! that would activate it. Calls to the window system are the caller's part;
//! it reads what the functions here ask for and carries out what they return.

use crate::windows_transparency::{make_overlay_transparent_and_clickthrough, OverlayStyle, with_overlay_style};
use std::collections::HashMap;
use vstd::prelude::*;

verus! {

broadcast use vstd::std_specs::hash::group_hash_axioms;

/// The window is being activated or deactivated.
pub const WM_ACTIVATE: u32 = 0x0006;

/// The window has gained the keyboard focus.
pub const WM_SETFOCUS: u32 = 0x0007;

/// The window's background is to be erased.
pub const WM_ERASEBKGND: u32 = 0x0014;

/// A click landed in the inactive window.
pub const WM_MOUSEACTIVATE: u32 = 0x0021;

/// The window's frame is to be drawn as active or inactive.
pub const WM_NCACTIVATE: u32 = 0x0086;

/// The answer to a click that neither activates the window nor drops the
/// click.
pub const MA_NOACTIVATE: isize = 3;

/// The command that shows a window without activating it.
pub const SW_SHOWNOACTIVATE: i32 = 4;

/// What a guard captured when it was installed.
#[derive(Debug, Clone, Copy, PartialEq, Eq, Structural)]
pub struct GuardRecord {
    /// The window procedure the window had before the guard took its place.
    pub original_procedure: isize,
    /// The window that had the foreground, to which the focus is handed back;
    /// null if none was seen.
    pub return_focus: isize,
}

/// Where a window that was ever guarded stands. A window that is not in the
/// registry has never been guarded.
#[derive(Debug, Clone, Copy, PartialEq, Eq, Structural)]
pub enum GuardPhase {
    /// The guard is in place.
    Installed(GuardRecord),
    /// The guard was taken out, for good.
    Retired,
}

/// What the caller read from the window system before installing a guard.
#[derive(Debug, Clone, Copy, PartialEq, Eq, Structural)]
pub struct WindowSnapshot {
    /// The window that has the foreground; null if none.
    pub foreground: isize,
    /// The extended style of the window to guard.
    pub ex_style: u32,
    /// The window procedure of the window to guard.
    pub procedure: isize,
}

/// What the caller is to do to a window whose guard was just installed, next
/// to putting the guard's procedure in place of the window's own.
#[derive(Debug, Clone, Copy, PartialEq, Eq, Structural)]
pub struct InstallPlan {
    /// The style, layer alpha and raise flags to write.
    pub style: OverlayStyle,
    /// The command with which to show the window.
    pub show_command: i32,
}

/// A message as the guard sees it.
#[derive(Debug, Clone, Copy, PartialEq, Eq, Structural)]
pub enum WindowMessage {
    /// A click would activate the window.
    MouseActivate,
    /// The frame would be repainted as active or inactive.
    NonClientActivate,
    /// The window is being activated (`activating`) or deactivated.
    Activate { activating: bool },
    /// The window has been given the focus.
    SetFocus,
    /// The background would be erased.
    EraseBackground,
    /// Any other message.
    Other,
}

/// How a guarded window answers a kind of message.
#[derive(Debug, Clone, Copy, PartialEq, Eq, Structural)]
pub enum Policy {
    /// The message is answered with `result` and goes no further; if
    /// `restore_focus`, the foreground is first handed back.
    Suppress { result: isize, restore_focus: bool },
    /// The message goes to the window's original procedure unchanged.
    Forward,
}

/// What the caller is to do with one message.
#[derive(Debug, Clone, Copy, PartialEq, Eq, Structural)]
pub enum WindowResponse {
    /// Hand the foreground to `restore_focus` if there is one, then answer
    /// `result`.
    Handled { result: isize, restore_focus: Option<isize> },
    /// Pass the message on: to `original_procedure` if there is one, else to
    /// the window system's default.
    Forward { original_procedure: Option<isize> },
}

/// Tells the kind of a raw message from its number and its first parameter.
pub open spec fn message_kind(msg: u32, wparam: usize) -> WindowMessage {
    if msg == 0x0021 {
        WindowMessage::MouseActivate
    } else if msg == 0x0086 {
        WindowMessage::NonClientActivate
    } else if msg == 0x0006 {
        WindowMessage::Activate { activating: wparam & 0xffff != 0 }
    } else if msg == 0x0007 {
        WindowMessage::SetFocus
    } else if msg == 0x0014 {
        WindowMessage::EraseBackground
    } else {
        WindowMessage::Other
    }
}

/// The answer of a guarded window to each kind of message.
pub open spec fn policy_for(message: WindowMessage) -> Policy {
    match message {
        WindowMessage::MouseActivate => Policy::Suppress { result: 3, restore_focus: false },
        WindowMessage::NonClientActivate => Policy::Suppress { result: 1, restore_focus: false },
        WindowMessage::Activate { activating } => Policy::Suppress {
            result: 0,
            restore_focus: activating,
        },
        WindowMessage::SetFocus => Policy::Suppress { result: 0, restore_focus: true },
        WindowMessage::EraseBackground => Policy::Suppress { result: 1, restore_focus: false },
        WindowMessage::Other => Policy::Forward,
    }
}

/// The registry of guards as a mathematical value.
pub struct GuardTable {
    /// Every window that was ever guarded, with where it stands.
    pub phases: Map<isize, GuardPhase>,
}

impl GuardTable {
    /// The registry in which no window was ever guarded.
    pub open spec fn empty() -> GuardTable {
        GuardTable { phases: Map::empty() }
    }

    /// Whether a guard is in place on `hwnd`.
    pub open spec fn is_installed(self, hwnd: isize) -> bool {
        self.phases.contains_key(hwnd) && self.phases[hwnd] is Installed
    }

    /// Whether `hwnd` was guarded once and is no more.
    pub open spec fn is_retired(self, hwnd: isize) -> bool {
        self.phases.contains_key(hwnd) && self.phases[hwnd] is Retired
    }

    /// Whether `hwnd` has never been guarded, so that a guard can be
    /// installed.
    pub open spec fn is_fresh(self, hwnd: isize) -> bool {
        !self.phases.contains_key(hwnd)
    }

    /// What the guard on `hwnd` captured, if one is in place.
    pub open spec fn record(self, hwnd: isize) -> Option<GuardRecord> {
        if self.is_installed(hwnd) {
            Some(self.phases[hwnd]->Installed_0)
        } else {
            None
        }
    }

    /// What a first install on a window captures: its procedure, and as the
    /// window to hand the focus back to the preferred one if one is given,
    /// else the foreground window.
    pub open spec fn captured(preferred_return_focus: Option<isize>, window: WindowSnapshot) -> GuardRecord {
        GuardRecord {
            original_procedure: window.procedure,
            return_focus: match preferred_return_focus {
                Some(preferred) => preferred,
                None => window.foreground,
            },
        }
    }

    /// The registry after an install on `hwnd`: a window never guarded before
    /// gets its guard; any other is left as it is.
    pub open spec fn after_install(
        self,
        hwnd: isize,
        preferred_return_focus: Option<isize>,
        window: WindowSnapshot,
    ) -> GuardTable {
        if self.is_fresh(hwnd) {
            GuardTable {
                phases: self.phases.insert(
                    hwnd,
                    GuardPhase::Installed(Self::captured(preferred_return_focus, window)),
                ),
            }
        } else {
            self
        }
    }

    /// What the caller is to do after an install on `hwnd`: the plan for a
    /// first install, nothing otherwise.
    pub open spec fn install_plan(self, hwnd: isize, window: WindowSnapshot) -> Option<InstallPlan> {
        if self.is_fresh(hwnd) {
            Some(
                InstallPlan {
                    style: OverlayStyle {
                        ex_style: with_overlay_style(window.ex_style),
                        alpha: 255,
                        raise_flags: 0x0053,
                    },
                    show_command: 4,
                },
            )
        } else {
            None
        }
    }

    /// The registry after an uninstall on `hwnd`: a guard in place is retired;
    /// anything else is left as it is.
    pub open spec fn after_uninstall(self, hwnd: isize) -> GuardTable {
        if self.is_installed(hwnd) {
            GuardTable { phases: self.phases.insert(hwnd, GuardPhase::Retired) }
        } else {
            self
        }
    }

    /// The window to hand the foreground back to from `hwnd`: the one its
    /// guard remembered, unless none was seen.
    pub open spec fn focus_target(self, hwnd: isize) -> Option<isize> {
        match self.record(hwnd) {
            Some(record) => if record.return_focus != 0 {
                Some(record.return_focus)
            } else {
                None
            },
            None => None,
        }
    }

    /// What is done with a message of kind `message` sent to `hwnd`. A window
    /// with a guard in place follows the policy; any other window passes
    /// everything on.
    pub open spec fn response(self, hwnd: isize, message: WindowMessage) -> WindowResponse {
        match self.record(hwnd) {
            Some(record) => match policy_for(message) {
                Policy::Suppress { result, restore_focus } => WindowResponse::Handled {
                    result,
                    restore_focus: if restore_focus {
                        self.focus_target(hwnd)
                    } else {
                        None
                    },
                },
                Policy::Forward => WindowResponse::Forward {
                    original_procedure: Some(record.original_procedure),
                },
            },
            None => WindowResponse::Forward { original_procedure: None },
        }
    }
}

/// The registry of guards.
pub struct WindowGuards {
    phases: HashMap<isize, GuardPhase>,
}

impl View for WindowGuards {
    type V = GuardTable;

    closed spec fn view(&self) -> GuardTable {
        GuardTable { phases: self.phases@ }
    }
}

impl WindowGuards {
    /// A registry in which no window was ever guarded.
    pub fn new() -> (guards: WindowGuards)
        ensures
            guards@ == GuardTable::empty(),
    {
        WindowGuards { phases: HashMap::new() }
    }

    /// What the guard on `hwnd` captured, if one is in place.
    pub fn record(&self, hwnd: isize) -> (record: Option<GuardRecord>)
        ensures
            record == self@.record(hwnd),
    {
        match self.phases.get(&hwnd) {
            Some(GuardPhase::Installed(record)) => Some(*record),
            _ => None,
        }
    }

    /// Whether a guard is in place on `hwnd`.
    pub fn is_installed(&self, hwnd: isize) -> (installed: bool)
        ensures
            installed == self@.is_installed(hwnd),
    {
        self.record(hwnd).is_some()
    }
}

/// Tells the kind of a raw message from its number and its first parameter.
/// Of an activation message the low word of the parameter says whether the
/// window is being activated.
pub fn classify_message(msg: u32, wparam: usize) -> (message: WindowMessage)
    ensures
        message == message_kind(msg, wparam),
{
    if msg == WM_MOUSEACTIVATE {
        WindowMessage::MouseActivate
    } else if msg == WM_NCACTIVATE {
        WindowMessage::NonClientActivate
    } else if msg == WM_ACTIVATE {
        WindowMessage::Activate { activating: wparam & 0xffff != 0 }
    } else if msg == WM_SETFOCUS {
        WindowMessage::SetFocus
    } else if msg == WM_ERASEBKGND {
        WindowMessage::EraseBackground
    } else {
        WindowMessage::Other
    }
}

/// The answer of a guarded window to each kind of message: a click does not
/// activate, the frame is not repainted, an activation or a gain of focus
/// hands the foreground back, the background is not erased, and everything
/// else is passed on.
pub fn message_policy(message: WindowMessage) -> (policy: Policy)
    ensures
        policy == policy_for(message),
{
    match message {
        WindowMessage::MouseActivate => Policy::Suppress {
            result: MA_NOACTIVATE,
            restore_focus: false,
        },
        WindowMessage::NonClientActivate => Policy::Suppress { result: 1, restore_focus: false },
        WindowMessage::Activate { activating } => Policy::Suppress {
            result: 0,
            restore_focus: activating,
        },
        WindowMessage::SetFocus => Policy::Suppress { result: 0, restore_focus: true },
        WindowMessage::EraseBackground => Policy::Suppress { result: 1, restore_focus: false },
        WindowMessage::Other => Policy::Forward,
    }
}

/// Installs the guard on `hwnd`. On a window never guarded before this
/// captures the window's procedure and the window to hand the focus back to,
/// and returns what to write to the window. On any other window it does
/// nothing and returns nothing.
pub fn install_overlay_window(
    guards: &mut WindowGuards,
    hwnd: isize,
    preferred_return_focus: Option<isize>,
    window: WindowSnapshot,
) -> (plan: Option<InstallPlan>)
    ensures
        final(guards)@ == old(guards)@.after_install(hwnd, preferred_return_focus, window),
        plan == old(guards)@.install_plan(hwnd, window),
{
    if guards.phases.contains_key(&hwnd) {
        return None;
    }
    let return_focus = match preferred_return_focus {
        Some(preferred) => preferred,
        None => window.foreground,
    };
    let record = GuardRecord { original_procedure: window.procedure, return_focus };
    guards.phases.insert(hwnd, GuardPhase::Installed(record));
    Some(
        InstallPlan {
            style: make_overlay_transparent_and_clickthrough(window.ex_style),
            show_command: SW_SHOWNOACTIVATE,
        },
    )
}

/// Takes the guard out of `hwnd` for good and returns the procedure to put
/// back; the window's style is left as it is. Where no guard is in place
/// nothing happens and nothing is returned.
pub fn uninstall_overlay_window(guards: &mut WindowGuards, hwnd: isize) -> (original_procedure: Option<isize>)
    ensures
        final(guards)@ == old(guards)@.after_uninstall(hwnd),
        original_procedure == match old(guards)@.record(hwnd) {
            Some(record) => Some(record.original_procedure),
            None => None,
        },
{
    match guards.record(hwnd) {
        Some(record) => {
            guards.phases.insert(hwnd, GuardPhase::Retired);
            Some(record.original_procedure)
        },
        None => None,
    }
}

/// The window to hand the foreground back to from `hwnd`, if its guard
/// remembered one.
pub fn return_focus(guards: &WindowGuards, hwnd: isize) -> (target: Option<isize>)
    ensures
        target == guards@.focus_target(hwnd),
{
    match guards.record(hwnd) {
        Some(record) => if record.return_focus != 0 {
            Some(record.return_focus)
        } else {
            None
        },
        None => None,
    }
}

/// Decides what is done with message `msg` sent to `hwnd`.
pub fn overlay_wndproc(guards: &WindowGuards, hwnd: isize, msg: u32, wparam: usize) -> (response: WindowResponse)
    ensures
        response == guards@.response(hwnd, message_kind(msg, wparam)),
{
    match guards.record(hwnd) {
        Some(record) => match message_policy(classify_message(msg, wparam)) {
            Policy::Suppress { result, restore_focus } => {
                let target = if restore_focus {
                    return_focus(guards, hwnd)
                } else {
                    None
                };
                WindowResponse::Handled { result, restore_focus: target }
            },
            Policy::Forward => WindowResponse::Forward {
                original_procedure: Some(record.original_procedure),
            },
        },
        None => WindowResponse::Forward { original_procedure: None },
    }
}

/// Takes a close request: says whether one was pending and leaves none
/// pending.
pub fn take_close_requested(pending: &mut bool) -> (requested: bool)
    ensures
        requested == *old(pending),
        !*final(pending),
{
    let requested = *pending;
    *pending = false;
    requested
}

/// Reads the state of the cancel key as the window system reports it: the
/// key is down exactly if the high bit of the state is set.
pub fn esc_is_down(key_state: i16) -> (down: bool)
    ensures
        down == (key_state < 0),
        down == (key_state as u16 & 0x8000 != 0),
{
    assert((key_state < 0) == (key_state as u16 & 0x8000 != 0)) by (bit_vector);
    key_state < 0
}

} // verus!
