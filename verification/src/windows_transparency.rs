//! The extended window style of the overlay: layered, click-through, kept off
//! the taskbar, never activated, always on top. The functions here work on
//! the style bits; reading them from a window and writing them back is the
//! caller's part.

use vstd::prelude::*;

verus! {

/// The window stays above all windows that are not topmost.
pub const WS_EX_TOPMOST: u32 = 0x0000_0008;

/// The window lets pointer input through to what lies beneath it.
pub const WS_EX_TRANSPARENT: u32 = 0x0000_0020;

/// The window is a tool window: it has no entry in the taskbar.
pub const WS_EX_TOOLWINDOW: u32 = 0x0000_0080;

/// The window is composed as a layer, with its own alpha.
pub const WS_EX_LAYERED: u32 = 0x0008_0000;

/// The window does not become the foreground window when it is clicked.
pub const WS_EX_NOACTIVATE: u32 = 0x0800_0000;

/// The five style bits of an overlay together.
pub const OVERLAY_EX_STYLE: u32 = 0x0808_00a8;

/// Layered alpha of a window that is fully opaque as a whole, so that the
/// alpha of each pixel alone decides what shows through.
pub const OPAQUE_ALPHA: u8 = 255;

/// Keep the window's size when repositioning it.
pub const SWP_NOSIZE: u32 = 0x0001;

/// Keep the window's place when repositioning it.
pub const SWP_NOMOVE: u32 = 0x0002;

/// Do not activate the window when repositioning it.
pub const SWP_NOACTIVATE: u32 = 0x0010;

/// Show the window when repositioning it.
pub const SWP_SHOWWINDOW: u32 = 0x0040;

/// The flags with which an overlay is raised: the four above together.
pub const RAISE_FLAGS: u32 = 0x0053;

/// What is to be written to a window to make it an overlay.
#[derive(Debug, Clone, Copy, PartialEq, Eq, Structural)]
pub struct OverlayStyle {
    /// The extended style bits to set.
    pub ex_style: u32,
    /// The alpha of the whole layer.
    pub alpha: u8,
    /// The flags with which to raise the window to the top.
    pub raise_flags: u32,
}

/// `ex_style` with the five overlay bits set and the others as they were.
pub open spec fn with_overlay_style(ex_style: u32) -> u32 {
    ex_style | 0x0808_00a8u32
}

/// `ex_style` with the click-through bit set or cleared and the others as
/// they were.
pub open spec fn with_click_through(ex_style: u32, click_through: bool) -> u32 {
    if click_through {
        ex_style | 0x0000_0020u32
    } else {
        ex_style & !0x0000_0020u32
    }
}

/// Whether `ex_style` has every bit of `flag` set.
pub open spec fn has_style(ex_style: u32, flag: u32) -> bool {
    ex_style & flag == flag
}

/// Says what to write to a window whose extended style is `ex_style` to make
/// it a transparent, click-through overlay on top of everything: the style
/// with the overlay bits added, a fully opaque layer, and the flags that raise
/// it without activating, moving or resizing it.
pub fn make_overlay_transparent_and_clickthrough(ex_style: u32) -> (style: OverlayStyle)
    ensures
        style.ex_style == with_overlay_style(ex_style),
        style.alpha == 255,
        style.raise_flags == 0x0053,
{
    let new_ex_style = ex_style | WS_EX_LAYERED | WS_EX_TRANSPARENT | WS_EX_TOOLWINDOW
        | WS_EX_NOACTIVATE | WS_EX_TOPMOST;
    assert(ex_style | 0x0008_0000u32 | 0x0000_0020u32 | 0x0000_0080u32 | 0x0800_0000u32
        | 0x0000_0008u32 == ex_style | 0x0808_00a8u32) by (bit_vector);
    let raise_flags = SWP_NOMOVE | SWP_NOSIZE | SWP_NOACTIVATE | SWP_SHOWWINDOW;
    assert(0x0002u32 | 0x0001u32 | 0x0010u32 | 0x0040u32 == 0x0053u32) by (bit_vector);
    OverlayStyle { ex_style: new_ex_style, alpha: OPAQUE_ALPHA, raise_flags }
}

/// The same as `make_overlay_transparent_and_clickthrough`, under its older
/// name.
pub fn enable_window_transparency(ex_style: u32) -> (style: OverlayStyle)
    ensures
        style.ex_style == with_overlay_style(ex_style),
        style.alpha == 255,
        style.raise_flags == 0x0053,
{
    make_overlay_transparent_and_clickthrough(ex_style)
}

/// Gives the extended style to write to a window whose style is `ex_style` so
/// that it does, or does not, let pointer input through.
pub fn set_click_through(ex_style: u32, click_through: bool) -> (new_ex_style: u32)
    ensures
        new_ex_style == with_click_through(ex_style, click_through),
{
    if click_through {
        ex_style | WS_EX_TRANSPARENT
    } else {
        ex_style & !WS_EX_TRANSPARENT
    }
}

/// Picks the window to make an overlay of: the one found by its title, or
/// failing that the foreground window, or none if both handles are null.
pub fn choose_overlay_window(found_by_title: isize, foreground: isize) -> (window: Option<isize>)
    ensures
        found_by_title != 0 ==> window == Some(found_by_title),
        found_by_title == 0 && foreground != 0 ==> window == Some(foreground),
        found_by_title == 0 && foreground == 0 ==> window is None,
{
    if found_by_title != 0 {
        Some(found_by_title)
    } else if foreground != 0 {
        Some(foreground)
    } else {
        None
    }
}

/// The overlay style holds each of the five bits, changes no other bit, and
/// applying it a second time changes nothing.
pub proof fn lemma_overlay_style_sets_five_bits(ex_style: u32)
    ensures
        has_style(with_overlay_style(ex_style), 0x0000_0008),
        has_style(with_overlay_style(ex_style), 0x0000_0020),
        has_style(with_overlay_style(ex_style), 0x0000_0080),
        has_style(with_overlay_style(ex_style), 0x0008_0000),
        has_style(with_overlay_style(ex_style), 0x0800_0000),
        with_overlay_style(ex_style) & !0x0808_00a8u32 == ex_style & !0x0808_00a8u32,
        with_overlay_style(with_overlay_style(ex_style)) == with_overlay_style(ex_style),
{
    let styled = ex_style | 0x0808_00a8u32;
    assert(styled & 0x0000_0008u32 == 0x0000_0008u32) by (bit_vector)
        requires
            styled == ex_style | 0x0808_00a8u32,
    ;
    assert(styled & 0x0000_0020u32 == 0x0000_0020u32) by (bit_vector)
        requires
            styled == ex_style | 0x0808_00a8u32,
    ;
    assert(styled & 0x0000_0080u32 == 0x0000_0080u32) by (bit_vector)
        requires
            styled == ex_style | 0x0808_00a8u32,
    ;
    assert(styled & 0x0008_0000u32 == 0x0008_0000u32) by (bit_vector)
        requires
            styled == ex_style | 0x0808_00a8u32,
    ;
    assert(styled & 0x0800_0000u32 == 0x0800_0000u32) by (bit_vector)
        requires
            styled == ex_style | 0x0808_00a8u32,
    ;
    assert(styled & !0x0808_00a8u32 == ex_style & !0x0808_00a8u32) by (bit_vector)
        requires
            styled == ex_style | 0x0808_00a8u32,
    ;
    assert(styled | 0x0808_00a8u32 == styled) by (bit_vector)
        requires
            styled == ex_style | 0x0808_00a8u32,
    ;
}

/// Switching click-through sets or clears its one bit and leaves every other
/// bit alone; the last switch wins.
pub proof fn lemma_click_through_is_one_bit(ex_style: u32, first: bool, second: bool)
    ensures
        has_style(with_click_through(ex_style, first), 0x0000_0020) <==> first,
        with_click_through(ex_style, first) & !0x0000_0020u32 == ex_style & !0x0000_0020u32,
        with_click_through(with_click_through(ex_style, first), second) == with_click_through(
            ex_style,
            second,
        ),
{
    let on = ex_style | 0x0000_0020u32;
    let off = ex_style & !0x0000_0020u32;
    assert(on & 0x0000_0020u32 == 0x0000_0020u32 && off & 0x0000_0020u32 != 0x0000_0020u32 && on
        & !0x0000_0020u32 == ex_style & !0x0000_0020u32 && off & !0x0000_0020u32 == ex_style
        & !0x0000_0020u32 && on | 0x0000_0020u32 == on && off | 0x0000_0020u32 == on && on
        & !0x0000_0020u32 == off && off & !0x0000_0020u32 == off) by (bit_vector)
        requires
            on == ex_style | 0x0000_0020u32,
            off == ex_style & !0x0000_0020u32,
    ;
}

} // verus!
