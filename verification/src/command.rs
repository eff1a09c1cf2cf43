//! Commands the engine hands to the host program.
//!
//! The engine never touches the window service itself. Each decision
//! function returns a sequence of commands; the host carries them out in
//! order against the service, keeping a small fixed delay between posted
//! input events so a receiving window's queue is not overwhelmed.

use vstd::prelude::*;

use crate::geometry::Rect;
use crate::keys::Key;

verus! {

/// One action the host must carry out against the window service.
#[derive(Clone, Copy, PartialEq, Eq, Structural, Debug)]
pub enum Command {
    /// Post a synthetic key event to the window `target`.
    /// `down` selects key-down or key-up; `prev_down` is the previous
    /// key-state flag of the event (set on repeats and on every key-up).
    PostKey { target: usize, code: Key, down: bool, prev_down: bool },
    /// Post a synthetic left-button event at client coordinates (`x`, `y`).
    PostMouse { target: usize, x: u16, y: u16, down: bool },
    /// Move and resize the window `target`.
    MoveWindow { target: usize, rect: Rect },
    /// Remove the caption and resize chrome of the window `target`.
    StripChrome { target: usize },
    /// Pin the window above all others, or return it to the normal band.
    SetZOrder { target: usize, topmost: bool },
    /// Give the window the input focus.
    SetForeground { target: usize },
}

/// The previous-key-state flag of a posted key event, as the window
/// service's message encoding carries it.
pub const KEY_FLAG_PREV_DOWN: u32 = 0x4000;

/// The extra-information word of a posted key event: the key code in the
/// high half, and the previous-key-state flag when `prev_down` is set.
pub open spec fn key_event_param_spec(code: Key, prev_down: bool) -> u32 {
    (code.code as u32 * 0x10000 + if prev_down {
        KEY_FLAG_PREV_DOWN as u32
    } else {
        0
    }) as u32
}

/// Packs the extra-information word of a posted key event.
pub fn key_event_param(code: Key, prev_down: bool) -> (r: u32)
    ensures
        r == key_event_param_spec(code, prev_down),
{
    let base: u32 = code.code as u32 * 0x10000;
    if prev_down {
        base + KEY_FLAG_PREV_DOWN
    } else {
        base
    }
}

/// The extra-information word of a posted mouse event: the y coordinate in
/// the high half, the x coordinate in the low half.
pub open spec fn mouse_event_param_spec(x: u16, y: u16) -> u32 {
    (y as u32 * 0x10000 + x as u32) as u32
}

/// Packs the extra-information word of a posted mouse event.
pub fn mouse_event_param(x: u16, y: u16) -> (r: u32)
    ensures
        r == mouse_event_param_spec(x, y),
{
    y as u32 * 0x10000 + x as u32
}

} // verus!
