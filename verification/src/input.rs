//! Button input and press-edge detection.
//!
//! The host supplies a debounced button bitmask for the current and the
//! previous frame; the core only ever derives rising edges from the pair.

use vstd::prelude::*;

verus! {

/// A bitmask of buttons. The bit values deliberately match the layout of
/// the NES input register.
pub type ButtonMask = u8;

pub const BUTTON_A: ButtonMask = 0x01;

pub const BUTTON_B: ButtonMask = 0x02;

pub const BUTTON_SELECT: ButtonMask = 0x04;

pub const BUTTON_START: ButtonMask = 0x08;

pub const BUTTON_UP: ButtonMask = 0x10;

pub const BUTTON_DOWN: ButtonMask = 0x20;

pub const BUTTON_LEFT: ButtonMask = 0x40;

pub const BUTTON_RIGHT: ButtonMask = 0x80;

/// Whether every button of `buttons` is held in `mask`.
pub open spec fn mask_contains(mask: ButtonMask, buttons: ButtonMask) -> bool {
    mask & buttons == buttons
}

/// The current and previous frame's button bitmasks.
#[derive(Clone, Copy, PartialEq, Eq, Structural)]
pub struct Input {
    pub gamepad: ButtonMask,
    pub previous_gamepad: ButtonMask,
}

/// Whether `buttons` is a rising edge: not fully held last frame, fully
/// held this frame (a subset test on each mask, not an equality).
pub open spec fn spec_pressed_this_frame(input: Input, buttons: ButtonMask) -> bool {
    !mask_contains(input.previous_gamepad, buttons) && mask_contains(input.gamepad, buttons)
}

impl Input {
    /// An input with no button held on either frame.
    pub fn new() -> (input: Input)
        ensures
            input.gamepad == 0,
            input.previous_gamepad == 0,
    {
        Input { gamepad: 0, previous_gamepad: 0 }
    }

    /// True exactly on the frame `buttons` goes from not fully held to
    /// fully held.
    pub fn pressed_this_frame(&self, buttons: ButtonMask) -> (r: bool)
        ensures
            r == spec_pressed_this_frame(*self, buttons),
    {
        !(self.previous_gamepad & buttons == buttons) && (self.gamepad & buttons == buttons)
    }
}

/// Edge triggering: a combination already held last frame never reports a
/// press, and a press is reported exactly on the frame the combination
/// goes from not fully held to fully held.
pub proof fn lemma_edge_trigger(input: Input, buttons: ButtonMask)
    ensures
        mask_contains(input.previous_gamepad, buttons) ==> !spec_pressed_this_frame(
            input,
            buttons,
        ),
        spec_pressed_this_frame(input, buttons) <==> (!mask_contains(
            input.previous_gamepad,
            buttons,
        ) && mask_contains(input.gamepad, buttons)),
{
}

} // verus!
