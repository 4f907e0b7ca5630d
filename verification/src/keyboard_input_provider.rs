//! The joypad state driven by a keyboard: a pressed key clears its button's bit, a released
//! key sets it again (the button state is active low).
use vstd::prelude::*;
use crate::sio0::joypad::{JoypadButton, button_index};

verus! {

/// The 16 button bits, all set (released) at first.
#[derive(Debug, Clone, Copy)]
pub struct KeyboardState {
    pub bits: u16,
}

impl KeyboardState {
    pub fn new() -> (r: Self)
        ensures
            r.bits == 0xFFFF,
    {
        Self { bits: 0xFFFF }
    }

    pub fn key_pressed(&mut self, button: JoypadButton)
        ensures
            final(self).bits == old(self).bits & !(1u16 << button_index(button)),
    {
        self.bits = self.bits & !button.mask();
    }

    pub fn key_released(&mut self, button: JoypadButton)
        ensures
            final(self).bits == old(self).bits | (1u16 << button_index(button)),
    {
        self.bits = self.bits | button.mask();
    }

    /// The state as the joypad reports it.
    pub fn joypad_state(&self) -> (r: u16)
        ensures
            r == self.bits,
    {
        self.bits
    }
}

/// Pressing then releasing a button restores its bit and leaves the other buttons as
/// they were.
pub proof fn lemma_press_release(bits: u16, button: JoypadButton)
    ensures
        ({
            let m = 1u16 << button_index(button);
            ((bits & !m) | m) == (bits | m)
        }),
{
    let m = 1u16 << button_index(button);
    assert(((bits & !m) | m) == (bits | m)) by (bit_vector);
}

} // verus!
