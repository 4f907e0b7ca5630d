//! The digital joypad's reply sequence: 01h (address), 42h (read) answered by the ID bytes
//! 41h, 5Ah, then the two button bytes (active low) from the frontend's input.
use vstd::prelude::*;
use crate::sio0::sio_device::SioDevice;

verus! {

/// The joypad buttons.
#[derive(Debug, Clone, Copy, PartialEq, Eq, Structural)]
pub enum JoypadButton {
    Select,
    L3,
    R3,
    Start,
    Up,
    Right,
    Down,
    Left,
    L2,
    R2,
    L1,
    R1,
    Triangle,
    Circle,
    Cross,
    Square,
}

/// Bit position of a button in the 16-bit button state.
pub open spec fn button_index(b: JoypadButton) -> u16 {
    match b {
        JoypadButton::Select => 0,
        JoypadButton::L3 => 1,
        JoypadButton::R3 => 2,
        JoypadButton::Start => 3,
        JoypadButton::Up => 4,
        JoypadButton::Right => 5,
        JoypadButton::Down => 6,
        JoypadButton::Left => 7,
        JoypadButton::L2 => 8,
        JoypadButton::R2 => 9,
        JoypadButton::L1 => 10,
        JoypadButton::R1 => 11,
        JoypadButton::Triangle => 12,
        JoypadButton::Circle => 13,
        JoypadButton::Cross => 14,
        JoypadButton::Square => 15,
    }
}

impl JoypadButton {
    /// The button's bit in the button state.
    pub fn mask(self) -> (r: u16)
        ensures r == 1u16 << button_index(self),
    {
        let i: u16 = match self {
            JoypadButton::Select => 0,
            JoypadButton::L3 => 1,
            JoypadButton::R3 => 2,
            JoypadButton::Start => 3,
            JoypadButton::Up => 4,
            JoypadButton::Right => 5,
            JoypadButton::Down => 6,
            JoypadButton::Left => 7,
            JoypadButton::L2 => 8,
            JoypadButton::R2 => 9,
            JoypadButton::L1 => 10,
            JoypadButton::R1 => 11,
            JoypadButton::Triangle => 12,
            JoypadButton::Circle => 13,
            JoypadButton::Cross => 14,
            JoypadButton::Square => 15,
        };
        1u16 << i
    }
}

/// The button state of a controller (bit clear = pressed); supplied by the frontend.
pub trait InputProvider {
    fn get_joypad_state(&self) -> u16;
}

#[derive(Debug, Clone, Copy, PartialEq, Eq, Structural)]
pub enum JoyPadState {
    /// Waiting for the address byte 01h.
    Idle,
    /// Waiting for the read command 42h.
    Command,
    IdHi,
    Buttons1,
    Buttons2,
}

pub struct Joypad {
    pub fsm: JoyPadState,
    pub input: Box<dyn InputProvider>,
    pub selected: bool,
}

impl Joypad {
    pub fn new(input: Box<dyn InputProvider>) -> (r: Self)
        ensures r.fsm == JoyPadState::Idle, !r.selected,
    {
        Self { fsm: JoyPadState::Idle, input, selected: false }
    }

    /// One byte of the exchange. The reply is FFh (to the address), 41h, 5Ah, then the low
    /// and high button bytes; the acknowledge is dropped after the last byte or a wrong
    /// address or command byte.
    pub open spec fn exchange_spec(self, byte: u8, post: Self, r: (u8, bool)) -> bool {
        &&& post.selected == self.selected
        &&& post.input == self.input
        &&& match self.fsm {
            JoyPadState::Idle => r == (0xFFu8, byte == 0x01)
                && post.fsm == (if byte == 0x01 { JoyPadState::Command } else { JoyPadState::Idle }),
            JoyPadState::Command => r == (0x41u8, byte == 0x42)
                && post.fsm == (if byte == 0x42 { JoyPadState::IdHi } else { JoyPadState::Idle }),
            JoyPadState::IdHi => r == (0x5Au8, true) && post.fsm == JoyPadState::Buttons1,
            JoyPadState::Buttons1 => r.1 && post.fsm == JoyPadState::Buttons2,
            JoyPadState::Buttons2 => !r.1 && post.fsm == JoyPadState::Idle,
        }
    }

    /// The pad after a reset: waiting for its address byte.
    pub open spec fn after_reset(self) -> Self {
        Joypad { fsm: JoyPadState::Idle, ..self }
    }

    pub fn exchange_byte(&mut self, byte: u8) -> (r: (u8, bool))
        ensures
            old(self).exchange_spec(byte, *final(self), r),
    {
        match self.fsm {
            JoyPadState::Idle => {
                let dsr = byte == 0x01;
                self.fsm = if dsr { JoyPadState::Command } else { JoyPadState::Idle };
                (0xFF, dsr)
            },
            JoyPadState::Command => {
                let dsr = byte == 0x42;
                self.fsm = if dsr { JoyPadState::IdHi } else { JoyPadState::Idle };
                (0x41, dsr)
            },
            JoyPadState::IdHi => {
                self.fsm = JoyPadState::Buttons1;
                (0x5A, true)
            },
            JoyPadState::Buttons1 => {
                let buttons = self.input.get_joypad_state();
                self.fsm = JoyPadState::Buttons2;
                ((buttons & 0xFF) as u8, true)
            },
            JoyPadState::Buttons2 => {
                let buttons = self.input.get_joypad_state();
                self.fsm = JoyPadState::Idle;
                ((buttons >> 8u16) as u8, false)
            },
        }
    }
}

impl SioDevice for Joypad {
    open spec fn inv(&self) -> bool {
        true
    }

    fn exchange(&mut self, byte: u8) -> (u8, bool) {
        self.exchange_byte(byte)
    }

    fn reset(&mut self)
        ensures
            *final(self) == old(self).after_reset(),
    {
        self.fsm = JoyPadState::Idle;
    }

    fn is_selected(&self) -> bool {
        self.selected
    }

    fn set_selected(&mut self, selected: bool) {
        self.selected = selected;
    }
}

} // verus!
