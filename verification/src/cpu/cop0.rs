//! Coprocessor 0 (system control): status, cause and exception PC registers.
use vstd::prelude::*;

verus! {

/// Index of a coprocessor 0 register.
#[derive(Debug, Clone, Copy)]
pub struct Cop0Register(pub u8);

/// The coprocessor 0 registers used on the console: SR (12), CAUSE (13) and EPC (14).
pub struct Cop0 {
    pub sr: u32,
    pub cause: u32,
    pub epc: u32,
}

/// Register indices that coprocessor 0 implements.
pub open spec fn cop0_index_valid(reg: u8) -> bool {
    12 <= reg <= 14
}

impl Cop0 {
    /// The value of register `reg` (12 = SR, 13 = CAUSE, 14 = EPC).
    pub open spec fn value(&self, reg: u8) -> u32 {
        if reg == 12 {
            self.sr
        } else if reg == 13 {
            self.cause
        } else {
            self.epc
        }
    }

    pub fn new() -> (r: Self)
        ensures
            r.sr == 0 && r.cause == 0 && r.epc == 0,
    {
        Self { sr: 0, cause: 0, epc: 0 }
    }

    pub fn read(&self, reg: u8) -> (r: u32)
        requires
            cop0_index_valid(reg),
        ensures
            r == self.value(reg),
    {
        match reg {
            12 => self.sr,
            13 => self.cause,
            _ => self.epc,
        }
    }

    pub fn write(&mut self, reg: u8, value: u32)
        requires
            cop0_index_valid(reg),
        ensures
            final(self).value(reg) == value,
            forall|other: u8|
                cop0_index_valid(other) && other != reg ==> final(self).value(other) == old(
                    self,
                ).value(other),
    {
        match reg {
            12 => self.sr = value,
            13 => self.cause = value,
            _ => self.epc = value,
        }
    }
}

} // verus!
