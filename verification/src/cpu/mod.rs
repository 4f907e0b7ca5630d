//! The MIPS R3000A CPU state: general purpose registers, PC, HI/LO, load delay slots and the
//! two coprocessors (system control and GTE).
use vstd::prelude::*;

pub mod cop0;
pub mod gte;
pub mod gte_div;
pub mod gte_flags;
pub mod ir;

use cop0::{Cop0, Cop0Register, cop0_index_valid};
use gte::{Gte, GteRegister};

verus! {

/// One of the 32 general purpose registers.
#[derive(Debug, Clone, Copy)]
pub struct MipsRegister(pub u8);

/// The CPU state.
pub struct Cpu {
    pub registers: [u32; 32],
    pub pc: u32,
    pub next_pc: u32,
    pub current_pc: u32,
    pub hi: u32,
    pub lo: u32,
    pub cop0: Cop0,
    pub gte: Gte,
    pub in_delay_slot: bool,
    /// Pending load committed at the start of the next step.
    pub load_delay: Option<(MipsRegister, u32)>,
    /// Pending load committed one step later.
    pub next_load_delay: Option<(MipsRegister, u32)>,
}

/// A pending load targets a real register.
pub open spec fn delay_ok(d: Option<(MipsRegister, u32)>) -> bool {
    match d {
        Some((r, _)) => r.0 < 32,
        None => true,
    }
}

/// The register file after writing `value` to `reg`; writes to register 0 are discarded.
pub open spec fn reg_write(regs: Seq<u32>, reg: u8, value: u32) -> Seq<u32> {
    if reg == 0 {
        regs
    } else {
        regs.update(reg as int, value)
    }
}

impl Cpu {
    /// Register 0 reads as zero and pending loads name real registers.
    pub open spec fn wf(&self) -> bool {
        &&& self.registers@[0] == 0
        &&& self.gte.wf()
        &&& delay_ok(self.load_delay)
        &&& delay_ok(self.next_load_delay)
    }

    /// Power-on state: PC at the BIOS entry point, everything else zero.
    pub fn new() -> (r: Self)
        ensures
            r.wf(),
            r.pc == 0xBFC0_0000,
            r.next_pc == 0xBFC0_0004,
            r.current_pc == 0xBFC0_0000,
            forall|i: int| 0 <= i < 32 ==> r.registers@[i] == 0,
            r.hi == 0 && r.lo == 0,
            !r.in_delay_slot,
            r.load_delay is None && r.next_load_delay is None,
    {
        Self {
            registers: [0; 32],
            pc: 0xBFC0_0000,
            next_pc: 0xBFC0_0004,
            current_pc: 0xBFC0_0000,
            hi: 0,
            lo: 0,
            cop0: Cop0::new(),
            gte: Gte::new(),
            in_delay_slot: false,
            load_delay: None,
            next_load_delay: None,
        }
    }

    pub fn read_reg(&self, reg: MipsRegister) -> (r: u32)
        requires
            reg.0 < 32,
        ensures
            r == self.registers@[reg.0 as int],
    {
        self.registers[reg.0 as usize]
    }

    /// Write a register; register 0 is hardwired to zero and ignores writes.
    pub fn write_reg(&mut self, reg: MipsRegister, value: u32)
        requires
            reg.0 < 32,
        ensures
            final(self).registers@ == reg_write(old(self).registers@, reg.0, value),
            final(self).pc == old(self).pc,
            final(self).next_pc == old(self).next_pc,
            final(self).current_pc == old(self).current_pc,
            final(self).hi == old(self).hi,
            final(self).lo == old(self).lo,
            final(self).cop0 == old(self).cop0,
            final(self).gte == old(self).gte,
            final(self).in_delay_slot == old(self).in_delay_slot,
            final(self).load_delay == old(self).load_delay,
            final(self).next_load_delay == old(self).next_load_delay,
    {
        if reg.0 != 0 {
            self.registers[reg.0 as usize] = value;
        }
        proof {
            assert(self.registers@ =~= reg_write(old(self).registers@, reg.0, value));
        }
    }

    /// The value of `reg` as seen by a following load: the newest pending load wins, then the
    /// older one, then the register file.
    pub fn read_reg_or_pending(&self, reg: MipsRegister) -> (r: u32)
        requires
            reg.0 < 32,
        ensures
            r == (match self.next_load_delay {
                Some((p, v)) if p.0 == reg.0 => v,
                _ => match self.load_delay {
                    Some((p, v)) if p.0 == reg.0 => v,
                    _ => self.registers@[reg.0 as int],
                },
            }),
    {
        if let Some((pending_reg, val)) = self.next_load_delay {
            if pending_reg.0 == reg.0 {
                return val;
            }
        }
        if let Some((pending_reg, val)) = self.load_delay {
            if pending_reg.0 == reg.0 {
                return val;
            }
        }
        self.read_reg(reg)
    }

    pub fn pc(&self) -> (r: u32)
        ensures r == self.pc,
    {
        self.pc
    }

    pub fn set_pc(&mut self, value: u32)
        ensures
            *final(self) == (Cpu { pc: value, ..*old(self) }),
    {
        self.pc = value;
    }

    pub fn next_pc(&self) -> (r: u32)
        ensures r == self.next_pc,
    {
        self.next_pc
    }

    pub fn set_next_pc(&mut self, value: u32)
        ensures
            *final(self) == (Cpu { next_pc: value, ..*old(self) }),
    {
        self.next_pc = value;
    }

    pub fn current_pc(&self) -> (r: u32)
        ensures r == self.current_pc,
    {
        self.current_pc
    }

    pub fn set_current_pc(&mut self, value: u32)
        ensures
            *final(self) == (Cpu { current_pc: value, ..*old(self) }),
    {
        self.current_pc = value;
    }

    pub fn hi(&self) -> (r: u32)
        ensures r == self.hi,
    {
        self.hi
    }

    pub fn set_hi(&mut self, value: u32)
        ensures
            *final(self) == (Cpu { hi: value, ..*old(self) }),
    {
        self.hi = value;
    }

    pub fn lo(&self) -> (r: u32)
        ensures r == self.lo,
    {
        self.lo
    }

    pub fn set_lo(&mut self, value: u32)
        ensures
            *final(self) == (Cpu { lo: value, ..*old(self) }),
    {
        self.lo = value;
    }

    pub fn read_cop0(&self, reg: Cop0Register) -> (r: u32)
        requires
            cop0_index_valid(reg.0),
        ensures
            r == self.cop0.value(reg.0),
    {
        self.cop0.read(reg.0)
    }

    pub fn write_cop0(&mut self, reg: Cop0Register, value: u32)
        requires
            cop0_index_valid(reg.0),
        ensures
            final(self).cop0.value(reg.0) == value,
            forall|other: u8|
                cop0_index_valid(other) && other != reg.0 ==> final(self).cop0.value(other)
                    == old(self).cop0.value(other),
            *final(self) == (Cpu { cop0: final(self).cop0, ..*old(self) }),
    {
        self.cop0.write(reg.0, value);
    }

    pub fn read_gte(&self, reg: GteRegister) -> (r: u32)
        requires
            reg.0 < 64,
        ensures
            r == self.gte.register_value(reg.0),
    {
        self.gte.read_register(reg)
    }

    pub fn write_gte(&mut self, reg: GteRegister, value: u32)
        requires
            reg.0 < 64,
        ensures
            final(self).gte.data@ == old(self).gte.data_after_write(reg.0, value),
            final(self).gte.control@ == old(self).gte.control_after_write(reg.0, value),
            *final(self) == (Cpu { gte: final(self).gte, ..*old(self) }),
    {
        self.gte.write_register(reg, value);
    }

    /// Run a GTE command; only the GTE changes.
    pub fn execute_gte(&mut self, command: u32)
        requires
            old(self).wf(),
        ensures
            final(self).wf(),
            *final(self) == (Cpu { gte: final(self).gte, ..*old(self) }),
            final(self).gte.control@.subrange(0, 31) == old(self).gte.control@.subrange(0, 31),
    {
        self.gte.execute_command(command);
    }

    /// `post` is this CPU with the older pending load written to its register and the newer
    /// one moved into its place.
    pub open spec fn load_delay_committed(self, post: Cpu) -> bool {
        &&& post.registers@ == (match self.load_delay {
            Some((r, v)) => reg_write(self.registers@, r.0, v),
            None => self.registers@,
        })
        &&& post.load_delay == self.next_load_delay
        &&& post.next_load_delay is None
        &&& post == (Cpu {
            registers: post.registers,
            load_delay: post.load_delay,
            next_load_delay: post.next_load_delay,
            ..self
        })
    }

    /// `post` is this CPU with a load of `val` into `reg` scheduled: it becomes the newer
    /// pending load, and an older pending load to the same register is cancelled. Loads to
    /// register 0 are discarded.
    pub open spec fn load_delay_set(self, post: Cpu, reg: MipsRegister, val: u32) -> bool {
        &&& reg.0 == 0 ==> post == self
        &&& reg.0 != 0 ==> post.next_load_delay == Some((reg, val))
        &&& reg.0 != 0 ==> post.load_delay == (match self.load_delay {
            Some((p, _)) if p.0 == reg.0 => None,
            other => other,
        })
        &&& post == (Cpu {
            load_delay: post.load_delay,
            next_load_delay: post.next_load_delay,
            ..self
        })
    }

    /// A load is seen one instruction late: after it is scheduled, the next commit (at the
    /// start of the following instruction, its delay slot) leaves the register as it was, and
    /// the commit after that writes the loaded value.
    pub proof fn lemma_load_delay_slot(c0: Cpu, c1: Cpu, c2: Cpu, c3: Cpu, reg: MipsRegister, val: u32)
        requires
            c0.wf(),
            0 < reg.0 < 32,
            c0.load_delay_set(c1, reg, val),
            c1.load_delay_committed(c2),
            c2.load_delay_committed(c3),
        ensures
            c2.registers@[reg.0 as int] == c0.registers@[reg.0 as int],
            c3.registers@[reg.0 as int] == val,
    {
    }

    /// Commit the older pending load to its register and move the newer one into its place.
    pub fn commit_load_delay(&mut self)
        requires
            old(self).wf(),
        ensures
            final(self).wf(),
            old(self).load_delay_committed(*final(self)),
    {
        if let Some((reg, value)) = self.load_delay.take() {
            self.write_reg(reg, value);
        }
        self.load_delay = self.next_load_delay.take();
    }

    /// Schedule a load of `val` into `reg`, visible after the next instruction. A pending commit
    /// to the same register is cancelled; loads to register 0 are discarded.
    pub fn set_load_delay(&mut self, reg: MipsRegister, val: u32)
        requires
            old(self).wf(),
            reg.0 < 32,
        ensures
            final(self).wf(),
            old(self).load_delay_set(*final(self), reg, val),
    {
        if reg.0 == 0 {
            return;
        }
        if let Some((pending_reg, _)) = self.load_delay {
            if pending_reg.0 == reg.0 {
                self.load_delay = None;
            }
        }
        self.next_load_delay = Some((reg, val));
    }

    pub fn in_delay_slot(&self) -> (r: bool)
        ensures r == self.in_delay_slot,
    {
        self.in_delay_slot
    }

    pub fn set_in_delay_slot(&mut self, value: bool)
        ensures
            *final(self) == (Cpu { in_delay_slot: value, ..*old(self) }),
    {
        self.in_delay_slot = value;
    }
}

/// Register 0 always reads as zero, whatever is written to any register.
pub proof fn lemma_r0_stays_zero(regs: Seq<u32>, reg: u8, value: u32)
    requires
        regs.len() == 32,
        regs[0] == 0,
        reg < 32,
    ensures
        reg_write(regs, reg, value)[0] == 0,
{
}

/// A write to a nonzero register is read back, and leaves every other register unchanged.
pub proof fn lemma_reg_read_after_write(regs: Seq<u32>, reg: u8, value: u32, other: u8)
    requires
        regs.len() == 32,
        0 < reg < 32,
        other < 32,
    ensures
        reg_write(regs, reg, value)[reg as int] == value,
        other != reg ==> reg_write(regs, reg, value)[other as int] == regs[other as int],
{
}

} // verus!
