//! Emulator core for the PlayStation: CPU, GTE, memory map and peripherals.
use vstd::prelude::*;

pub mod bits;
pub mod bytes;
pub mod bios;
pub mod ram;
pub mod scratchpad;
pub mod memory_map;
pub mod interrupt_controller;
pub mod scheduler;
pub mod cpu;
pub mod timers;
pub mod dma;
pub mod gpu;
pub mod cd_rom;
pub mod mdec;
pub mod sio0;
pub mod spu;
pub mod xadpcm;
pub mod system_bus;
pub mod interpreter;
pub mod backend;
pub mod wav_backend;
pub mod keyboard_input_provider;

use crate::backend::Backend;
use crate::bios::Bios;
use crate::bytes::le32;
use crate::cd_rom::{CueError, DiscSource};
use crate::cpu::{Cpu, MipsRegister, reg_write};
use crate::gpu::GpuBackend;
use crate::interpreter::ExecError;
use crate::scheduler::CYCLE_LIMIT;
use crate::sio0::joypad::InputProvider;
use crate::spu::SpuBackend;
use crate::system_bus::{AccessWidth, SystemBus, write_ok};

verus! {

/// Why a PS-X EXE image was refused.
#[derive(Debug, Clone, Copy, PartialEq, Eq, Structural)]
pub enum ExeError {
    /// The image is shorter than its header, or than the code its header announces.
    Truncated,
    /// The image does not start with "PS-X EXE" (or "PS-x EXE").
    BadMagic,
}

/// The 32-bit little-endian header field at `o`.
pub open spec fn exe_field(data: Seq<u8>, o: int) -> u32 {
    le32(data, o)
}

/// The first eight bytes spell "PS-X EXE" or "PS-x EXE".
pub open spec fn exe_magic_ok(data: Seq<u8>) -> bool {
    &&& data.len() >= 8
    &&& data[0] == 0x50u8 && data[1] == 0x53u8 && data[2] == 0x2Du8
    &&& (data[3] == 0x58u8 || data[3] == 0x78u8)
    &&& data[4] == 0x20u8 && data[5] == 0x45u8 && data[6] == 0x58u8 && data[7] == 0x45u8
}

/// The image is accepted: the magic, the 38h-byte header, and the code after the 800h-byte
/// header page as long as the header's file size.
pub open spec fn exe_ok(data: Seq<u8>) -> bool {
    &&& exe_magic_ok(data)
    &&& data.len() >= 0x38
    &&& data.len() >= 0x800 + exe_field(data, 0x1C)
}

/// The little-endian header word at byte `o`.
fn read_exe_field(exe_data: &[u8], o: usize) -> (r: u32)
    requires
        o + 4 <= exe_data@.len(),
    ensures
        r == exe_field(exe_data@, o as int),
{
    (exe_data[o] as u32) | ((exe_data[o + 1] as u32) << 8u32) | ((exe_data[o + 2] as u32) << 16u32)
        | ((exe_data[o + 3] as u32) << 24u32)
}

/// Check a PS-X EXE image before loading it: `Truncated` when it is shorter than its
/// magic, its header or the code its header announces, `BadMagic` when it does not start
/// with "PS-X EXE" (or "PS-x EXE").
pub fn check_exe(exe_data: &[u8]) -> (r: Result<(), ExeError>)
    ensures
        r is Ok <==> exe_ok(exe_data@),
        !exe_magic_ok(exe_data@) && exe_data@.len() >= 8 ==> r == Err::<(), ExeError>(ExeError::BadMagic),
        exe_data@.len() < 8 || (exe_magic_ok(exe_data@) && !exe_ok(exe_data@)) ==> r == Err::<(), ExeError>(ExeError::Truncated),
{
    if exe_data.len() < 8 {
        return Err(ExeError::Truncated);
    }
    let magic_ok = exe_data[0] == 0x50 && exe_data[1] == 0x53 && exe_data[2] == 0x2D
        && (exe_data[3] == 0x58 || exe_data[3] == 0x78) && exe_data[4] == 0x20
        && exe_data[5] == 0x45 && exe_data[6] == 0x58 && exe_data[7] == 0x45;
    if !magic_ok {
        return Err(ExeError::BadMagic);
    }
    if exe_data.len() < 0x38 {
        return Err(ExeError::Truncated);
    }
    let file_size = read_exe_field(exe_data, 0x1C);
    if (exe_data.len() as u64) < 0x800 + file_size as u64 {
        return Err(ExeError::Truncated);
    }
    Ok(())
}

/// The `n` bytes from CPU address `load` land in the first copy of RAM one after another,
/// without wrapping.
pub open spec fn copy_in_ram(load: u32, n: u32) -> bool {
    forall|j: u32| j < n ==> {
        let a = #[trigger] crate::system_bus::mask_region_spec(load.wrapping_add(j));
        &&& a < 0x20_0000
        &&& a == crate::system_bus::mask_region_spec(load) + j
    }
}

/// A byte write is always one the bus can serve.
pub proof fn lemma_byte_write_ok(addr: u32)
    ensures
        write_ok(addr, AccessWidth::Byte),
{
    crate::system_bus::lemma_align_down(crate::system_bus::mask_region_spec(addr));
}

/// The whole machine: CPU, system bus with every device, and the instruction backend.
pub struct Ps1<B: Backend> {
    pub cpu: Cpu,
    pub bus: SystemBus,
    pub backend: B,
}

impl<B: Backend> Ps1<B> {
    pub open spec fn wf(&self) -> bool {
        self.cpu.wf() && self.bus.wf()
    }

    pub fn new(
        bios: Bios,
        instruction_backend: B,
        gpu_backend: Box<dyn GpuBackend>,
        spu_backend: Box<dyn SpuBackend>,
        joy1: Box<dyn InputProvider>,
        joy2: Box<dyn InputProvider>,
    ) -> (r: Self)
        requires
            bios.wf(),
        ensures
            r.wf(),
            r.cpu.pc == 0xBFC0_0000,
            r.bus.bios == bios,
            r.bus.scheduler.current_cycle == 0,
    {
        Self {
            cpu: Cpu::new(),
            bus: SystemBus::new(bios, gpu_backend, spu_backend, joy1, joy2),
            backend: instruction_backend,
        }
    }

    /// Load a PS-X EXE that `check_exe` accepts: clear its memfill region, copy its code to its
    /// load address, and set PC, GP and (when the header gives a stack base) SP and FP from
    /// the header.
    pub fn load_exe(&mut self, exe_data: &[u8])
        requires
            old(self).wf(),
            exe_ok(exe_data@),
        ensures
            final(self).wf(),
            ({
                let d = exe_data@;
                let pc = exe_field(d, 0x10);
                let sp = exe_field(d, 0x30).wrapping_add(exe_field(d, 0x34));
                &&& final(self).cpu.pc == pc
                &&& final(self).cpu.next_pc == pc.wrapping_add(4)
                &&& final(self).cpu.registers@[28] == exe_field(d, 0x14)
                &&& exe_field(d, 0x30) != 0 ==> final(self).cpu.registers@[29] == sp && final(self).cpu.registers@[30] == sp
                &&& final(self).bus.scheduler.current_cycle == old(self).bus.scheduler.current_cycle
                &&& copy_in_ram(exe_field(d, 0x18), exe_field(d, 0x1C)) ==> forall|j: int|
                    0 <= j < exe_field(d, 0x1C) ==> final(self).bus.ram.data@[
                        crate::system_bus::mask_region_spec(exe_field(d, 0x18)) + j] == #[trigger] d[0x800 + j]
            }),
    {
        let pc = read_exe_field(exe_data, 0x10);
        let gp = read_exe_field(exe_data, 0x14);
        let load_addr = read_exe_field(exe_data, 0x18);
        let file_size = read_exe_field(exe_data, 0x1C);
        let memfill_addr = read_exe_field(exe_data, 0x28);
        let memfill_size = read_exe_field(exe_data, 0x2C);
        let sp_base = read_exe_field(exe_data, 0x30);
        let sp_offset = read_exe_field(exe_data, 0x34);
        let ghost clock = self.bus.scheduler.current_cycle;
        let mut i: u32 = 0;
        while i < memfill_size
            invariant
                self.wf(),
                self.bus.scheduler.current_cycle == clock,
            decreases memfill_size - i,
        {
            proof { lemma_byte_write_ok(memfill_addr.wrapping_add(i)); }
            self.bus.write8(memfill_addr.wrapping_add(i), 0);
            i = i + 1;
        }
        let ghost a0 = crate::system_bus::mask_region_spec(load_addr);
        let mut j: u32 = 0;
        while j < file_size
            invariant
                self.wf(),
                self.bus.scheduler.current_cycle == clock,
                0x800 + file_size <= exe_data.len(),
                j <= file_size,
                a0 == crate::system_bus::mask_region_spec(load_addr),
                copy_in_ram(load_addr, file_size) ==> forall|k: int|
                    0 <= k < j ==> self.bus.ram.data@[a0 + k] == #[trigger] exe_data@[0x800 + k],
            decreases file_size - j,
        {
            proof { lemma_byte_write_ok(load_addr.wrapping_add(j)); }
            let ghost before = self.bus.ram.data@;
            self.bus.write8(load_addr.wrapping_add(j), exe_data[0x800 + j as usize]);
            proof {
                if copy_in_ram(load_addr, file_size) {
                    let a = crate::system_bus::mask_region_spec(load_addr.wrapping_add(j));
                    assert(crate::system_bus::in_ram(a) && a < 0x20_0000 && a == a0 + j);
                    assert(crate::system_bus::ram_offset(a) == a);
                    assert forall|k: int| 0 <= k < j + 1 implies self.bus.ram.data@[a0 + k] == #[trigger] exe_data@[0x800 + k] by {
                        if k < j {
                            assert(before[a0 + k] == exe_data@[0x800 + k]);
                        }
                    }
                }
            }
            j = j + 1;
        }
        self.cpu.set_pc(pc);
        self.cpu.set_next_pc(pc.wrapping_add(4));
        self.cpu.write_reg(MipsRegister(28), gp);
        if sp_base != 0 {
            let sp = sp_base.wrapping_add(sp_offset);
            self.cpu.write_reg(MipsRegister(29), sp);
            self.cpu.write_reg(MipsRegister(30), sp);
        }
    }

    /// Execute one instruction.
    pub fn step(&mut self) -> (r: Result<(), ExecError>)
        requires
            old(self).wf(),
        ensures
            final(self).wf(),
            final(self).bus.scheduler.current_cycle == old(self).bus.scheduler.current_cycle,
            B::stepped(old(self).cpu, old(self).bus, final(self).cpu, final(self).bus, r),
    {
        self.backend.step(&mut self.cpu, &mut self.bus)
    }

    /// One round of `run`: the bus advances two cycles (to `mid`), then one instruction runs.
    pub open spec fn run_link(c0: Cpu, b0: SystemBus, mid: SystemBus, c1: Cpu, b1: SystemBus, r: Result<(), ExecError>) -> bool {
        b0.ticked(mid, 2) && B::stepped(c0, mid, c1, b1, r)
    }

    /// Successive states of `run`, each reached from the one before by a successful round
    /// through `mids[k]`.
    pub open spec fn run_chain(states: Seq<(Cpu, SystemBus)>, mids: Seq<SystemBus>) -> bool {
        forall|k: int| 0 <= k < states.len() - 1
            ==> #[trigger] Self::run_link(states[k].0, states[k].1, mids[k], states[k + 1].0, states[k + 1].1, Ok(()))
    }

    /// Successive states of `run_until_pc`, each reached from the one before by a successful
    /// instruction.
    pub open spec fn step_chain(states: Seq<(Cpu, SystemBus)>) -> bool {
        forall|k: int| 0 <= k < states.len() - 1
            ==> #[trigger] B::stepped(states[k].0, states[k].1, states[k + 1].0, states[k + 1].1, Ok(()))
    }

    /// Run for `cycles` cycles: before each instruction the bus advances two cycles, so
    /// (cycles + 1) / 2 instructions run. Stops at the first instruction that cannot be
    /// executed.
    pub fn run(&mut self, cycles: u64) -> (r: Result<(), ExecError>)
        requires
            old(self).wf(),
            old(self).bus.scheduler.current_cycle + cycles + 3 <= CYCLE_LIMIT,
        ensures
            final(self).wf(),
            cycles == 0 ==> r is Ok && *final(self) == *old(self),
            r is Ok ==> final(self).bus.scheduler.current_cycle == old(self).bus.scheduler.current_cycle
                + 2 * ((cycles + 1) / 2),
            r is Ok ==> exists|states: Seq<(Cpu, SystemBus)>, mids: Seq<SystemBus>| #![trigger Self::run_chain(states, mids)]
                states.len() == (cycles + 1) / 2 + 1 && mids.len() == (cycles + 1) / 2
                && states[0] == (old(self).cpu, old(self).bus) && states.last() == (final(self).cpu, final(self).bus)
                && Self::run_chain(states, mids),
            r is Err ==> exists|states: Seq<(Cpu, SystemBus)>, mids: Seq<SystemBus>| #![trigger Self::run_chain(states, mids)]
                1 <= states.len() <= (cycles + 1) / 2 && mids.len() == states.len()
                && states[0] == (old(self).cpu, old(self).bus) && Self::run_chain(states, mids)
                && Self::run_link(states.last().0, states.last().1, mids.last(), final(self).cpu, final(self).bus, r),
    {
        let mut remaining = cycles;
        let ghost mut states: Seq<(Cpu, SystemBus)> = seq![(self.cpu, self.bus)];
        let ghost mut mids: Seq<SystemBus> = Seq::empty();
        while remaining > 0
            invariant
                self.wf(),
                remaining <= cycles,
                self.bus.scheduler.current_cycle + 2 * ((remaining + 1) / 2) + 2 <= CYCLE_LIMIT,
                self.bus.scheduler.current_cycle + 2 * ((remaining + 1) / 2)
                    == old(self).bus.scheduler.current_cycle + 2 * ((cycles + 1) / 2),
                remaining == cycles ==> *self == *old(self),
                states.len() == (cycles + 1) / 2 - (remaining + 1) / 2 + 1,
                mids.len() == states.len() - 1,
                states[0] == (old(self).cpu, old(self).bus),
                states.last() == (self.cpu, self.bus),
                Self::run_chain(states, mids),
            decreases remaining,
        {
            let ghost before = (self.cpu, self.bus);
            self.bus.tick(2);
            let ghost mid = self.bus;
            let res = self.step();
            match res {
                Ok(u) => {
                    proof {
                        let unit: () = ();
                        assert(u == unit);
                        assert(res == Ok::<(), ExecError>(unit));
                    }
                },
                Err(e) => {
                    proof {
                        let m2 = mids.push(mid);
                        assert forall|k: int| 0 <= k < states.len() - 1 implies #[trigger] Self::run_link(states[k].0, states[k].1, m2[k], states[k + 1].0, states[k + 1].1, Ok(())) by {
                            assert(m2[k] == mids[k]);
                        }
                        assert(Self::run_chain(states, m2));
                        assert(m2.last() == mid);
                    }
                    return Err(e);
                },
            }
            proof {
                let s2 = states.push((self.cpu, self.bus));
                let m2 = mids.push(mid);
                assert forall|k: int| 0 <= k < s2.len() - 1 implies #[trigger] Self::run_link(s2[k].0, s2[k].1, m2[k], s2[k + 1].0, s2[k + 1].1, Ok(())) by {
                    if k < states.len() - 1 {
                        assert(s2[k] == states[k] && s2[k + 1] == states[k + 1] && m2[k] == mids[k]);
                    } else {
                        assert(s2[k] == before && m2[k] == mid && s2[k + 1] == (self.cpu, self.bus));
                    }
                }
                states = s2;
                mids = m2;
            }
            remaining = remaining.saturating_sub(2);
        }
        assert(Self::run_chain(states, mids));
        Ok(())
    }

    /// Step until PC reaches `target_pc`, for at most `max_steps` instructions. `Ok(true)` when
    /// it was reached; `Ok(false)` after `max_steps` instructions that did not reach it.
    pub fn run_until_pc(&mut self, target_pc: u32, max_steps: u64) -> (r: Result<bool, ExecError>)
        requires
            old(self).wf(),
        ensures
            final(self).wf(),
            r == Ok::<bool, ExecError>(true) ==> final(self).cpu.pc == target_pc,
            r == Ok::<bool, ExecError>(false) && max_steps > 0 ==> final(self).cpu.pc != target_pc,
            max_steps == 0 ==> r == Ok::<bool, ExecError>(false) && *final(self) == *old(self),
            r is Ok ==> exists|states: Seq<(Cpu, SystemBus)>| #![trigger Self::step_chain(states)]
                1 <= states.len() <= max_steps + 1 && states[0] == (old(self).cpu, old(self).bus)
                && states.last() == (final(self).cpu, final(self).bus) && Self::step_chain(states)
                && (forall|k: int| 1 <= k < states.len() - 1 ==> #[trigger] states[k].0.pc != target_pc)
                && (r == Ok::<bool, ExecError>(false) ==> states.len() == max_steps + 1),
            r is Err ==> exists|states: Seq<(Cpu, SystemBus)>| #![trigger Self::step_chain(states)]
                1 <= states.len() <= max_steps && states[0] == (old(self).cpu, old(self).bus)
                && Self::step_chain(states)
                && (forall|k: int| 1 <= k < states.len() ==> #[trigger] states[k].0.pc != target_pc)
                && (match r {
                    Err(e) => B::stepped(states.last().0, states.last().1, final(self).cpu, final(self).bus, Err::<(), ExecError>(e)),
                    Ok(_) => true,
                }),
    {
        let mut n: u64 = 0;
        let ghost mut states: Seq<(Cpu, SystemBus)> = seq![(self.cpu, self.bus)];
        while n < max_steps
            invariant
                self.wf(),
                n <= max_steps,
                n > 0 ==> self.cpu.pc != target_pc,
                n == 0 ==> *self == *old(self),
                states.len() == n + 1,
                states[0] == (old(self).cpu, old(self).bus),
                states.last() == (self.cpu, self.bus),
                Self::step_chain(states),
                forall|k: int| 1 <= k < states.len() ==> #[trigger] states[k].0.pc != target_pc,
            decreases max_steps - n,
        {
            let ghost before = (self.cpu, self.bus);
            let res = self.step();
            match res {
                Ok(u) => {
                    proof {
                        let unit: () = ();
                        assert(u == unit);
                        assert(res == Ok::<(), ExecError>(unit));
                    }
                },
                Err(e) => {
                    return Err(e);
                },
            }
            proof {
                let s2 = states.push((self.cpu, self.bus));
                assert forall|k: int| 0 <= k < s2.len() - 1 implies #[trigger] B::stepped(s2[k].0, s2[k].1, s2[k + 1].0, s2[k + 1].1, Ok(())) by {
                    if k < states.len() - 1 {
                        assert(s2[k] == states[k] && s2[k + 1] == states[k + 1]);
                    } else {
                        assert(s2[k] == before && s2[k + 1] == (self.cpu, self.bus));
                    }
                }
                assert forall|k: int| 1 <= k < s2.len() - 1 implies #[trigger] s2[k].0.pc != target_pc by {
                    assert(s2[k] == states[k]);
                }
                states = s2;
            }
            if self.cpu.pc() == target_pc {
                assert(Self::step_chain(states));
                return Ok(true);
            }
            proof {
                assert forall|k: int| 1 <= k < states.len() implies #[trigger] states[k].0.pc != target_pc by {
                    if k < states.len() - 1 {
                    }
                }
            }
            n = n + 1;
        }
        assert(Self::step_chain(states));
        Ok(false)
    }

    /// Hand the current display output to the GPU backend.
    pub fn display(&mut self)
        requires
            old(self).wf(),
        ensures
            final(self).wf(),
    {
        self.bus.gpu.display();
    }

    /// Insert the disc that the CUE sheet `cue` describes, with its data files.
    pub fn insert_cdrom_disc(&mut self, cue: &[u8], files: Vec<Box<dyn DiscSource>>) -> (r: Result<(), CueError>)
        requires
            old(self).wf(),
        ensures
            final(self).wf(),
            crate::cd_rom::parse_cue_from(cue@, 0) matches Err(err) ==> r == Err::<(), CueError>(err),
    {
        self.bus.insert_cdrom_disc(cue, files)
    }
}

} // verus!
