//! The system bus: owns every device, routes CPU accesses by physical address, runs DMA
//! transfers between RAM and the devices, and dispatches scheduled device events.
use vstd::prelude::*;
use crate::bios::Bios;
use crate::bytes::{le16, le32, put16, put32};
use crate::cd_rom::{CdRom, CueError, DiscSource, parse_cue_from, RETRY_CYCLES};
use crate::dma::{DmaController, DmaTransfer, active_count, lemma_pending_is_active, lemma_active_count_drop};
use crate::gpu::{Gpu, GpuBackend};
use crate::interrupt_controller::{Interrupt, InterruptController, interrupt_bit, stat_grows, lemma_stat_grows};
use crate::mdec::Mdec;
use crate::memory_map::{
    bios_range, cdrom_range, dma_range, exp1_range, exp2_range, gpu_range,
    interrupt_control_range, mdec_range, memory_control_1_range, ram_range, scratchpad_range,
    sio0_range, spu_range, timers_range,
};
use crate::ram::Ram;
use crate::scheduler::{Scheduler, SchedulerEvent, CYCLE_LIMIT};
use crate::scratchpad::Scratchpad;
use crate::sio0::SioController;
use crate::sio0::joypad::InputProvider;
use crate::spu::{Spu, SpuBackend};
use crate::timers::Timers;

verus! {

/// Cycles between two vertical blanks.
pub const VBLANK_CYCLES: u64 = 564480;
/// Cycles between two SPU samples (44.1 kHz).
pub const SPU_CYCLES: u64 = 768;

/// The width of a CPU access.
#[derive(Debug, Clone, Copy, PartialEq, Eq, Structural)]
pub enum AccessWidth {
    Byte,
    Half,
    Word,
}

pub open spec fn width_bytes(w: AccessWidth) -> u32 {
    match w {
        AccessWidth::Byte => 1,
        AccessWidth::Half => 2,
        AccessWidth::Word => 4,
    }
}

/// Address masks of the eight 512 MiB segments: KUSEG and KSEG2 pass through, KSEG0 and KSEG1
/// drop their segment bits.
pub const REGION_MASK: [u32; 8] = [
    0xFFFF_FFFF, 0xFFFF_FFFF, 0xFFFF_FFFF, 0xFFFF_FFFF, 0x7FFF_FFFF, 0x1FFF_FFFF, 0xFFFF_FFFF,
    0xFFFF_FFFF,
];

/// The physical address of a CPU address.
pub open spec fn mask_region_spec(addr: u32) -> u32 {
    let seg = addr >> 29u32;
    if seg == 4 {
        addr & 0x7FFF_FFFF
    } else if seg == 5 {
        addr & 0x1FFF_FFFF
    } else {
        addr
    }
}

/// Map a CPU address to its physical address by the mask of its segment (the PS1 has no MMU).
pub fn mask_region(addr: u32) -> (r: u32)
    ensures
        r == mask_region_spec(addr),
{
    let seg = addr >> 29u32;
    assert(seg < 8) by { crate::bits::lemma_shifts_u32(); }
    let m = REGION_MASK[seg as usize];
    assert(m == (if seg == 4 { 0x7FFF_FFFFu32 } else if seg == 5 { 0x1FFF_FFFFu32 } else { 0xFFFF_FFFFu32 }));
    assert(addr & 0xFFFF_FFFF == addr) by { crate::bits::lemma_or_and(); }
    addr & m
}

/// Main RAM and its three mirrors (physical 0..7F_FFFFh).
pub open spec fn in_ram(a: u32) -> bool {
    a < 0x80_0000
}

/// The byte of RAM that a physical address in RAM or one of its mirrors names.
pub open spec fn ram_offset(a: u32) -> int {
    (a % 0x20_0000) as int
}

pub open spec fn in_bios(a: u32) -> bool {
    0x1FC0_0000 <= a < 0x1FC8_0000
}

pub open spec fn in_scratchpad(a: u32) -> bool {
    0x1F80_0000 <= a < 0x1F80_0400
}

pub open spec fn in_gpu(a: u32) -> bool {
    0x1F80_1810 <= a < 0x1F80_1818
}

/// An access of `width` bytes at `addr` stays inside the memory it starts in.
pub open spec fn access_fits(addr: u32, width: AccessWidth) -> bool {
    let a = mask_region_spec(addr);
    let n = width_bytes(width);
    &&& in_ram(a) ==> ram_offset(a) + n <= 0x20_0000
    &&& in_bios(a) ==> a + n <= 0x1FC8_0000
    &&& in_scratchpad(a) ==> a + n <= 0x1F80_0400
}

/// A read the bus can serve: it fits its memory, and a GPU register is read at GPUREAD or
/// GPUSTAT itself.
pub open spec fn read_ok(addr: u32, width: AccessWidth) -> bool {
    let a = mask_region_spec(addr);
    &&& access_fits(addr, width)
    &&& in_gpu(a) ==> (a == 0x1F80_1810 || a == 0x1F80_1814)
}

/// A write the bus can serve: it fits its memory, and a GPU register is written at GP0 or
/// GP1 itself.
pub open spec fn write_ok(addr: u32, width: AccessWidth) -> bool {
    let w = hw_write_addr(mask_region_spec(addr), width);
    &&& access_fits(addr, width)
    &&& in_gpu(w) ==> (w == 0x1F80_1810 || w == 0x1F80_1814)
}

/// Aligning an address down moves it by less than the alignment, and a word-aligned GPU
/// address is one of its two registers.
pub proof fn lemma_align_down(a: u32)
    ensures
        a & !1u32 <= a,
        a - 1 <= a & !1u32,
        a & !3u32 <= a,
        a - 3 <= a & !3u32,
        0x1F80_1810 <= (a & !3u32) < 0x1F80_1818 ==> ((a & !3u32) == 0x1F80_1810 || (a & !3u32) == 0x1F80_1814),
{
    assert(a & !1u32 <= a && a - 1 <= a & !1u32 && a & !3u32 <= a && a - 3 <= a & !3u32
        && (0x1F80_1810 <= (a & !3u32) < 0x1F80_1818 ==> ((a & !3u32) == 0x1F80_1810 || (a & !3u32) == 0x1F80_1814)))
        by (bit_vector);
}

/// Whether the bus can serve a read of `width` bytes at `addr` (see `read_ok`).
pub fn can_read(addr: u32, width: AccessWidth) -> (r: bool)
    ensures
        r == read_ok(addr, width),
{
    let a = mask_region(addr);
    let n: u32 = match width {
        AccessWidth::Byte => 1,
        AccessWidth::Half => 2,
        AccessWidth::Word => 4,
    };
    assert((a & 0x1F_FFFF) == a % 0x20_0000) by { crate::bits::lemma_and_mod(); }
    let fits = (!(a < 0x80_0000) || (a & 0x1F_FFFF) + n <= 0x20_0000)
        && (!(0x1FC0_0000 <= a && a < 0x1FC8_0000) || a + n <= 0x1FC8_0000)
        && (!(0x1F80_0000 <= a && a < 0x1F80_0400) || a + n <= 0x1F80_0400);
    let gpu_ok = !(0x1F80_1810 <= a && a < 0x1F80_1818) || a == 0x1F80_1810 || a == 0x1F80_1814;
    fits && gpu_ok
}

/// Whether the bus can serve a write of `width` bytes at `addr` (see `write_ok`).
pub fn can_write(addr: u32, width: AccessWidth) -> (r: bool)
    ensures
        r == write_ok(addr, width),
{
    let a = mask_region(addr);
    let n: u32 = match width {
        AccessWidth::Byte => 1,
        AccessWidth::Half => 2,
        AccessWidth::Word => 4,
    };
    assert((a & 0x1F_FFFF) == a % 0x20_0000) by { crate::bits::lemma_and_mod(); }
    let fits = (!(a < 0x80_0000) || (a & 0x1F_FFFF) + n <= 0x20_0000)
        && (!(0x1FC0_0000 <= a && a < 0x1FC8_0000) || a + n <= 0x1FC8_0000)
        && (!(0x1F80_0000 <= a && a < 0x1F80_0400) || a + n <= 0x1F80_0400);
    let w = match width {
        AccessWidth::Word => a,
        AccessWidth::Half => a & !1u32,
        AccessWidth::Byte => a & !3u32,
    };
    let gpu_ok = !(0x1F80_1810 <= w && w < 0x1F80_1818) || w == 0x1F80_1810 || w == 0x1F80_1814;
    fits && gpu_ok
}

/// The value a read of `width` bytes gives back after a write of `value`: its low bytes.
pub open spec fn narrowed(value: u32, width: AccessWidth) -> u32 {
    match width {
        AccessWidth::Word => value,
        AccessWidth::Half => (value as u16) as u32,
        AccessWidth::Byte => (value as u8) as u32,
    }
}

/// A read of memory (RAM or scratchpad) gives back what the last write of the same
/// width at the same address wrote.
pub proof fn lemma_memory_read_after_write(bus: SystemBus, post: SystemBus, addr: u32, value: u32, width: AccessWidth)
    requires
        bus.wf(),
        access_fits(addr, width),
        in_ram(mask_region_spec(addr)) || in_scratchpad(mask_region_spec(addr)),
        bus.write_effect(post, addr, value, width),
    ensures
        post.peek(mask_region_spec(addr), width) == Some(narrowed(value, width)),
{
    let a = mask_region_spec(addr);
    let (s, o) = if in_ram(a) { (bus.ram.data@, ram_offset(a)) } else { (bus.scratchpad.data@, a - 0x1F80_0000) };
    match width {
        AccessWidth::Word => { crate::bytes::lemma_le32_put32(s, o, value); },
        AccessWidth::Half => { crate::bytes::lemma_le16_put16(s, o, value as u16); },
        AccessWidth::Byte => {},
    }
}

/// RAM is mirrored three times above its first 2 MiB: a read at a mirror gives what a read
/// of the same width at the first copy gives.
pub proof fn lemma_ram_mirrors(bus: SystemBus, a: u32, width: AccessWidth)
    requires
        a < 0x20_0000,
    ensures
        bus.peek((a + 0x20_0000) as u32, width) == bus.peek(a, width),
        bus.peek((a + 0x40_0000) as u32, width) == bus.peek(a, width),
        bus.peek((a + 0x60_0000) as u32, width) == bus.peek(a, width),
{
}

/// KUSEG, KSEG0 and KSEG1 are three views of the same first 512 MiB of physical memory.
pub proof fn lemma_segments_mirror(a: u32)
    requires
        a < 0x2000_0000,
    ensures
        mask_region_spec(a) == a,
        mask_region_spec(a | 0x8000_0000) == a,
        mask_region_spec(a | 0xA000_0000) == a,
{
    assert(a < 0x2000_0000 ==> (a >> 29u32 == 0 && (a | 0x8000_0000) >> 29u32 == 4 && (a | 0xA000_0000) >> 29u32 == 5
        && (a | 0x8000_0000) & 0x7FFF_FFFF == a && (a | 0xA000_0000) & 0x1FFF_FFFF == a)) by (bit_vector);
}

/// Owner of all the devices; the CPU sees only its read and write interface.
pub struct SystemBus {
    pub scheduler: Scheduler,
    pub bios: Bios,
    pub ram: Ram,
    pub scratchpad: Scratchpad,
    pub sio: SioController,
    pub interrupt_controller: InterruptController,
    pub dma: DmaController,
    pub gpu: Gpu,
    pub spu: Spu,
    pub cd_rom: CdRom,
    pub timers: Timers,
    pub mdec: Mdec,
}

impl SystemBus {
    pub open spec fn wf(&self) -> bool {
        &&& self.scheduler.wf()
        &&& self.bios.wf()
        &&& self.ram.wf()
        &&& self.scratchpad.wf()
        &&& self.sio.wf()
        &&& self.gpu.wf()
        &&& self.spu.wf()
        &&& self.cd_rom.wf()
        &&& self.timers.wf()
        &&& self.mdec.wf()
    }

    /// The bus with the first VBlank and the first SPU tick scheduled.
    pub fn new(
        bios: Bios,
        gpu_backend: Box<dyn GpuBackend>,
        spu_backend: Box<dyn SpuBackend>,
        joy1: Box<dyn InputProvider>,
        joy2: Box<dyn InputProvider>,
    ) -> (r: Self)
        requires
            bios.wf(),
        ensures
            r.wf(),
            r.bios == bios,
            r.scheduler.current_cycle == 0,
            r.scheduler.events@.len() == 2,
            r.scheduler.events@[0] == (crate::scheduler::ScheduledEvent { deadline: SPU_CYCLES, kind: SchedulerEvent::Spu }),
            r.scheduler.events@[1] == (crate::scheduler::ScheduledEvent { deadline: VBLANK_CYCLES, kind: SchedulerEvent::VBlank }),
            forall|i: int| 0 <= i < 0x20_0000 ==> r.ram.data@[i] == 0,
            r.interrupt_controller.stat == 0 && r.interrupt_controller.mask == 0,
    {
        let mut scheduler = Scheduler::new();
        scheduler.schedule(SchedulerEvent::VBlank, VBLANK_CYCLES);
        scheduler.schedule(SchedulerEvent::Spu, SPU_CYCLES);
        proof {
            let s = scheduler.events@;
            assert(s.len() == 2);
            assert(s[0].deadline <= s[1].deadline);
        }
        Self {
            scheduler,
            bios,
            ram: Ram::new(),
            scratchpad: Scratchpad::new(),
            sio: crate::sio0::SioController::new(joy1, joy2),
            interrupt_controller: InterruptController::new(),
            dma: DmaController::new(),
            gpu: Gpu::new(gpu_backend),
            spu: Spu::new(spu_backend),
            cd_rom: CdRom::new(),
            timers: Timers::new(),
            mdec: Mdec::new(),
        }
    }
}

/// Memory control 1 registers, as the BIOS leaves them (offsets 0 to 20h; others read 0).
pub open spec fn memory_control_value(offset: u32) -> u32 {
    if offset == 0 { 0x1F00_0000 }
    else if offset == 4 { 0x1F80_2000 }
    else if offset == 8 { 0x0013_243F }
    else if offset == 0xC { 0x0000_3022 }
    else if offset == 0x10 { 0x0013_243F }
    else if offset == 0x14 { 0x2009_31E1 }
    else if offset == 0x18 { 0x0002_0843 }
    else if offset == 0x1C { 0x0007_0777 }
    else if offset == 0x20 { 0x0003_1125 }
    else { 0 }
}

pub open spec fn in_exp1(a: u32) -> bool { 0x1F00_0000 <= a < 0x1F80_0000 }
pub open spec fn in_memory_control(a: u32) -> bool { 0x1F80_1000 <= a < 0x1F80_1024 }
pub open spec fn in_interrupt_control(a: u32) -> bool { 0x1F80_1070 <= a < 0x1F80_1078 }
pub open spec fn in_dma(a: u32) -> bool { 0x1F80_1080 <= a < 0x1F80_1100 }
pub open spec fn in_timers(a: u32) -> bool { 0x1F80_1100 <= a < 0x1F80_112C }
pub open spec fn in_mdec(a: u32) -> bool { 0x1F80_1820 <= a < 0x1F80_1828 }
pub open spec fn in_sio(a: u32) -> bool { 0x1F80_1040 <= a < 0x1F80_1050 }
pub open spec fn in_cdrom(a: u32) -> bool { 0x1F80_1800 <= a < 0x1F80_1804 }
pub open spec fn in_spu(a: u32) -> bool { 0x1F80_1C00 <= a < 0x1F80_1E80 }
pub open spec fn in_exp2(a: u32) -> bool { 0x1F80_2000 <= a < 0x1F80_2080 }

/// The address of the word (or halfword) that a narrower hardware write lands in.
pub open spec fn hw_write_addr(a: u32, width: AccessWidth) -> u32 {
    match width {
        AccessWidth::Word => a,
        AccessWidth::Half => a & !1u32,
        AccessWidth::Byte => a & !3u32,
    }
}

/// The registers read by `read_hardware` other than those of the DMA controller, the timers,
/// the GPU and the MDEC: their value, or `None` for those.
pub open spec fn plain_register_value(ic: InterruptController, a: u32) -> Option<u32> {
    if in_exp1(a) {
        Some(0xFFu32)
    } else if in_memory_control(a) {
        Some(memory_control_value((a - 0x1F80_1000) as u32))
    } else if a == 0x1F80_1060 {
        Some(0x0000_0B88u32)
    } else if in_interrupt_control(a) {
        Some(if a == 0x1F80_1070 { ic.stat as u32 } else if a == 0x1F80_1074 { ic.mask as u32 } else { 0u32 })
    } else if in_dma(a) || in_timers(a) || in_gpu(a) || in_mdec(a) {
        None
    } else {
        Some(0u32)
    }
}

/// A narrow write merged into the word (or halfword) read back from the register.
pub open spec fn merge_write(old_word: u32, value: u32, a: u32, width: AccessWidth) -> u32 {
    match width {
        AccessWidth::Word => value,
        AccessWidth::Half => {
            let shift = ((a & 1) * 8) as u32;
            (old_word & !(0xFFFFu32 << shift)) | (value << shift)
        },
        AccessWidth::Byte => {
            let shift = ((a & 3) * 8) as u32;
            (old_word & !(0xFFu32 << shift)) | (value << shift)
        },
    }
}

/// The hardware writes that the bus ignores (memory control, RAM_SIZE, cache control and
/// unmapped addresses).
pub open spec fn absorbed_write(a: u32) -> bool {
    !(in_interrupt_control(a) || in_dma(a) || in_timers(a) || in_gpu(a) || in_mdec(a))
}

/// The interrupt controller after `value` is written at `offset` (I_STAT acknowledges,
/// I_MASK replaces).
pub open spec fn ic_after_write(ic: InterruptController, offset: u32, value: u16) -> InterruptController {
    if offset == 0 {
        InterruptController { stat: ic.stat & value, ..ic }
    } else if offset == 4 {
        InterruptController { mask: value, ..ic }
    } else {
        ic
    }
}

/// The word a hardware write stores: the value itself for a word write; a narrower write is
/// merged into what its register reads.
pub open spec fn stored_word(ic: InterruptController, addr: u32, value: u32, width: AccessWidth) -> u32 {
    match width {
        AccessWidth::Word => value,
        _ => merge_write(plain_register_value(ic, hw_write_addr(addr, width)).unwrap(), value, addr, width),
    }
}

/// A DMA register address that holds a channel's CHCR.
pub open spec fn dma_chcr_addr(w: u32) -> bool {
    (w - 0x1F80_1080) <= 0x68 && (w - 0x1F80_1080) % 0x10 == 8
}

/// What a read of `width` bytes at offset `o` of `s` yields.
pub open spec fn mem_read(s: Seq<u8>, o: int, width: AccessWidth) -> u32 {
    match width {
        AccessWidth::Word => le32(s, o),
        AccessWidth::Half => le16(s, o) as u32,
        AccessWidth::Byte => s[o] as u32,
    }
}

/// `s` after a write of the low `width` bytes of `value` at offset `o`.
pub open spec fn mem_write(s: Seq<u8>, o: int, value: u32, width: AccessWidth) -> Seq<u8> {
    match width {
        AccessWidth::Word => put32(s, o, value),
        AccessWidth::Half => put16(s, o, value as u16),
        AccessWidth::Byte => s.update(o, value as u8),
    }
}

/// The bit position of a narrow read within its register's word.
pub open spec fn read_shift(a: u32, width: AccessWidth) -> u32 {
    match width {
        AccessWidth::Byte => ((a & 3) * 8) as u32,
        AccessWidth::Half => ((a & 1) * 8) as u32,
        AccessWidth::Word => 0,
    }
}

/// A vertical blank is due by cycle `now`: one of the scheduled events is the VBlank, with a
/// deadline not after `now`.
pub open spec fn vblank_due(sched: Scheduler, now: u64) -> bool {
    exists|k: int| 0 <= k < sched.events@.len() && #[trigger] sched.events@[k].kind == SchedulerEvent::VBlank
        && sched.events@[k].deadline <= now
}

impl SystemBus {
    /// What the hardware register read at `a` yields where reading has no side effects: the
    /// plain registers, the DMA controller and the timers; `None` for the GPU and MDEC.
    pub open spec fn register_value(self, a: u32) -> Option<u32> {
        if in_dma(a) {
            Some(self.dma.register_value((a - 0x1F80_1080) as u32))
        } else if in_timers(a) {
            Some(self.timers.register_value(((a - 0x1F80_1100) / 0x10) as int, ((a - 0x1F80_1100) % 0x10) as u32))
        } else {
            plain_register_value(self.interrupt_controller, a)
        }
    }

    /// What a read at physical address `a` yields where reading has no side effects: RAM,
    /// BIOS, scratchpad, and the plain hardware registers. `None` for the devices.
    pub open spec fn peek(self, a: u32, width: AccessWidth) -> Option<u32> {
        if in_ram(a) {
            Some(mem_read(self.ram.data@, ram_offset(a), width))
        } else if in_bios(a) {
            Some(mem_read(self.bios.data@, a - 0x1FC0_0000, width))
        } else if in_scratchpad(a) {
            Some(mem_read(self.scratchpad.data@, a - 0x1F80_0000, width))
        } else if in_sio(a) || in_cdrom(a) || in_spu(a) {
            None
        } else {
            match self.register_value(a) {
                Some(v) => Some(v >> read_shift(a, width)),
                None => None,
            }
        }
    }

    /// How a write of `value` at physical address `a` lands in the hardware registers (all
    /// but memory, SIO, CD-ROM and SPU), at the word or halfword it falls in: ignored where
    /// nothing is mapped to take it; the interrupt controller acknowledges or masks; the
    /// timers, GPU, MDEC and DMA controller each change alone (a halfword write to a timer
    /// register is the register's value; a word written to GP0/GP1 runs as a GPU command
    /// word, one to the MDEC's command or control register as such, and one to a DMA
    /// register other than CHCR is stored); a CHCR write runs the transfers it starts, after
    /// which none is pending.
    pub open spec fn hw_write_effect(self, post: SystemBus, a: u32, value: u32, width: AccessWidth) -> bool {
        let w = hw_write_addr(a, width);
        let word = width == AccessWidth::Word;
        &&& absorbed_write(w) ==> post == self
        &&& in_interrupt_control(w) ==> post == (SystemBus {
            interrupt_controller: ic_after_write(self.interrupt_controller, (w - 0x1F80_1070) as u32,
                stored_word(self.interrupt_controller, a, value, width) as u16),
            ..self
        })
        &&& in_timers(w) ==> post == (SystemBus { timers: post.timers, ..self })
        &&& in_timers(w) && (word || (width == AccessWidth::Half && a & 1 == 0)) ==>
            self.timers.written(post.timers, ((w - 0x1F80_1100) / 0x10) as int, ((w - 0x1F80_1100) % 0x10) as u32, value as u16)
        &&& in_gpu(w) ==> post == (SystemBus { gpu: post.gpu, ..self })
        &&& in_gpu(w) && word && w == 0x1F80_1810 ==> self.gpu.gp0_written(post.gpu, value)
        &&& in_gpu(w) && word && w == 0x1F80_1814 ==> self.gpu.gp1_written(post.gpu, value)
        &&& in_mdec(w) ==> post == (SystemBus { mdec: post.mdec, ..self })
        &&& word && w == 0x1F80_1820 ==> self.mdec.command_written(post.mdec, value)
        &&& word && w == 0x1F80_1824 ==> self.mdec.control_written(post.mdec, value)
        &&& in_dma(w) && word && !dma_chcr_addr(w) ==> post == (SystemBus { dma: post.dma, ..self })
            && self.dma.written(post.dma, (w - 0x1F80_1080) as u32, value)
        &&& in_dma(w) && word && dma_chcr_addr(w) ==> post.dma.get_pending_spec() is None
            && post.scheduler == self.scheduler && post.interrupt_controller.mask == self.interrupt_controller.mask
    }

    /// How a write of `value` at `addr` changes the bus: RAM and scratchpad take the bytes,
    /// BIOS and expansion 2 ignore it; in the device ports and hardware registers as
    /// `port_write_effect` and `hw_write_effect` say.
    pub open spec fn write_effect(self, post: SystemBus, addr: u32, value: u32, width: AccessWidth) -> bool {
        let a = mask_region_spec(addr);
        &&& in_ram(a) ==> post.ram.data@ == mem_write(self.ram.data@, ram_offset(a), value, width)
            && post == (SystemBus { ram: post.ram, ..self })
        &&& in_scratchpad(a) ==> post.scratchpad.data@ == mem_write(self.scratchpad.data@, a - 0x1F80_0000, value, width)
            && post == (SystemBus { scratchpad: post.scratchpad, ..self })
        &&& (in_bios(a) || in_exp2(a)) ==> post == self
        &&& !(in_ram(a) || in_scratchpad(a) || in_bios(a) || in_exp2(a) || in_sio(a) || in_cdrom(a) || in_spu(a))
            ==> self.hw_write_effect(post, a, value, width)
        &&& self.port_write_effect(post, a, value)
    }

    /// How a write at physical address `a` lands in the SIO, CD-ROM and SPU ports: the
    /// device takes the value (a byte for the CD-ROM, a halfword for the SPU) at its port,
    /// changing only itself and the scheduler (SIO, CD-ROM) or the interrupt controller (SPU).
    pub open spec fn port_write_effect(self, post: SystemBus, a: u32, value: u32) -> bool {
        &&& in_sio(a) ==> post == (SystemBus { sio: post.sio, scheduler: post.scheduler, ..self })
            && self.sio.written(post.sio, self.scheduler, post.scheduler, (a - 0x1F80_1040) as u32, value)
        &&& in_cdrom(a) ==> post == (SystemBus { cd_rom: post.cd_rom, scheduler: post.scheduler, ..self })
            && self.cd_rom.written(post.cd_rom, self.scheduler, post.scheduler, (a - 0x1F80_1800) as u32, value as u8)
        &&& in_spu(a) ==> post == (SystemBus { spu: post.spu, interrupt_controller: post.interrupt_controller, ..self })
            && self.spu.written(post.spu, (a - 0x1F80_1C00) as u32, value as u16)
            && post.interrupt_controller.mask == self.interrupt_controller.mask
    }

    /// What a read at physical address `a` of the registers with side effects returns and
    /// changes: the SIO, CD-ROM (a byte) and SPU (a halfword) ports, GPUREAD and GPUSTAT, and
    /// the MDEC's data and status words; each changes only its device (the SPU also the
    /// interrupt controller).
    pub open spec fn port_read_effect(self, post: SystemBus, a: u32, r: u32) -> bool {
        &&& in_sio(a) ==> post == (SystemBus { sio: post.sio, ..self })
            && self.sio.register_read(post.sio, (a - 0x1F80_1040) as u32, r)
        &&& in_cdrom(a) ==> post == (SystemBus { cd_rom: post.cd_rom, ..self }) && r <= 0xFF
            && self.cd_rom.register_read(post.cd_rom, (a - 0x1F80_1800) as u32, r as u8)
        &&& in_spu(a) ==> post == (SystemBus { spu: post.spu, interrupt_controller: post.interrupt_controller, ..self })
            && r == self.spu.register_spec((a - 0x1F80_1C00) as u32) as u32
            && post.interrupt_controller.mask == self.interrupt_controller.mask
        &&& (a == 0x1F80_1810 || a == 0x1F80_1814) ==> post == (SystemBus { gpu: post.gpu, ..self })
            && self.gpu.register_read(post.gpu, (a - 0x1F80_1810) as u32, r)
        &&& (a == 0x1F80_1820 || a == 0x1F80_1824) ==> post == (SystemBus { mdec: post.mdec, ..self })
            && self.mdec.register_read(post.mdec, (a - 0x1F80_1820) as u32, r)
    }
}

/// The word-aligned RAM address of a DMA address.
pub open spec fn dma_addr(a: u32) -> u32 {
    a & 0x1F_FFFC
}

/// RAM after an ordering-table clear of `count` entries from `addr` downwards: each entry
/// points to the one below it, and the last holds the end marker FFFFFFh.
pub open spec fn otc_ram(s: Seq<u8>, addr: u32, count: nat) -> Seq<u8>
    decreases count,
{
    if count == 0 {
        s
    } else {
        let val = if count == 1 { 0x00FF_FFFFu32 } else { (addr.wrapping_sub(4)) & 0x00FF_FFFF };
        otc_ram(put32(s, addr as int, val), addr.wrapping_sub(4) & 0x1F_FFFC, (count - 1) as nat)
    }
}

/// The first RAM word address of a DMA (the low two address bits are ignored).
pub fn dma_start(a: u32) -> (r: u32)
    ensures
        r == dma_addr(a),
        r <= 0x1F_FFFC,
        r == r & 0x1F_FFFC,
{
    let r = a & 0x1F_FFFC;
    assert(r <= 0x1F_FFFC && r == r & 0x1F_FFFC) by { crate::bits::lemma_and_bounds(); crate::bits::lemma_or_and(); }
    r
}

/// The next word address of a DMA walking up through RAM (wrapping at the end of RAM).
pub fn next_dma_word(addr: u32) -> (r: u32)
    requires
        addr <= 0x1F_FFFC,
    ensures
        r <= 0x1F_FFFC,
        r == ((addr + 4) as u32) & 0x1F_FFFC,
{
    let a4 = addr + 4;
    assert(a4 & 0x1F_FFFC <= 0x1F_FFFC) by { crate::bits::lemma_and_bounds(); }
    a4 & 0x1F_FFFC
}

/// Nodes a linked-list DMA follows at most: one per word of RAM. A list that does not end
/// within that many nodes visits some node twice and would never end.
pub const MAX_LIST_NODES: u32 = 0x8_0000;

impl SystemBus {
    fn read_memory_control_1(&self, offset: u32) -> (r: u32)
        ensures
            r == memory_control_value(offset),
    {
        match offset {
            0 => 0x1F00_0000,
            4 => 0x1F80_2000,
            8 => 0x0013_243F,
            0xC => 0x0000_3022,
            0x10 => 0x0013_243F,
            0x14 => 0x2009_31E1,
            0x18 => 0x0002_0843,
            0x1C => 0x0007_0777,
            0x20 => 0x0003_1125,
            _ => 0,
        }
    }

    fn read_interrupt_control(&self, offset: u32) -> (r: u32)
        ensures
            r == (if offset == 0 { self.interrupt_controller.stat as u32 } else if offset == 4 {
                self.interrupt_controller.mask as u32 } else { 0u32 }),
    {
        match offset {
            0 => self.interrupt_controller.read_stat(),
            4 => self.interrupt_controller.read_mask(),
            _ => 0,
        }
    }

    fn write_interrupt_control(&mut self, offset: u32, value: u16)
        ensures
            *final(self) == (SystemBus {
                interrupt_controller: ic_after_write(old(self).interrupt_controller, offset, value),
                ..*old(self)
            }),
    {
        match offset {
            0 => self.interrupt_controller.write_stat(value),
            4 => self.interrupt_controller.write_mask(value),
            _ => {},
        }
    }

    fn read_gpu_register(&mut self, offset: u32) -> (r: u32)
        requires
            old(self).wf(),
            offset == 0 || offset == 4,
        ensures
            final(self).wf(),
            *final(self) == (SystemBus { gpu: final(self).gpu, ..*old(self) }),
            old(self).gpu.register_read(final(self).gpu, offset, r),
    {
        self.gpu.read_register(offset)
    }

    fn write_gpu_register(&mut self, offset: u32, value: u32)
        requires
            old(self).wf(),
            offset == 0 || offset == 4,
        ensures
            final(self).wf(),
            *final(self) == (SystemBus { gpu: final(self).gpu, ..*old(self) }),
            offset == 0 ==> old(self).gpu.gp0_written(final(self).gpu, value),
            offset == 4 ==> old(self).gpu.gp1_written(final(self).gpu, value),
    {
        self.gpu.write_register(offset, value);
    }

    /// A read from the registers outside RAM, BIOS, scratchpad, SIO, CD-ROM and SPU. Only the
    /// GPU and MDEC registers change state when read.
    fn read_hardware(&mut self, addr: u32) -> (r: u32)
        requires
            old(self).wf(),
            in_gpu(addr) ==> (addr == 0x1F80_1810 || addr == 0x1F80_1814),
        ensures
            final(self).wf(),
            final(self).scheduler.current_cycle == old(self).scheduler.current_cycle,
            old(self).register_value(addr) matches Some(v) ==> r == v,
            !in_gpu(addr) && !in_mdec(addr) ==> *final(self) == *old(self),
            in_gpu(addr) ==> *final(self) == (SystemBus { gpu: final(self).gpu, ..*old(self) })
                && old(self).gpu.register_read(final(self).gpu, (addr - 0x1F80_1810) as u32, r),
            in_mdec(addr) ==> *final(self) == (SystemBus { mdec: final(self).mdec, ..*old(self) })
                && old(self).mdec.register_read(final(self).mdec, (addr - 0x1F80_1820) as u32, r),
    {
        if let Some(_o) = exp1_range().contains(addr) {
            return 0xFF;
        }
        if let Some(offset) = memory_control_1_range().contains(addr) {
            return self.read_memory_control_1(offset);
        }
        if addr == 0x1F80_1060 {
            return 0x0000_0B88;
        }
        if let Some(offset) = interrupt_control_range().contains(addr) {
            return self.read_interrupt_control(offset);
        }
        if let Some(offset) = dma_range().contains(addr) {
            return self.dma.read_register(offset);
        }
        if let Some(offset) = timers_range().contains(addr) {
            let timer = (offset / 0x10) as usize;
            let timer_offset = offset % 0x10;
            return self.timers.read_register(timer, timer_offset);
        }
        if let Some(offset) = gpu_range().contains(addr) {
            return self.read_gpu_register(offset);
        }
        if let Some(offset) = mdec_range().contains(addr) {
            return self.mdec.read_register(offset);
        }
        0
    }

    /// A write to the registers outside RAM, scratchpad, SIO, CD-ROM, SPU and expansion 2. A
    /// narrower write is merged into the register's current value and stored at its aligned
    /// address; a write to a DMA channel's CHCR runs the transfers it starts.
    fn write_hardware(&mut self, addr: u32, value: u32, width: AccessWidth)
        requires
            old(self).wf(),
            in_gpu(hw_write_addr(addr, width)) ==> (hw_write_addr(addr, width) == 0x1F80_1810
                || hw_write_addr(addr, width) == 0x1F80_1814),
            width == AccessWidth::Half ==> value <= 0xFFFF,
            width == AccessWidth::Byte ==> value <= 0xFF,
        ensures
            final(self).wf(),
            final(self).scheduler.current_cycle == old(self).scheduler.current_cycle,
            old(self).hw_write_effect(*final(self), addr, value, width),
    {
        let ghost old_bus = *self;
        let value = match width {
            AccessWidth::Word => value,
            AccessWidth::Half => {
                assert(addr & 1 <= 1) by { crate::bits::lemma_and_bounds(); }
                let shift = (addr & 1) * 8;
                let old_word = self.read_hardware(addr & !1u32);
                let merged = (old_word & !(0xFFFFu32 << shift)) | (value << shift);
                assert(shift == 0 && value <= 0xFFFF ==> merged as u16 == value as u16) by (bit_vector)
                    requires merged == (old_word & !(0xFFFFu32 << shift)) | (value << shift);
                merged
            },
            AccessWidth::Byte => {
                assert(addr & 3 <= 3) by { crate::bits::lemma_and_bounds(); }
                let shift = (addr & 3) * 8;
                let old_word = self.read_hardware(addr & !3u32);
                (old_word & !(0xFFu32 << shift)) | (value << shift)
            },
        };
        let addr = match width {
            AccessWidth::Word => addr,
            AccessWidth::Half => addr & !1u32,
            AccessWidth::Byte => addr & !3u32,
        };
        if let Some(_o) = memory_control_1_range().contains(addr) {
            return;
        }
        if addr == 0x1F80_1060 {
            return;
        }
        if let Some(offset) = interrupt_control_range().contains(addr) {
            return self.write_interrupt_control(offset, value as u16);
        }
        if let Some(offset) = dma_range().contains(addr) {
            self.dma.write_register(offset, value);
            if DmaController::is_chcr(offset) {
                self.tick_dma();
            }
            return;
        }
        if let Some(offset) = timers_range().contains(addr) {
            let timer = (offset / 0x10) as usize;
            let timer_offset = offset % 0x10;
            return self.timers.write_register(timer, timer_offset, value as u16);
        }
        if let Some(offset) = gpu_range().contains(addr) {
            return self.write_gpu_register(offset, value);
        }
        if let Some(offset) = mdec_range().contains(addr) {
            return self.mdec.write_register(offset, value);
        }
    }


    /// A read of `width` bytes, routed by physical address.
    fn read_any(&mut self, addr: u32, width: AccessWidth) -> (r: u32)
        requires
            old(self).wf(),
            read_ok(addr, width),
        ensures
            final(self).wf(),
            final(self).scheduler.current_cycle == old(self).scheduler.current_cycle,
            old(self).peek(mask_region_spec(addr), width) matches Some(v) ==> r == v && *final(self) == *old(self),
            width == AccessWidth::Half ==> r <= 0xFFFF || !(in_ram(mask_region_spec(addr)) || in_bios(mask_region_spec(addr)) || in_scratchpad(mask_region_spec(addr))),
            old(self).port_read_effect(*final(self), mask_region_spec(addr), r),
            in_sio(mask_region_spec(addr)) || in_cdrom(mask_region_spec(addr)) || in_spu(mask_region_spec(addr)) ==> r <= 0xFFFF,
    {
        let addr = mask_region(addr);
        if addr < 0x80_0000 {
            let o = addr & 0x1F_FFFF;
            assert(o == addr % 0x20_0000) by { crate::bits::lemma_and_mod(); }
            return match width {
                AccessWidth::Word => self.ram.read32(o),
                AccessWidth::Half => self.ram.read16(o) as u32,
                AccessWidth::Byte => self.ram.read8(o) as u32,
            };
        }
        if let Some(offset) = bios_range().contains(addr) {
            return match width {
                AccessWidth::Word => self.bios.read32(offset),
                AccessWidth::Half => self.bios.read16(offset) as u32,
                AccessWidth::Byte => self.bios.read8(offset) as u32,
            };
        }
        if let Some(offset) = scratchpad_range().contains(addr) {
            return match width {
                AccessWidth::Word => self.scratchpad.read32(offset),
                AccessWidth::Half => self.scratchpad.read16(offset) as u32,
                AccessWidth::Byte => self.scratchpad.read8(offset) as u32,
            };
        }
        if let Some(offset) = sio0_range().contains(addr) {
            return self.sio.read_register(offset);
        }
        if let Some(offset) = cdrom_range().contains(addr) {
            return self.cd_rom.read_register(offset) as u32;
        }
        if let Some(offset) = spu_range().contains(addr) {
            return self.spu.read_register(offset, &mut self.interrupt_controller) as u32;
        }
        let word = self.read_hardware(addr);
        assert(addr & 3 <= 3 && addr & 1 <= 1) by { crate::bits::lemma_and_bounds(); }
        assert((forall|x: u32| (x == 0x1F80_1810 || x == 0x1F80_1814 || x == 0x1F80_1820 || x == 0x1F80_1824)
            ==> #[trigger] (x & 3) == 0 && (x & 1) == 0) && (forall|v: u32| #[trigger] (v >> 0u32) == v)) by (bit_vector);
        let shift: u32 = match width {
            AccessWidth::Byte => (addr & 3) * 8,
            AccessWidth::Half => (addr & 1) * 8,
            AccessWidth::Word => 0,
        };
        proof {
            if addr == 0x1F80_1810 || addr == 0x1F80_1814 || addr == 0x1F80_1820 || addr == 0x1F80_1824 {
                assert((addr & 3) == 0 && (addr & 1) == 0 && (word >> 0u32) == word);
                assert(shift == 0);
            }
        }
        word >> shift
    }

    /// A write of the low `width` bytes of `value`, routed by physical address. Writes to the
    /// BIOS ROM and expansion region 2 are ignored.
    fn write_any(&mut self, addr: u32, value: u32, width: AccessWidth)
        requires
            old(self).wf(),
            write_ok(addr, width),
            width == AccessWidth::Half ==> value <= 0xFFFF,
            width == AccessWidth::Byte ==> value <= 0xFF,
        ensures
            final(self).wf(),
            final(self).scheduler.current_cycle == old(self).scheduler.current_cycle,
            ({
                let a = mask_region_spec(addr);
                &&& in_ram(a) ==> final(self).ram.data@ == mem_write(old(self).ram.data@, ram_offset(a), value, width)
                    && *final(self) == (SystemBus { ram: final(self).ram, ..*old(self) })
                &&& in_scratchpad(a) ==> final(self).scratchpad.data@ == mem_write(old(self).scratchpad.data@, a - 0x1F80_0000, value, width)
                    && *final(self) == (SystemBus { scratchpad: final(self).scratchpad, ..*old(self) })
                &&& (in_bios(a) || in_exp2(a)) ==> *final(self) == *old(self)
                &&& !(in_ram(a) || in_scratchpad(a) || in_bios(a) || in_exp2(a) || in_sio(a) || in_cdrom(a) || in_spu(a))
                    ==> old(self).hw_write_effect(*final(self), a, value, width)
                &&& old(self).port_write_effect(*final(self), a, value)
            }),
    {
        let addr = mask_region(addr);
        if addr < 0x80_0000 {
            let o = addr & 0x1F_FFFF;
            assert(o == addr % 0x20_0000) by { crate::bits::lemma_and_mod(); }
            match width {
                AccessWidth::Word => self.ram.write32(o, value),
                AccessWidth::Half => self.ram.write16(o, value as u16),
                AccessWidth::Byte => self.ram.write8(o, value as u8),
            }
            return;
        }
        if let Some(offset) = scratchpad_range().contains(addr) {
            match width {
                AccessWidth::Word => self.scratchpad.write32(offset, value),
                AccessWidth::Half => self.scratchpad.write16(offset, value as u16),
                AccessWidth::Byte => self.scratchpad.write8(offset, value as u8),
            }
            return;
        }
        if let Some(offset) = sio0_range().contains(addr) {
            return self.sio.write_register(offset, value, &mut self.scheduler);
        }
        if let Some(offset) = cdrom_range().contains(addr) {
            return self.cd_rom.write_register(offset, value as u8, &mut self.scheduler);
        }
        if let Some(offset) = spu_range().contains(addr) {
            return self.spu.write_register(offset, value as u16, &mut self.interrupt_controller);
        }
        if let Some(_o) = exp2_range().contains(addr) {
            return;
        }
        proof { lemma_align_down(addr); }
        self.write_hardware(addr, value, width);
    }

    pub fn read32(&mut self, addr: u32) -> (r: u32)
        requires
            old(self).wf(),
            read_ok(addr, AccessWidth::Word),
        ensures
            final(self).wf(),
            final(self).scheduler.current_cycle == old(self).scheduler.current_cycle,
            old(self).peek(mask_region_spec(addr), AccessWidth::Word) matches Some(v) ==> r == v && *final(self) == *old(self),
            old(self).port_read_effect(*final(self), mask_region_spec(addr), r),
    {
        self.read_any(addr, AccessWidth::Word)
    }

    pub fn read16(&mut self, addr: u32) -> (r: u16)
        requires
            old(self).wf(),
            read_ok(addr, AccessWidth::Half),
        ensures
            final(self).wf(),
            final(self).scheduler.current_cycle == old(self).scheduler.current_cycle,
            old(self).peek(mask_region_spec(addr), AccessWidth::Half) matches Some(v) ==> r == v as u16 && *final(self) == *old(self),
            in_sio(mask_region_spec(addr)) || in_cdrom(mask_region_spec(addr)) || in_spu(mask_region_spec(addr))
                ==> old(self).port_read_effect(*final(self), mask_region_spec(addr), r as u32),
    {
        self.read_any(addr, AccessWidth::Half) as u16
    }

    pub fn read8(&mut self, addr: u32) -> (r: u8)
        requires
            old(self).wf(),
            read_ok(addr, AccessWidth::Byte),
        ensures
            final(self).wf(),
            final(self).scheduler.current_cycle == old(self).scheduler.current_cycle,
            old(self).peek(mask_region_spec(addr), AccessWidth::Byte) matches Some(v) ==> r == v as u8 && *final(self) == *old(self),
    {
        self.read_any(addr, AccessWidth::Byte) as u8
    }

    pub fn write32(&mut self, addr: u32, value: u32)
        requires
            old(self).wf(),
            write_ok(addr, AccessWidth::Word),
        ensures
            final(self).wf(),
            final(self).scheduler.current_cycle == old(self).scheduler.current_cycle,
            old(self).write_effect(*final(self), addr, value, AccessWidth::Word),
    {
        self.write_any(addr, value, AccessWidth::Word)
    }

    pub fn write16(&mut self, addr: u32, value: u16)
        requires
            old(self).wf(),
            write_ok(addr, AccessWidth::Half),
        ensures
            final(self).wf(),
            final(self).scheduler.current_cycle == old(self).scheduler.current_cycle,
            old(self).write_effect(*final(self), addr, value as u32, AccessWidth::Half),
    {
        self.write_any(addr, value as u32, AccessWidth::Half)
    }

    pub fn write8(&mut self, addr: u32, value: u8)
        requires
            old(self).wf(),
            write_ok(addr, AccessWidth::Byte),
        ensures
            final(self).wf(),
            final(self).scheduler.current_cycle == old(self).scheduler.current_cycle,
            old(self).write_effect(*final(self), addr, value as u32, AccessWidth::Byte),
    {
        self.write_any(addr, value as u32, AccessWidth::Byte)
    }


    /// DMA6: clear an ordering table of `word_count` entries ending at `base_addr`.
    fn dma_otc(&mut self, base_addr: u32, word_count: u32)
        requires
            old(self).wf(),
        ensures
            final(self).wf(),
            final(self).ram.data@ == otc_ram(old(self).ram.data@, dma_addr(base_addr), word_count as nat),
            *final(self) == (SystemBus { ram: final(self).ram, ..*old(self) }),
    {
        let mut addr = dma_start(base_addr);
        let mut i: u32 = 0;
        while i < word_count
            invariant
                self.wf(),
                i <= word_count,
                addr == addr & 0x1F_FFFC,
                *self == (SystemBus { ram: self.ram, ..*old(self) }),
                otc_ram(self.ram.data@, addr, (word_count - i) as nat)
                    == otc_ram(old(self).ram.data@, dma_addr(base_addr), word_count as nat),
            decreases word_count - i,
        {
            assert(addr & 0x1F_FFFC <= 0x1F_FFFC) by { crate::bits::lemma_and_bounds(); }
            let val = if i == word_count - 1 { 0x00FF_FFFF } else { addr.wrapping_sub(4) & 0x00FF_FFFF };
            self.ram.write32(addr, val);
            let next = addr.wrapping_sub(4) & 0x1F_FFFC;
            assert(next & 0x1F_FFFC == next) by { crate::bits::lemma_or_and(); }
            addr = next;
            i = i + 1;
        }
        assert(addr == addr & 0x1F_FFFC);
    }

    /// DMA3: CD-ROM data FIFO to RAM, four bytes (little-endian) per word.
    fn dma_cdrom_to_ram(&mut self, dest_addr: u32, word_count: u32)
        requires
            old(self).wf(),
        ensures
            final(self).wf(),
            *final(self) == (SystemBus { ram: final(self).ram, cd_rom: final(self).cd_rom, ..*old(self) }),
    {
        let mut addr = dma_start(dest_addr);
        let mut i: u32 = 0;
        while i < word_count
            invariant
                self.wf(),
                i <= word_count,
                addr <= 0x1F_FFFC,
                *self == (SystemBus { ram: self.ram, cd_rom: self.cd_rom, ..*old(self) }),
            decreases word_count - i,
        {
            let b0 = self.cd_rom.read_data_fifo() as u32;
            let b1 = self.cd_rom.read_data_fifo() as u32;
            let b2 = self.cd_rom.read_data_fifo() as u32;
            let b3 = self.cd_rom.read_data_fifo() as u32;
            let word = b0 | (b1 << 8u32) | (b2 << 16u32) | (b3 << 24u32);
            self.ram.write32(addr, word);
            let next = next_dma_word(addr);
            addr = next;
            i = i + 1;
        }
    }

    /// DMA2 linked-list mode: send each node's words to GP0, following the links until a
    /// node with the end flag (bit 23), and at most `MAX_LIST_NODES` nodes.
    fn dma_gpu_linked_list(&mut self, base_addr: u32)
        requires
            old(self).wf(),
        ensures
            final(self).wf(),
            *final(self) == (SystemBus { gpu: final(self).gpu, ..*old(self) }),
    {
        let mut addr = dma_start(base_addr);
        let mut nodes: u32 = 0;
        while nodes < MAX_LIST_NODES
            invariant
                self.wf(),
                addr <= 0x1F_FFFC,
                *self == (SystemBus { gpu: self.gpu, ..*old(self) }),
            decreases MAX_LIST_NODES - nodes,
        {
            let header = self.ram.read32(addr);
            let word_count = header >> 24u32;
            let mut i: u32 = 0;
            while i < word_count
                invariant
                    self.wf(),
                    addr <= 0x1F_FFFC,
                    *self == (SystemBus { gpu: self.gpu, ..*old(self) }),
                decreases word_count - i,
            {
                let next = next_dma_word(addr);
                addr = next;
                let cmd = self.ram.read32(addr);
                self.gpu.write_register(0, cmd);
                i = i + 1;
            }
            if header & 0x0080_0000 != 0 {
                break;
            }
            let next = header & 0x1F_FFFC;
            assert(next <= 0x1F_FFFC) by { crate::bits::lemma_and_bounds(); }
            addr = next;
            nodes = nodes + 1;
        }
    }

    /// DMA2 block mode from RAM: `word_count` words to GP0.
    fn dma_gpu_vram_write(&mut self, base_addr: u32, word_count: u32)
        requires
            old(self).wf(),
        ensures
            final(self).wf(),
            *final(self) == (SystemBus { gpu: final(self).gpu, ..*old(self) }),
    {
        let mut addr = dma_start(base_addr);
        let mut i: u32 = 0;
        while i < word_count
            invariant
                self.wf(),
                i <= word_count,
                addr <= 0x1F_FFFC,
                *self == (SystemBus { gpu: self.gpu, ..*old(self) }),
            decreases word_count - i,
        {
            let data = self.ram.read32(addr);
            self.gpu.write_register(0, data);
            let next = next_dma_word(addr);
            addr = next;
            i = i + 1;
        }
    }

    /// DMA2 block mode to RAM: `word_count` words read from GPUREAD.
    fn dma_gpu_vram_read(&mut self, base_addr: u32, word_count: u32)
        requires
            old(self).wf(),
        ensures
            final(self).wf(),
            *final(self) == (SystemBus { gpu: final(self).gpu, ram: final(self).ram, ..*old(self) }),
    {
        let mut addr = dma_start(base_addr);
        let mut i: u32 = 0;
        while i < word_count
            invariant
                self.wf(),
                i <= word_count,
                addr <= 0x1F_FFFC,
                *self == (SystemBus { gpu: self.gpu, ram: self.ram, ..*old(self) }),
            decreases word_count - i,
        {
            let data = self.gpu.read_register(0);
            self.ram.write32(addr, data);
            let next = next_dma_word(addr);
            addr = next;
            i = i + 1;
        }
    }

    /// DMA4 from RAM: each word goes to the SPU data port as two halfwords, low first.
    fn dma_spu_write(&mut self, base_addr: u32, word_count: u32)
        requires
            old(self).wf(),
        ensures
            final(self).wf(),
            *final(self) == (SystemBus { spu: final(self).spu, interrupt_controller: final(self).interrupt_controller, ..*old(self) }),
            final(self).interrupt_controller.mask == old(self).interrupt_controller.mask,
    {
        let mut addr = dma_start(base_addr);
        let mut i: u32 = 0;
        while i < word_count
            invariant
                self.wf(),
                i <= word_count,
                addr <= 0x1F_FFFC,
                *self == (SystemBus { spu: self.spu, interrupt_controller: self.interrupt_controller, ..*old(self) }),
                self.interrupt_controller.mask == old(self).interrupt_controller.mask,
            decreases word_count - i,
        {
            let word = self.ram.read32(addr);
            let lo = (word & 0xFFFF) as u16;
            let hi = (word >> 16u32) as u16;
            self.spu.write_data_port(lo, &mut self.interrupt_controller);
            self.spu.write_data_port(hi, &mut self.interrupt_controller);
            let next = next_dma_word(addr);
            addr = next;
            i = i + 1;
        }
    }

    /// DMA4 to RAM: two halfwords from the SPU data port, low first, per word.
    fn dma_spu_read(&mut self, base_addr: u32, word_count: u32)
        requires
            old(self).wf(),
        ensures
            final(self).wf(),
            *final(self) == (SystemBus { spu: final(self).spu, ram: final(self).ram,
                interrupt_controller: final(self).interrupt_controller, ..*old(self) }),
            final(self).interrupt_controller.mask == old(self).interrupt_controller.mask,
    {
        let mut addr = dma_start(base_addr);
        let mut i: u32 = 0;
        while i < word_count
            invariant
                self.wf(),
                i <= word_count,
                addr <= 0x1F_FFFC,
                *self == (SystemBus { spu: self.spu, ram: self.ram, interrupt_controller: self.interrupt_controller, ..*old(self) }),
                self.interrupt_controller.mask == old(self).interrupt_controller.mask,
            decreases word_count - i,
        {
            let lo = self.spu.read_data_port(&mut self.interrupt_controller);
            let hi = self.spu.read_data_port(&mut self.interrupt_controller);
            let word = ((hi as u32) << 16u32) | (lo as u32);
            self.ram.write32(addr, word);
            let next = next_dma_word(addr);
            addr = next;
            i = i + 1;
        }
    }

    /// DMA0: command and parameter words to the MDEC in blocks of 32 words, while it wants
    /// input.
    fn dma_mdec_in(&mut self, base_addr: u32, word_count: u32)
        requires
            old(self).wf(),
        ensures
            final(self).wf(),
            *final(self) == (SystemBus { mdec: final(self).mdec, ..*old(self) }),
    {
        let mut addr = dma_start(base_addr);
        let mut remaining = word_count;
        while remaining > 0 && self.mdec.wants_more_input()
            invariant
                self.wf(),
                addr <= 0x1F_FFFC,
                *self == (SystemBus { mdec: self.mdec, ..*old(self) }),
            decreases remaining,
        {
            let block_words = if remaining < 0x20 { remaining } else { 0x20 };
            let mut i: u32 = 0;
            while i < block_words
                invariant
                    self.wf(),
                    i <= block_words,
                    addr <= 0x1F_FFFC,
                    *self == (SystemBus { mdec: self.mdec, ..*old(self) }),
                decreases block_words - i,
            {
                let word = self.ram.read32(addr);
                self.mdec.write_command_param(word);
                let next = next_dma_word(addr);
                addr = next;
                i = i + 1;
            }
            remaining = remaining - block_words;
        }
    }

    /// DMA1: output words of the MDEC to RAM, each at the offset the MDEC gives for it.
    fn dma_mdec_out(&mut self, base_addr: u32, word_count: u32)
        requires
            old(self).wf(),
        ensures
            final(self).wf(),
            *final(self) == (SystemBus { mdec: final(self).mdec, ram: final(self).ram, ..*old(self) }),
    {
        let mut addr = dma_start(base_addr);
        let mut remaining = word_count;
        while remaining > 0 && self.mdec.has_output_ready()
            invariant
                self.wf(),
                *self == (SystemBus { mdec: self.mdec, ram: self.ram, ..*old(self) }),
            decreases remaining,
        {
            let (word, byte_offset) = self.mdec.dma_read_data_out();
            let write_addr = addr.wrapping_add(byte_offset) & 0x1F_FFFC;
            assert(write_addr <= 0x1F_FFFC) by { crate::bits::lemma_and_bounds(); }
            self.ram.write32(write_addr, word);
            addr = addr.wrapping_add(4);
            remaining = remaining - 1;
        }
    }

    /// Run one transfer; only the devices and memory it moves data between change.
    fn execute_dma_transfer(&mut self, transfer: DmaTransfer)
        requires
            old(self).wf(),
        ensures
            final(self).wf(),
            final(self).dma == old(self).dma,
            final(self).scheduler == old(self).scheduler,
            final(self).interrupt_controller.mask == old(self).interrupt_controller.mask,
    {
        match transfer {
            DmaTransfer::OtcFill { base_addr, word_count } => self.dma_otc(base_addr, word_count),
            DmaTransfer::CdromToRam { dest_addr, word_count } => self.dma_cdrom_to_ram(dest_addr, word_count),
            DmaTransfer::GpuLinkedList { list_addr } => self.dma_gpu_linked_list(list_addr),
            DmaTransfer::GpuVramWrite { src_addr, word_count } => self.dma_gpu_vram_write(src_addr, word_count),
            DmaTransfer::GpuVramRead { dest_addr, word_count } => self.dma_gpu_vram_read(dest_addr, word_count),
            DmaTransfer::SpuWrite { src_addr, word_count } => self.dma_spu_write(src_addr, word_count),
            DmaTransfer::SpuRead { dest_addr, word_count } => self.dma_spu_read(dest_addr, word_count),
            DmaTransfer::MdecIn { src_addr, word_count } => self.dma_mdec_in(src_addr, word_count),
            DmaTransfer::MdecOut { dest_addr, word_count } => self.dma_mdec_out(dest_addr, word_count),
        }
    }

    /// Run every pending transfer, lowest channel first, marking each complete; the DMA
    /// interrupt is raised when completion sets DICR's master flag.
    fn tick_dma(&mut self)
        requires
            old(self).wf(),
        ensures
            final(self).wf(),
            final(self).dma.get_pending_spec() is None,
            final(self).scheduler == old(self).scheduler,
            final(self).interrupt_controller.mask == old(self).interrupt_controller.mask,
    {
        loop
            invariant
                self.wf(),
                self.scheduler == old(self).scheduler,
                self.interrupt_controller.mask == old(self).interrupt_controller.mask,
            ensures
                self.wf(),
                self.dma.get_pending_spec() is None,
                self.scheduler == old(self).scheduler,
                self.interrupt_controller.mask == old(self).interrupt_controller.mask,
            decreases active_count(self.dma.channels@, self.dma.enables@, 7),
        {
            match self.dma.get_pending_transfer() {
                Some((channel, transfer)) => {
                    let ghost before = self.dma;
                    proof { lemma_pending_is_active(before.channels@, before.enables@, before.priorities@); }
                    self.execute_dma_transfer(transfer);
                    self.dma.complete_transfer(channel);
                    if self.dma.irq_pending() {
                        self.interrupt_controller.raise_interrupt(Interrupt::DMA);
                    }
                    proof {
                        lemma_active_count_drop(before.channels@, self.dma.channels@, before.enables@, channel as int, 7);
                    }
                },
                None => {
                    break;
                },
            }
        }
    }


    /// How handling one due event changes the bus: VBlank raises its interrupt and comes back
    /// `VBLANK_CYCLES` later; a SIO reply is latched (with the controller interrupt when
    /// acknowledged); a CD-ROM response is delivered, or retried while an interrupt is
    /// unacknowledged; the CD-ROM sector timer reads the next sector or retries; the SPU
    /// clocks one sample, taking the next CD audio sample, and comes back `SPU_CYCLES` later.
    pub open spec fn event_handled(self, post: SystemBus, e: SchedulerEvent) -> bool {
        let ic = self.interrupt_controller;
        &&& post.interrupt_controller.mask == ic.mask
        &&& stat_grows(ic.stat, post.interrupt_controller.stat)
        &&& match e {
            SchedulerEvent::VBlank => {
                &&& post == (SystemBus { interrupt_controller: post.interrupt_controller, scheduler: post.scheduler, ..self })
                &&& post.interrupt_controller.stat == ic.stat | (1u16 << interrupt_bit(Interrupt::VBlank))
                &&& self.scheduler.added(post.scheduler, SchedulerEvent::VBlank, VBLANK_CYCLES)
            },
            SchedulerEvent::SioResponse { byte, dsr } => {
                &&& post == (SystemBus { interrupt_controller: post.interrupt_controller, sio: post.sio, ..self })
                &&& post.sio == (SioController {
                        rx_data: byte,
                        stat: if dsr { self.sio.stat | 0x282u16 } else { self.sio.stat | 2u16 },
                        ..self.sio
                    })
                &&& post.interrupt_controller.stat == (if dsr { ic.stat | (1u16 << interrupt_bit(Interrupt::Controller)) } else { ic.stat })
            },
            SchedulerEvent::CdRomResponse { bytes, int_code } => {
                &&& post == (SystemBus { interrupt_controller: post.interrupt_controller, cd_rom: post.cd_rom, scheduler: post.scheduler, ..self })
                &&& self.cd_rom.interrupt_flags != 0 ==> post.cd_rom == self.cd_rom
                    && self.scheduler.added(post.scheduler, SchedulerEvent::CdRomResponse { bytes, int_code }, RETRY_CYCLES)
                &&& self.cd_rom.interrupt_flags == 0 ==> post.cd_rom.command_result@ == self.cd_rom.command_result@ + bytes@
                    && post.cd_rom.interrupt_flags == int_code & 0x1F && post.scheduler.events == self.scheduler.events
            },
            SchedulerEvent::CdRomSectorRead => {
                let cd = self.cd_rom;
                &&& post == (SystemBus { interrupt_controller: post.interrupt_controller, cd_rom: post.cd_rom, scheduler: post.scheduler, ..self })
                &&& !cd.reading && !cd.playing ==> post.cd_rom == cd && post.scheduler.events == self.scheduler.events
                &&& (cd.reading || cd.playing) && cd.interrupt_flags != 0 ==> post.cd_rom == cd
                    && self.scheduler.added(post.scheduler, SchedulerEvent::CdRomSectorRead, RETRY_CYCLES)
                &&& (cd.reading || cd.playing) && cd.interrupt_flags == 0 ==>
                    post.cd_rom.current_logical_block == cd.current_logical_block.wrapping_add(1)
            },
            SchedulerEvent::Spu => {
                &&& post == (SystemBus { interrupt_controller: post.interrupt_controller, cd_rom: post.cd_rom, spu: post.spu, scheduler: post.scheduler, ..self })
                &&& post.spu.reverb.odd_tick == !self.spu.reverb.odd_tick
                &&& self.scheduler.added(post.scheduler, SchedulerEvent::Spu, SPU_CYCLES)
            },
        }
    }

    /// What advancing the bus by `cycles` does (see `tick`).
    pub open spec fn ticked(self, post: SystemBus, cycles: u32) -> bool {
        &&& post.scheduler.current_cycle == self.scheduler.current_cycle + cycles
        &&& post.interrupt_controller.mask == self.interrupt_controller.mask
        &&& stat_grows(self.interrupt_controller.stat, post.interrupt_controller.stat)
        &&& vblank_due(self.scheduler, post.scheduler.current_cycle)
                ==> post.interrupt_controller.stat & (1u16 << interrupt_bit(Interrupt::VBlank)) != 0
        &&& forall|i: int| 0 <= i < 3 ==> #[trigger] post.timers.counters@[i].current
                == self.timers.counters@[i].run_after(cycles as u64).0
        &&& self.timers.irq_bits(cycles as u64) & post.interrupt_controller.stat == self.timers.irq_bits(cycles as u64)
        // The events that fell due are the first `n` pending ones; starting from the bus with
        // the timers counted and those events taken off, each is handled in turn.
        &&& ({
                let now = (self.scheduler.current_cycle + cycles) as u64;
                let pending = self.scheduler.events@;
                exists|n: int, states: Seq<SystemBus>| #![trigger states[n]]
                    0 <= n <= pending.len()
                    && (forall|i: int| 0 <= i < n ==> #[trigger] pending[i].deadline <= now)
                    && (n < pending.len() ==> pending[n].deadline > now)
                    && states.len() == n + 1
                    && states[0].scheduler.events@ == pending.skip(n)
                    && states[0].scheduler.current_cycle == now
                    && states[0] == (SystemBus {
                        scheduler: states[0].scheduler,
                        interrupt_controller: states[0].interrupt_controller,
                        timers: states[0].timers,
                        ..self
                    })
                    && states[0].interrupt_controller.stat == self.interrupt_controller.stat | self.timers.irq_bits(cycles as u64)
                    && states[0].interrupt_controller.mask == self.interrupt_controller.mask
                    && states[0].timers == post.timers
                    && states[n] == post
                    && forall|k: int| 0 <= k < n ==> #[trigger] states[k].event_handled(states[k + 1], pending[k].kind)
            })
    }

    /// Advance `cycles`: the timers count, then every scheduled event that fell due is
    /// handled in deadline order. VBlank raises its interrupt and recurs every
    /// `VBLANK_CYCLES`; the SPU takes the next CD audio sample and recurs every `SPU_CYCLES`.
    pub fn tick(&mut self, cycles: u32)
        requires
            old(self).wf(),
            old(self).scheduler.current_cycle + cycles <= CYCLE_LIMIT,
        ensures
            final(self).wf(),
            old(self).ticked(*final(self), cycles),
    {
        proof { lemma_stat_grows(); }
        let ghost stat0 = self.interrupt_controller.stat;
        let ghost events0 = self.scheduler.events@;
        self.timers.tick(cycles as u64, &mut self.interrupt_controller);
        let ghost timers1 = self.timers;
        let ghost stat1 = self.interrupt_controller.stat;
        proof { crate::bits::lemma_or_and(); }
        let mut to_service = self.scheduler.advance(cycles);
        let ghost fired = to_service@;
        let ghost now = self.scheduler.current_cycle;
        proof {
            if vblank_due(old(self).scheduler, now) {
                let k = choose|k: int| 0 <= k < events0.len() && #[trigger] events0[k].kind == SchedulerEvent::VBlank
                    && events0[k].deadline <= now;
                if k >= fired.len() {
                    let rest = events0.skip(fired.len() as int);
                    assert(rest[0] == events0[fired.len() as int]);
                    assert(rest[k - fired.len()] == events0[k]);
                    assert(events0[fired.len() as int].deadline <= events0[k].deadline);
                }
                assert(fired[k] == SchedulerEvent::VBlank);
            }
        }
        let ghost s_start = *self;
        let ghost mut states: Seq<SystemBus> = seq![s_start];
        let ghost mut done: int = 0;
        while to_service.len() > 0
            invariant
                self.wf(),
                self.scheduler.current_cycle == old(self).scheduler.current_cycle + cycles,
                self.interrupt_controller.mask == old(self).interrupt_controller.mask,
                stat_grows(stat0, self.interrupt_controller.stat),
                0 <= done <= fired.len(),
                to_service@ == fired.skip(done),
                (exists|k: int| 0 <= k < done && #[trigger] fired[k] == SchedulerEvent::VBlank)
                    ==> self.interrupt_controller.stat & (1u16 << interrupt_bit(Interrupt::VBlank)) != 0,
                self.timers == timers1,
                stat_grows(stat1, self.interrupt_controller.stat),
                states.len() == done + 1,
                states[0] == s_start,
                states[done] == *self,
                forall|k: int| 0 <= k < done ==> #[trigger] states[k].event_handled(states[k + 1], fired[k]),
            decreases to_service@.len(),
        {
            proof { lemma_stat_grows(); }
            let ghost s_before = self.interrupt_controller.stat;
            let ghost pre = *self;
            let event = to_service.remove(0);
            proof {
                assert(event == fired[done]);
                assert(to_service@ =~= fired.skip(done + 1));
            }
            match event {
                SchedulerEvent::VBlank => {
                    self.interrupt_controller.raise_interrupt(Interrupt::VBlank);
                    proof { crate::interrupt_controller::lemma_raise_sets_stat_bit(s_before, Interrupt::VBlank); }
                    self.scheduler.schedule(SchedulerEvent::VBlank, VBLANK_CYCLES);
                },
                SchedulerEvent::CdRomResponse { bytes, int_code } => {
                    self.cd_rom.handle_response_event(bytes, int_code, &mut self.scheduler, &mut self.interrupt_controller);
                },
                SchedulerEvent::CdRomSectorRead => {
                    self.cd_rom.handle_sector_read_event(&mut self.scheduler, &mut self.interrupt_controller);
                },
                SchedulerEvent::SioResponse { byte, dsr } => {
                    self.sio.handle_event(byte, dsr, &mut self.interrupt_controller);
                },
                SchedulerEvent::Spu => {
                    let cd_sample = self.cd_rom.pull_cd_audio_sample();
                    self.spu.handle_event(cd_sample, &mut self.interrupt_controller);
                    self.scheduler.schedule(SchedulerEvent::Spu, SPU_CYCLES);
                },
            }
            proof {
                lemma_stat_grows();
                assert(stat_grows(s_before, self.interrupt_controller.stat));
                if exists|k: int| 0 <= k < done + 1 && #[trigger] fired[k] == SchedulerEvent::VBlank {
                    let k = choose|k: int| 0 <= k < done + 1 && #[trigger] fired[k] == SchedulerEvent::VBlank;
                    if k < done {
                        assert(s_before & (1u16 << interrupt_bit(Interrupt::VBlank)) != 0);
                    }
                }
                assert(pre.event_handled(*self, fired[done]));
                states = states.push(*self);
                assert forall|k: int| 0 <= k < done + 1 implies #[trigger] states[k].event_handled(states[k + 1], fired[k]) by {
                    if k < done {
                        assert(states[k] == states.drop_last()[k]);
                    }
                }
                done = done + 1;
            }
        }
        proof {
            if vblank_due(old(self).scheduler, now) {
                let k = choose|k: int| 0 <= k < fired.len() && #[trigger] fired[k] == SchedulerEvent::VBlank;
                assert(0 <= k < done && fired[k] == SchedulerEvent::VBlank);
            }
            let n = fired.len() as int;
            assert(states[n] == *self);
            assert forall|k: int| 0 <= k < n implies #[trigger] states[k].event_handled(states[k + 1], events0[k].kind) by {
                assert(fired[k] == events0[k].kind);
            }
            assert(n < events0.len() ==> s_start.scheduler.events@[0] == events0[n]);
            assert forall|i: int| 0 <= i < n implies #[trigger] events0[i].deadline <= now by {
                assert(fired[i] == events0[i].kind);
            }
            let bits = old(self).timers.irq_bits(cycles as u64);
            crate::bits::lemma_or_and();
            assert(stat1 == stat0 | bits);
            assert(self.interrupt_controller.stat & (stat0 | bits) == stat0 | bits);
        }
    }

    /// Insert the disc that the CUE sheet `cue` describes, with its data files.
    pub fn insert_cdrom_disc(&mut self, cue: &[u8], files: Vec<Box<dyn DiscSource>>) -> (r: Result<(), CueError>)
        requires
            old(self).wf(),
        ensures
            final(self).wf(),
            *final(self) == (SystemBus { cd_rom: final(self).cd_rom, ..*old(self) }),
            parse_cue_from(cue@, 0) matches Err(err) ==> r == Err::<(), CueError>(err),
            r is Err ==> final(self).cd_rom.disc == old(self).cd_rom.disc,
    {
        self.cd_rom.insert_disc(cue, files)
    }

}

} // verus!
