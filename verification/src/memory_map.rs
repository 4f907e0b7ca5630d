//! Physical memory map: each memory-mapped region as a half-open address range.
use vstd::prelude::*;

verus! {

/// A memory-mapped region `[start, end)` of the physical address space.
pub struct Range {
    pub start: u32,
    pub end: u32,
}

impl Range {
    /// If `addr` lies in the region, its offset from the region's base; otherwise `None`.
    pub fn contains(&self, addr: u32) -> (r: Option<u32>)
        ensures
            r == (if self.start <= addr < self.end {
                Some((addr - self.start) as u32)
            } else {
                None::<u32>
            }),
    {
        if addr >= self.start && addr < self.end {
            Some(addr - self.start)
        } else {
            None
        }
    }
}

/// 2 MiB of main RAM (mirrored every 2 MiB by the bus masking).
pub fn ram_range() -> (r: Range)
    ensures r.start == 0x0000_0000 && r.end == 0x0020_0000,
{
    Range { start: 0x0000_0000, end: 0x0020_0000 }
}

/// Expansion region 1, 8 MiB.
pub fn exp1_range() -> (r: Range)
    ensures r.start == 0x1F00_0000 && r.end == 0x1F80_0000,
{
    Range { start: 0x1F00_0000, end: 0x1F80_0000 }
}

/// Scratchpad (data cache used as fast RAM), 1 KiB.
pub fn scratchpad_range() -> (r: Range)
    ensures r.start == 0x1F80_0000 && r.end == 0x1F80_0400,
{
    Range { start: 0x1F80_0000, end: 0x1F80_0400 }
}

/// Memory control 1 registers.
pub fn memory_control_1_range() -> (r: Range)
    ensures r.start == 0x1F80_1000 && r.end == 0x1F80_1024,
{
    Range { start: 0x1F80_1000, end: 0x1F80_1024 }
}

/// Serial port 0 (controllers and memory cards).
pub fn sio0_range() -> (r: Range)
    ensures r.start == 0x1F80_1040 && r.end == 0x1F80_1050,
{
    Range { start: 0x1F80_1040, end: 0x1F80_1050 }
}

/// Interrupt status and mask registers.
pub fn interrupt_control_range() -> (r: Range)
    ensures r.start == 0x1F80_1070 && r.end == 0x1F80_1078,
{
    Range { start: 0x1F80_1070, end: 0x1F80_1078 }
}

/// DMA controller registers.
pub fn dma_range() -> (r: Range)
    ensures r.start == 0x1F80_1080 && r.end == 0x1F80_1100,
{
    Range { start: 0x1F80_1080, end: 0x1F80_1100 }
}

/// Root counter (timer) registers.
pub fn timers_range() -> (r: Range)
    ensures r.start == 0x1F80_1100 && r.end == 0x1F80_112C,
{
    Range { start: 0x1F80_1100, end: 0x1F80_112C }
}

/// CD-ROM controller registers.
pub fn cdrom_range() -> (r: Range)
    ensures r.start == 0x1F80_1800 && r.end == 0x1F80_1804,
{
    Range { start: 0x1F80_1800, end: 0x1F80_1804 }
}

/// GPU registers (GP0/GPUREAD and GP1/GPUSTAT).
pub fn gpu_range() -> (r: Range)
    ensures r.start == 0x1F80_1810 && r.end == 0x1F80_1818,
{
    Range { start: 0x1F80_1810, end: 0x1F80_1818 }
}

/// Macroblock decoder registers.
pub fn mdec_range() -> (r: Range)
    ensures r.start == 0x1F80_1820 && r.end == 0x1F80_1828,
{
    Range { start: 0x1F80_1820, end: 0x1F80_1828 }
}

/// Sound processing unit registers.
pub fn spu_range() -> (r: Range)
    ensures r.start == 0x1F80_1C00 && r.end == 0x1F80_1E80,
{
    Range { start: 0x1F80_1C00, end: 0x1F80_1E80 }
}

/// Expansion region 2 (serial port).
pub fn exp2_range() -> (r: Range)
    ensures r.start == 0x1F80_2000 && r.end == 0x1F80_2080,
{
    Range { start: 0x1F80_2000, end: 0x1F80_2080 }
}

/// 512 KiB of BIOS ROM.
pub fn bios_range() -> (r: Range)
    ensures r.start == 0x1FC0_0000 && r.end == 0x1FC8_0000,
{
    Range { start: 0x1FC0_0000, end: 0x1FC8_0000 }
}

} // verus!
