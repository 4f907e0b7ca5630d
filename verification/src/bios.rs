//! Read-only memory holding the BIOS image, mapped at physical 0x1FC0_0000.
use vstd::prelude::*;
use crate::bytes::{le16, le32};

verus! {

/// Size of the BIOS image in bytes (512 KiB).
pub const BIOS_SIZE: usize = 0x80000;

/// ROM image of the BIOS. Reads only; writes are absorbed by the bus.
pub struct Bios {
    pub data: Box<[u8]>,
}

impl Bios {
    /// The image holds exactly `BIOS_SIZE` bytes.
    pub open spec fn wf(&self) -> bool {
        self.data@.len() == BIOS_SIZE
    }

    pub fn new(bios_data: Box<[u8]>) -> (r: Self)
        requires
            bios_data@.len() == BIOS_SIZE,
        ensures
            r.wf(),
            r.data@ == bios_data@,
    {
        Self { data: bios_data }
    }

    pub fn read8(&self, offset: u32) -> (r: u8)
        requires
            self.wf(),
            offset < BIOS_SIZE,
        ensures
            r == self.data@[offset as int],
    {
        self.data[offset as usize]
    }

    pub fn read16(&self, offset: u32) -> (r: u16)
        requires
            self.wf(),
            offset + 2 <= BIOS_SIZE,
        ensures
            r == le16(self.data@, offset as int),
    {
        let o = offset as usize;
        (self.data[o] as u16) | ((self.data[o + 1] as u16) << 8u16)
    }

    pub fn read32(&self, offset: u32) -> (r: u32)
        requires
            self.wf(),
            offset + 4 <= BIOS_SIZE,
        ensures
            r == le32(self.data@, offset as int),
    {
        let o = offset as usize;
        (self.data[o] as u32) | ((self.data[o + 1] as u32) << 8u32) | ((self.data[o + 2] as u32)
            << 16u32) | ((self.data[o + 3] as u32) << 24u32)
    }
}

} // verus!
