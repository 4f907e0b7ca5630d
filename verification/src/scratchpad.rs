//! Scratchpad: 1 KiB of data cache used as fast RAM, mapped at 0x1F80_0000.
use vstd::prelude::*;
use crate::bytes::{le16, le32, put16, put32};

verus! {

/// Size of the scratchpad in bytes (1 KiB).
pub const SCRATCHPAD_SIZE: usize = 0x400;

/// Scratchpad memory, 1 KiB of byte-addressed memory.
pub struct Scratchpad {
    pub data: Vec<u8>,
}

impl Scratchpad {
    /// The backing store holds exactly `SCRATCHPAD_SIZE` bytes.
    pub open spec fn wf(&self) -> bool {
        self.data@.len() == SCRATCHPAD_SIZE
    }

    pub fn new() -> (r: Self)
        ensures
            r.wf(),
            forall|i: int| 0 <= i < SCRATCHPAD_SIZE ==> r.data@[i] == 0,
    {
        let data = vec![0u8; SCRATCHPAD_SIZE];
        proof {
            assert forall|i: int| 0 <= i < SCRATCHPAD_SIZE implies data@[i] == 0 by {
                assert(cloned(0u8, data@[i]));
            }
        }
        Scratchpad { data }
    }

    pub fn read8(&self, offset: u32) -> (r: u8)
        requires
            self.wf(),
            offset < SCRATCHPAD_SIZE,
        ensures
            r == self.data@[offset as int],
    {
        self.data[offset as usize]
    }

    pub fn read16(&self, offset: u32) -> (r: u16)
        requires
            self.wf(),
            offset + 2 <= SCRATCHPAD_SIZE,
        ensures
            r == le16(self.data@, offset as int),
    {
        let o = offset as usize;
        (self.data[o] as u16) | ((self.data[o + 1] as u16) << 8u16)
    }

    pub fn read32(&self, offset: u32) -> (r: u32)
        requires
            self.wf(),
            offset + 4 <= SCRATCHPAD_SIZE,
        ensures
            r == le32(self.data@, offset as int),
    {
        let o = offset as usize;
        (self.data[o] as u32) | ((self.data[o + 1] as u32) << 8u32) | ((self.data[o + 2] as u32)
            << 16u32) | ((self.data[o + 3] as u32) << 24u32)
    }

    pub fn write8(&mut self, offset: u32, value: u8)
        requires
            old(self).wf(),
            offset < SCRATCHPAD_SIZE,
        ensures
            final(self).wf(),
            final(self).data@ == old(self).data@.update(offset as int, value),
    {
        self.data.set(offset as usize, value);
    }

    pub fn write16(&mut self, offset: u32, value: u16)
        requires
            old(self).wf(),
            offset + 2 <= SCRATCHPAD_SIZE,
        ensures
            final(self).wf(),
            final(self).data@ == put16(old(self).data@, offset as int, value),
    {
        let o = offset as usize;
        self.data.set(o, (value & 0xFF) as u8);
        self.data.set(o + 1, (value >> 8u16) as u8);
    }

    pub fn write32(&mut self, offset: u32, value: u32)
        requires
            old(self).wf(),
            offset + 4 <= SCRATCHPAD_SIZE,
        ensures
            final(self).wf(),
            final(self).data@ == put32(old(self).data@, offset as int, value),
    {
        let o = offset as usize;
        self.data.set(o, (value & 0xFF) as u8);
        self.data.set(o + 1, ((value >> 8u32) & 0xFF) as u8);
        self.data.set(o + 2, ((value >> 16u32) & 0xFF) as u8);
        self.data.set(o + 3, (value >> 24u32) as u8);
    }
}

} // verus!
