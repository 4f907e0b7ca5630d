//! Main RAM: 2 MiB mapped at physical 0x0000_0000 (mirrors are folded by the bus).
use vstd::prelude::*;
use crate::bytes::{le16, le32, put16, put32};

verus! {

/// Size of main RAM in bytes (2 MiB).
pub const RAM_SIZE: usize = 0x20_0000;

/// Main RAM, 2 MiB of byte-addressed memory.
pub struct Ram {
    pub data: Vec<u8>,
}

impl Ram {
    /// The backing store holds exactly `RAM_SIZE` bytes.
    pub open spec fn wf(&self) -> bool {
        self.data@.len() == RAM_SIZE
    }

    pub fn new() -> (r: Self)
        ensures
            r.wf(),
            forall|i: int| 0 <= i < RAM_SIZE ==> r.data@[i] == 0,
    {
        let data = vec![0u8; RAM_SIZE];
        proof {
            assert forall|i: int| 0 <= i < RAM_SIZE implies data@[i] == 0 by {
                assert(cloned(0u8, data@[i]));
            }
        }
        Ram { data }
    }

    pub fn read8(&self, offset: u32) -> (r: u8)
        requires
            self.wf(),
            offset < RAM_SIZE,
        ensures
            r == self.data@[offset as int],
    {
        self.data[offset as usize]
    }

    pub fn read16(&self, offset: u32) -> (r: u16)
        requires
            self.wf(),
            offset + 2 <= RAM_SIZE,
        ensures
            r == le16(self.data@, offset as int),
    {
        let o = offset as usize;
        (self.data[o] as u16) | ((self.data[o + 1] as u16) << 8u16)
    }

    pub fn read32(&self, offset: u32) -> (r: u32)
        requires
            self.wf(),
            offset + 4 <= RAM_SIZE,
        ensures
            r == le32(self.data@, offset as int),
    {
        let o = offset as usize;
        (self.data[o] as u32) | ((self.data[o + 1] as u32) << 8u32) | ((self.data[o + 2] as u32)
            << 16u32) | ((self.data[o + 3] as u32) << 24u32)
    }

    pub fn write8(&mut self, offset: u32, value: u8)
        requires
            old(self).wf(),
            offset < RAM_SIZE,
        ensures
            final(self).wf(),
            final(self).data@ == old(self).data@.update(offset as int, value),
    {
        self.data.set(offset as usize, value);
    }

    pub fn write16(&mut self, offset: u32, value: u16)
        requires
            old(self).wf(),
            offset + 2 <= RAM_SIZE,
        ensures
            final(self).wf(),
            final(self).data@ == put16(old(self).data@, offset as int, value),
    {
        let o = offset as usize;
        self.data.set(o, (value & 0xFF) as u8);
        self.data.set(o + 1, (value >> 8u16) as u8);
    }

    pub fn write32(&mut self, offset: u32, value: u32)
        requires
            old(self).wf(),
            offset + 4 <= RAM_SIZE,
        ensures
            final(self).wf(),
            final(self).data@ == put32(old(self).data@, offset as int, value),
    {
        let o = offset as usize;
        self.data.set(o, (value & 0xFF) as u8);
        self.data.set(o + 1, ((value >> 8u32) & 0xFF) as u8);
        self.data.set(o + 2, ((value >> 16u32) & 0xFF) as u8);
        self.data.set(o + 3, (value >> 24u32) as u8);
    }
}

} // verus!
