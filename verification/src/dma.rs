//! DMA controller: seven channels whose register settings the bus turns into transfers.
use vstd::prelude::*;

verus! {

/// A transfer the system bus performs, decoded from a channel's registers.
#[derive(Debug, Clone, PartialEq, Eq, PartialOrd, Ord, Hash)]
pub enum DmaTransfer {
    /// DMA6 (sync mode 0): fill RAM backwards with an empty ordering table.
    OtcFill { base_addr: u32, word_count: u32 },
    /// DMA3 (sync mode 0): CD-ROM data FIFO to RAM.
    CdromToRam { dest_addr: u32, word_count: u32 },
    /// DMA2 (sync mode 1): RAM to VRAM image data.
    GpuVramWrite { src_addr: u32, word_count: u32 },
    /// DMA2 (sync mode 1): VRAM to RAM image data.
    GpuVramRead { dest_addr: u32, word_count: u32 },
    /// DMA2 (sync mode 2): walk a GPU command linked list.
    GpuLinkedList { list_addr: u32 },
    /// DMA4: RAM to sound RAM.
    SpuWrite { src_addr: u32, word_count: u32 },
    /// DMA4: sound RAM to RAM.
    SpuRead { dest_addr: u32, word_count: u32 },
    /// DMA0: RAM to MDEC input.
    MdecIn { src_addr: u32, word_count: u32 },
    /// DMA1: MDEC output to RAM.
    MdecOut { dest_addr: u32, word_count: u32 },
}

/// D#_BCR, whose meaning depends on the sync mode.
pub struct DmaBlockControl(pub u32);

/// A 16-bit count field where 0 means 10000h.
pub open spec fn count16(v: u32) -> u32 {
    if v == 0 { 0x10000 } else { v }
}

impl DmaBlockControl {
    /// Sync mode 0: number of words.
    pub fn word_count(&self) -> (r: u32)
        ensures r == count16(self.0 & 0xFFFF), 1 <= r <= 0x10000,
    {
        let bc = self.0 & 0xFFFF;
        assert(forall|x: u32| #[trigger] (x & 0xFFFF) <= 0xFFFF) by { crate::bits::lemma_and_bounds(); }
        if bc == 0 { 0x10000 } else { bc }
    }

    /// Sync mode 1: words per block.
    pub fn block_size(&self) -> (r: u32)
        ensures r == count16(self.0 & 0xFFFF), 1 <= r <= 0x10000,
    {
        let bs = self.0 & 0xFFFF;
        assert(forall|x: u32| #[trigger] (x & 0xFFFF) <= 0xFFFF) by { crate::bits::lemma_and_bounds(); }
        if bs == 0 { 0x10000 } else { bs }
    }

    /// Sync mode 1: number of blocks.
    pub fn block_count(&self) -> (r: u32)
        ensures r == count16((self.0 >> 16u32) & 0xFFFF), 1 <= r <= 0x10000,
    {
        let ba = (self.0 >> 16u32) & 0xFFFF;
        assert(forall|x: u32| #[trigger] ((x >> 16u32) & 0xFFFF) <= 0xFFFF) by { crate::bits::lemma_and_bounds(); }
        if ba == 0 { 0x10000 } else { ba }
    }

    /// Sync mode 1: block size times block count. A product that does not fit 32 bits (only
    /// possible when both counts are 0, meaning 10000h each) wraps as the hardware counter does.
    pub fn total_words(&self) -> (r: u32)
        ensures r == ((self.block_size_spec() as int * self.block_count_spec() as int) % 0x1_0000_0000) as u32,
    {
        let a = self.block_size() as u64;
        let b = self.block_count() as u64;
        assert(a * b <= 0x1_0000_0000) by (nonlinear_arith) requires a <= 0x10000, b <= 0x10000;
        ((a * b) % 0x1_0000_0000) as u32
    }

    pub open spec fn block_size_spec(&self) -> u32 { count16(self.0 & 0xFFFF) }
    pub open spec fn block_count_spec(&self) -> u32 { count16((self.0 >> 16u32) & 0xFFFF) }
}

#[derive(Debug, Clone, Copy, PartialEq, Eq, Structural, PartialOrd, Ord, Hash)]
pub enum TransferDirection {
    ToRam,
    FromRam,
}

#[derive(Debug, Clone, Copy, PartialEq, Eq, Structural, PartialOrd, Ord, Hash)]
pub enum MemoryStep {
    Forward,
    Backward,
}

#[derive(Debug, Clone, Copy, PartialEq, Eq, Structural, PartialOrd, Ord, Hash)]
pub enum SyncMode {
    ImmediateStartTransfer,
    SyncBlocksToRequests,
    LinkedListMode,
    Reserved,
}

/// D#_CHCR, the channel control register, decoded.
#[derive(Clone, Copy)]
pub struct DmaChannelControl {
    pub direction: TransferDirection,
    pub memory_step: MemoryStep,
    pub enable_chopping: bool,
    pub sync_mode: SyncMode,
    pub chopping_dma_window_size: u8,
    pub chopping_cpu_window_size: u8,
    pub busy: bool,
    pub start_trigger: bool,
    /// Bits 29..30, whose meaning is unknown; they read back as written.
    pub unknown_bits: u32,
}

/// The CHCR bits that the decoded form keeps: direction (0), step (1), chopping (8), sync
/// mode (9..10), window sizes (16..18, 20..22), busy (24), trigger (28) and the two
/// read/write bits 29..30.
pub const CHCR_MASK: u32 = 0x7177_0703;

pub open spec fn sync_mode_of(v: u32) -> SyncMode {
    if v == 0 { SyncMode::ImmediateStartTransfer } else if v == 1 { SyncMode::SyncBlocksToRequests } else if v == 2 { SyncMode::LinkedListMode } else { SyncMode::Reserved }
}

pub open spec fn sync_mode_bits(m: SyncMode) -> u32 {
    match m {
        SyncMode::ImmediateStartTransfer => 0,
        SyncMode::SyncBlocksToRequests => 1,
        SyncMode::LinkedListMode => 2,
        SyncMode::Reserved => 3,
    }
}

/// The channel control decoded from a register word.
pub open spec fn chcr_from_word(word: u32) -> DmaChannelControl {
    DmaChannelControl {
        direction: if word & 1 == 0 { TransferDirection::ToRam } else { TransferDirection::FromRam },
        memory_step: if word & 2 == 0 { MemoryStep::Forward } else { MemoryStep::Backward },
        enable_chopping: word & 0x100 != 0,
        sync_mode: sync_mode_of((word >> 9u32) & 3),
        chopping_dma_window_size: ((word >> 16u32) & 7) as u8,
        chopping_cpu_window_size: ((word >> 20u32) & 7) as u8,
        busy: word & 0x100_0000 != 0,
        start_trigger: word & 0x1000_0000 != 0,
        unknown_bits: word & 0x6000_0000,
    }
}

/// The register word that a decoded channel control reads back as.
pub open spec fn chcr_to_word(c: DmaChannelControl) -> u32 {
    (if c.direction == TransferDirection::FromRam { 1u32 } else { 0u32 })
        | (if c.memory_step == MemoryStep::Backward { 2u32 } else { 0u32 })
        | (if c.enable_chopping { 0x100u32 } else { 0u32 })
        | (sync_mode_bits(c.sync_mode) << 9u32)
        | ((c.chopping_dma_window_size as u32) << 16u32)
        | ((c.chopping_cpu_window_size as u32) << 20u32)
        | (if c.busy { 0x100_0000u32 } else { 0u32 })
        | (if c.start_trigger { 0x1000_0000u32 } else { 0u32 })
        | c.unknown_bits
}

impl DmaChannelControl {
    pub fn new() -> (r: Self)
        ensures r == chcr_from_word(0),
    {
        assert(0u32 & 1 == 0 && 0u32 & 2 == 0 && 0u32 & 0x100 == 0 && (0u32 >> 9u32) & 3 == 0 && (0u32 >> 16u32) & 7 == 0 && (0u32 >> 20u32) & 7 == 0 && 0u32 & 0x100_0000 == 0 && 0u32 & 0x1000_0000 == 0 && 0u32 & 0x6000_0000 == 0) by (bit_vector);
        Self {
            direction: TransferDirection::ToRam,
            memory_step: MemoryStep::Forward,
            enable_chopping: false,
            sync_mode: SyncMode::ImmediateStartTransfer,
            chopping_dma_window_size: 0,
            chopping_cpu_window_size: 0,
            busy: false,
            start_trigger: false,
            unknown_bits: 0,
        }
    }

    pub fn from_word(word: u32) -> (r: Self)
        ensures r == chcr_from_word(word),
    {
        Self {
            direction: if (word & 1) == 0 { TransferDirection::ToRam } else { TransferDirection::FromRam },
            memory_step: if (word & 2) == 0 { MemoryStep::Forward } else { MemoryStep::Backward },
            enable_chopping: (word & 0x100) != 0,
            sync_mode: {
                let m = (word >> 9u32) & 3;
                if m == 0 { SyncMode::ImmediateStartTransfer } else if m == 1 { SyncMode::SyncBlocksToRequests } else if m == 2 { SyncMode::LinkedListMode } else { SyncMode::Reserved }
            },
            chopping_dma_window_size: ((word >> 16u32) & 7) as u8,
            chopping_cpu_window_size: ((word >> 20u32) & 7) as u8,
            busy: (word & 0x100_0000) != 0,
            start_trigger: (word & 0x1000_0000) != 0,
            unknown_bits: word & 0x6000_0000,
        }
    }

    pub fn to_word(&self) -> (r: u32)
        ensures r == chcr_to_word(*self),
    {
        let d: u32 = if self.direction == TransferDirection::FromRam { 1 } else { 0 };
        let s: u32 = if self.memory_step == MemoryStep::Backward { 2 } else { 0 };
        let c: u32 = if self.enable_chopping { 0x100 } else { 0 };
        let m: u32 = match self.sync_mode {
            SyncMode::ImmediateStartTransfer => 0,
            SyncMode::SyncBlocksToRequests => 1,
            SyncMode::LinkedListMode => 2,
            SyncMode::Reserved => 3,
        };
        let b: u32 = if self.busy { 0x100_0000 } else { 0 };
        let t: u32 = if self.start_trigger { 0x1000_0000 } else { 0 };
        d | s | c | (m << 9u32) | ((self.chopping_dma_window_size as u32) << 16u32) | ((self.chopping_cpu_window_size as u32) << 20u32) | b | t | self.unknown_bits
    }
}

/// Reading CHCR back after writing `word` gives the written word restricted to the bits
/// the channel keeps.
pub proof fn lemma_chcr_roundtrip(word: u32)
    ensures
        chcr_to_word(chcr_from_word(word)) == word & CHCR_MASK,
{
    let m = (word >> 9u32) & 3;
    assert(sync_mode_bits(sync_mode_of(m)) == m) by {
        assert(forall|w: u32| #[trigger] ((w >> 9u32) & 3) < 4) by { crate::bits::lemma_and_bounds(); }
    }
    let a: u32 = (if word & 1 == 0 { 0u32 } else { 1u32 });
    let b: u32 = (if word & 2 == 0 { 0u32 } else { 2u32 });
    let c: u32 = (if word & 0x100 == 0 { 0u32 } else { 0x100u32 });
    let e: u32 = (if word & 0x100_0000 == 0 { 0u32 } else { 0x100_0000u32 });
    let f: u32 = (if word & 0x1000_0000 == 0 { 0u32 } else { 0x1000_0000u32 });
    assert(a == word & 1 && b == word & 2 && c == word & 0x100 && e == word & 0x100_0000 && f == word & 0x1000_0000
        && (((word >> 16u32) & 7) as u8) as u32 == (word >> 16u32) & 7
        && (((word >> 20u32) & 7) as u8) as u32 == (word >> 20u32) & 7
        && (word & 1) | (word & 2) | (word & 0x100) | (((word >> 9u32) & 3) << 9u32) | (((word >> 16u32) & 7) << 16u32) | (((word >> 20u32) & 7) << 20u32) | (word & 0x100_0000) | (word & 0x1000_0000) | (word & 0x6000_0000) == word & 0x7177_0703) by (bit_vector)
        requires
            a == (if word & 1 == 0 { 0u32 } else { 1u32 }),
            b == (if word & 2 == 0 { 0u32 } else { 2u32 }),
            c == (if word & 0x100 == 0 { 0u32 } else { 0x100u32 }),
            e == (if word & 0x100_0000 == 0 { 0u32 } else { 0x100_0000u32 }),
            f == (if word & 0x1000_0000 == 0 { 0u32 } else { 0x1000_0000u32 });
}

/// One DMA channel: base address, block control and channel control.
pub struct DmaChannel {
    pub madr: u32,
    pub bcr: DmaBlockControl,
    pub chcr: DmaChannelControl,
}

impl DmaChannel {
    pub fn new() -> (r: Self)
        ensures r.madr == 0 && r.bcr.0 == 0 && r.chcr == chcr_from_word(0),
    {
        Self { madr: 0, bcr: DmaBlockControl(0), chcr: DmaChannelControl::new() }
    }

    /// Busy, and for sync mode 0 also manually triggered.
    pub fn is_active(&self) -> (r: bool)
        ensures r == self.active_spec(),
    {
        self.chcr.busy && match self.chcr.sync_mode {
            SyncMode::ImmediateStartTransfer => self.chcr.start_trigger,
            _ => true,
        }
    }

    pub open spec fn active_spec(&self) -> bool {
        self.chcr.busy && (self.chcr.sync_mode == SyncMode::ImmediateStartTransfer ==> self.chcr.start_trigger)
    }
}

/// The controller: seven channels plus DPCR (priorities/enables) and DICR (interrupts).
pub struct DmaController {
    pub channels: [DmaChannel; 7],
    pub priorities: [u8; 7],
    pub enables: [bool; 7],
    pub dicr: u32,
}

/// DPCR as the controller reads it back.
pub open spec fn dpcr_value(pri: Seq<u8>, en: Seq<bool>) -> u32 {
    dpcr_prefix(pri, en, 7)
}

pub open spec fn dpcr_prefix(pri: Seq<u8>, en: Seq<bool>, n: nat) -> u32
    decreases n,
{
    if n == 0 {
        0
    } else {
        let i = (n - 1) as nat;
        dpcr_prefix(pri, en, i) | (((pri[i as int] as u32) & 7) << (i * 4) as u32) | (if en[i as int] { 1u32 << (i * 4 + 3) as u32 } else { 0u32 })
    }
}

impl DmaController {
    pub fn new() -> (r: Self)
        ensures
            r.dicr == 0,
            forall|i: int| 0 <= i < 7 ==> r.priorities@[i] == 0 && !r.enables@[i] && #[trigger] r.channels@[i].madr == 0
                && r.channels@[i].bcr.0 == 0 && r.channels@[i].chcr == chcr_from_word(0),
    {
        Self {
            channels: [DmaChannel::new(), DmaChannel::new(), DmaChannel::new(), DmaChannel::new(), DmaChannel::new(), DmaChannel::new(), DmaChannel::new()],
            priorities: [0; 7],
            enables: [false; 7],
            dicr: 0,
        }
    }

    fn read_dpcr(&self) -> (r: u32)
        ensures r == dpcr_value(self.priorities@, self.enables@),
    {
        let mut value: u32 = 0;
        let mut i: usize = 0;
        while i < 7
            invariant
                i <= 7,
                value == dpcr_prefix(self.priorities@, self.enables@, i as nat),
            decreases 7 - i,
        {
            value = value | (((self.priorities[i] as u32) & 7) << ((i * 4) as u32));
            if self.enables[i] {
                value = value | (1u32 << ((i * 4 + 3) as u32));
            } else {
                assert(value | 0u32 == value) by { crate::bits::lemma_or_and(); }
            }
            i = i + 1;
        }
        value
    }

    /// Split DPCR into per-channel priority (3 bits) and enable (bit 3 of each nibble).
    fn write_dpcr(&mut self, value: u32)
        ensures
            forall|i: int| 0 <= i < 7 ==> #[trigger] final(self).priorities@[i] == ((value >> (i * 4) as u32) & 7) as u8
                && final(self).enables@[i] == (value & (1u32 << (i * 4 + 3) as u32) != 0),
            final(self).dicr == old(self).dicr,
            final(self).channels == old(self).channels,
    {
        let mut i: usize = 0;
        while i < 7
            invariant
                i <= 7,
                self.dicr == old(self).dicr,
                self.channels == old(self).channels,
                forall|k: int| 0 <= k < i ==> #[trigger] self.priorities@[k] == ((value >> (k * 4) as u32) & 7) as u8
                    && self.enables@[k] == (value & (1u32 << (k * 4 + 3) as u32) != 0),
            decreases 7 - i,
        {
            let sh = (i * 4) as u32;
            let sh3 = (i * 4 + 3) as u32;
            assert(sh == (i as int * 4) as u32 && sh3 == (i as int * 4 + 3) as u32);
            let ghost oldp = self.priorities@;
            let ghost olde = self.enables@;
            self.priorities[i] = ((value >> sh) & 7) as u8;
            self.enables[i] = (value & (1u32 << sh3)) != 0;
            assert(self.priorities@ == oldp.update(i as int, ((value >> sh) & 7) as u8));
            assert(self.enables@ == olde.update(i as int, (value & (1u32 << sh3)) != 0));
            assert(self.priorities@[i as int] == ((value >> (i as int * 4) as u32) & 7) as u8);
            assert(self.enables@[i as int] == (value & (1u32 << (i as int * 4 + 3) as u32) != 0));
            assert forall|k: int| 0 <= k < i + 1 implies #[trigger] self.priorities@[k] == ((value >> (k * 4) as u32) & 7) as u8
                    && self.enables@[k] == (value & (1u32 << (k * 4 + 3) as u32) != 0) by {
                if k < i {
                    assert(self.priorities@[k] == oldp[k]);
                }
            }
            i = i + 1;
        }
    }

    /// The value of the register at `offset` (see `read_register`).
    pub open spec fn register_value(self, offset: u32) -> u32 {
        if offset <= 0x68 && offset % 0x10 == 0 {
            self.channels@[(offset / 0x10) as int].madr
        } else if offset <= 0x68 && offset % 0x10 == 4 {
            self.channels@[(offset / 0x10) as int].bcr.0
        } else if offset <= 0x68 && offset % 0x10 == 8 {
            chcr_to_word(self.channels@[(offset / 0x10) as int].chcr)
        } else if offset == 0x70 {
            dpcr_value(self.priorities@, self.enables@)
        } else if offset == 0x74 {
            self.dicr
        } else {
            0
        }
    }

    /// Read a DMA register; `offset` is relative to 1F80_1080h. Per channel N: MADR at N*10h,
    /// BCR at N*10h+4, CHCR at N*10h+8; DPCR at 70h and DICR at 74h. Other offsets read 0.
    pub fn read_register(&self, offset: u32) -> (r: u32)
        ensures
            r == self.register_value(offset),
    {
        if offset <= 0x68 && offset % 0x10 == 0 {
            self.channels[(offset / 0x10) as usize].madr
        } else if offset <= 0x68 && offset % 0x10 == 4 {
            self.channels[(offset / 0x10) as usize].bcr.0
        } else if offset <= 0x68 && offset % 0x10 == 8 {
            self.channels[(offset / 0x10) as usize].chcr.to_word()
        } else if offset == 0x70 {
            self.read_dpcr()
        } else if offset == 0x74 {
            self.dicr
        } else {
            0
        }
    }

    /// How a write of `value` to register `offset` changes the controller: a channel's MADR,
    /// BCR or CHCR (the other channels and DICR unchanged), DPCR (the channels and DICR
    /// unchanged) or DICR; other offsets change nothing.
    pub open spec fn written(self, post: DmaController, offset: u32, value: u32) -> bool {
        &&& offset <= 0x68 && offset % 0x10 == 0 ==> post.channels@[(offset / 0x10) as int].madr == value
        &&& offset <= 0x68 && offset % 0x10 == 4 ==> post.channels@[(offset / 0x10) as int].bcr.0 == value
        &&& offset <= 0x68 && offset % 0x10 == 8 ==> post.channels@[(offset / 0x10) as int].chcr == chcr_from_word(value)
        &&& offset <= 0x68 && (offset % 0x10 == 0 || offset % 0x10 == 4 || offset % 0x10 == 8) ==>
            (forall|i: int| 0 <= i < 7 && i != offset / 0x10 ==> #[trigger] post.channels@[i] == self.channels@[i])
            && post.dicr == self.dicr && post.priorities == self.priorities && post.enables == self.enables
        &&& offset == 0x74 ==> post.dicr == value && post.channels == self.channels
        &&& offset == 0x70 ==> post.channels == self.channels && post.dicr == self.dicr
        &&& !(offset <= 0x68 && (offset % 0x10 == 0 || offset % 0x10 == 4 || offset % 0x10 == 8)) && offset != 0x70 && offset != 0x74 ==> post == self
    }

    /// Write a DMA register (same layout as `read_register`); other offsets are ignored.
    pub fn write_register(&mut self, offset: u32, value: u32)
        ensures
            old(self).written(*final(self), offset, value),
    {
        if offset <= 0x68 && offset % 0x10 == 0 {
            self.channels[(offset / 0x10) as usize].madr = value;
        } else if offset <= 0x68 && offset % 0x10 == 4 {
            self.channels[(offset / 0x10) as usize].bcr = DmaBlockControl(value);
        } else if offset <= 0x68 && offset % 0x10 == 8 {
            self.channels[(offset / 0x10) as usize].chcr = DmaChannelControl::from_word(value);
        } else if offset == 0x70 {
            self.write_dpcr(value);
        } else if offset == 0x74 {
            self.dicr = value;
        }
    }

    /// Mark `channel` finished: clear busy/trigger, set its DICR flag (bit 24+n) if its IRQ is
    /// enabled (bit 16+n), and recompute the master flag (bit 31) as
    /// bit15 OR (bit23 AND any of bits 24..30).
    pub fn complete_transfer(&mut self, channel: usize)
        requires channel < 7,
        ensures
            !final(self).channels@[channel as int].chcr.busy,
            !final(self).channels@[channel as int].chcr.start_trigger,
            forall|i: int| 0 <= i < 7 && i != channel ==> #[trigger] final(self).channels@[i] == old(self).channels@[i],
            final(self).dicr == dicr_after_completion(old(self).dicr, channel as u32),
            final(self).priorities == old(self).priorities,
            final(self).enables == old(self).enables,
    {
        self.channels[channel].chcr.busy = false;
        self.channels[channel].chcr.start_trigger = false;
        let ch = channel as u32;
        if (self.dicr >> (16 + ch)) & 1 != 0 {
            self.dicr = self.dicr | (1u32 << (24 + ch));
        }
        let force_irq = (self.dicr >> 15u32) & 1 != 0;
        let master_enable = (self.dicr >> 23u32) & 1 != 0;
        let any_flags = (self.dicr >> 24u32) & 0x7F != 0;
        if force_irq || (master_enable && any_flags) {
            self.dicr = self.dicr | 0x8000_0000;
        } else {
            self.dicr = self.dicr & 0x7FFF_FFFF;
        }
    }

    pub fn irq_pending(&self) -> (r: bool)
        ensures r == ((self.dicr >> 31u32) & 1 != 0),
    {
        (self.dicr >> 31u32) & 1 != 0
    }

    /// The transfer that channel `channel`'s registers describe (addresses masked to 24 bits);
    /// `None` for DMA2 in sync mode 3, DMA4 in sync modes 2/3, and DMA5.
    fn decode_channel(&self, channel: usize) -> (r: Option<DmaTransfer>)
        requires channel < 7,
        ensures r == decode_channel_spec(self.channels@[channel as int], channel),
    {
        let ch = &self.channels[channel];
        let addr = ch.madr & 0x00FF_FFFF;
        match channel {
            6 => Some(DmaTransfer::OtcFill { base_addr: addr, word_count: ch.bcr.word_count() }),
            2 => match ch.chcr.sync_mode {
                SyncMode::LinkedListMode => Some(DmaTransfer::GpuLinkedList { list_addr: addr }),
                SyncMode::SyncBlocksToRequests => {
                    if ch.chcr.direction == TransferDirection::FromRam {
                        Some(DmaTransfer::GpuVramWrite { src_addr: addr, word_count: ch.bcr.total_words() })
                    } else {
                        Some(DmaTransfer::GpuVramRead { dest_addr: addr, word_count: ch.bcr.total_words() })
                    }
                },
                SyncMode::ImmediateStartTransfer => Some(DmaTransfer::GpuVramWrite { src_addr: addr, word_count: ch.bcr.total_words() }),
                SyncMode::Reserved => None,
            },
            3 => Some(DmaTransfer::CdromToRam { dest_addr: addr, word_count: ch.bcr.word_count() }),
            4 => match ch.chcr.sync_mode {
                SyncMode::ImmediateStartTransfer | SyncMode::SyncBlocksToRequests => {
                    if ch.chcr.direction == TransferDirection::FromRam {
                        Some(DmaTransfer::SpuWrite { src_addr: addr, word_count: ch.bcr.total_words() })
                    } else {
                        Some(DmaTransfer::SpuRead { dest_addr: addr, word_count: ch.bcr.total_words() })
                    }
                },
                _ => None,
            },
            0 => Some(DmaTransfer::MdecIn { src_addr: addr, word_count: ch.bcr.total_words() }),
            1 => Some(DmaTransfer::MdecOut { dest_addr: addr, word_count: ch.bcr.total_words() }),
            _ => None,
        }
    }

    /// The enabled and active channel with the lowest DPCR priority value (0 is the highest
    /// priority; among equal values the lower channel number), with its transfer; `None`
    /// when no channel is ready or when the chosen channel's settings describe no transfer.
    pub fn get_pending_transfer(&self) -> (r: Option<(usize, DmaTransfer)>)
        ensures
            r == self.get_pending_spec(),
            r matches Some((c, _)) ==> c < 7,
    {
        let mut best: usize = 7;
        let mut i: usize = 7;
        while i > 0
            invariant
                i <= 7,
                best <= 7,
                best == best_channel(self.channels@, self.enables@, self.priorities@, i as int),
            decreases i,
        {
            i = i - 1;
            if self.enables[i] && self.channels[i].is_active() && (best == 7 || self.priorities[i] <= self.priorities[best]) {
                best = i;
            }
        }
        if best == 7 {
            None
        } else {
            match self.decode_channel(best) {
                Some(t) => Some((best, t)),
                None => None,
            }
        }
    }
}

pub open spec fn dicr_after_completion(dicr: u32, ch: u32) -> u32 {
    let d1 = if (dicr >> (16 + ch) as u32) & 1 != 0 { dicr | (1u32 << (24 + ch) as u32) } else { dicr };
    if (d1 >> 15u32) & 1 != 0 || ((d1 >> 23u32) & 1 != 0 && (d1 >> 24u32) & 0x7F != 0) { d1 | 0x8000_0000 } else { d1 & 0x7FFF_FFFF }
}

pub open spec fn total_words_spec(b: DmaBlockControl) -> u32 {
    ((b.block_size_spec() as int * b.block_count_spec() as int) % 0x1_0000_0000) as u32
}

pub open spec fn decode_channel_spec(ch: DmaChannel, channel: usize) -> Option<DmaTransfer> {
    let addr = ch.madr & 0x00FF_FFFF;
    let words = total_words_spec(ch.bcr);
    if channel == 6 {
        Some(DmaTransfer::OtcFill { base_addr: addr, word_count: count16(ch.bcr.0 & 0xFFFF) })
    } else if channel == 2 {
        match ch.chcr.sync_mode {
            SyncMode::LinkedListMode => Some(DmaTransfer::GpuLinkedList { list_addr: addr }),
            SyncMode::SyncBlocksToRequests => if ch.chcr.direction == TransferDirection::FromRam {
                Some(DmaTransfer::GpuVramWrite { src_addr: addr, word_count: words })
            } else {
                Some(DmaTransfer::GpuVramRead { dest_addr: addr, word_count: words })
            },
            SyncMode::ImmediateStartTransfer => Some(DmaTransfer::GpuVramWrite { src_addr: addr, word_count: words }),
            SyncMode::Reserved => None,
        }
    } else if channel == 3 {
        Some(DmaTransfer::CdromToRam { dest_addr: addr, word_count: count16(ch.bcr.0 & 0xFFFF) })
    } else if channel == 4 {
        if ch.chcr.sync_mode == SyncMode::ImmediateStartTransfer || ch.chcr.sync_mode == SyncMode::SyncBlocksToRequests {
            if ch.chcr.direction == TransferDirection::FromRam {
                Some(DmaTransfer::SpuWrite { src_addr: addr, word_count: words })
            } else {
                Some(DmaTransfer::SpuRead { dest_addr: addr, word_count: words })
            }
        } else {
            None
        }
    } else if channel == 0 {
        Some(DmaTransfer::MdecIn { src_addr: addr, word_count: words })
    } else if channel == 1 {
        Some(DmaTransfer::MdecOut { dest_addr: addr, word_count: words })
    } else {
        None
    }
}

/// Among channels `from..7`, the enabled and active one with the lowest priority value (the
/// lower channel number on a tie); 7 when there is none.
pub open spec fn best_channel(chs: Seq<DmaChannel>, en: Seq<bool>, pri: Seq<u8>, from: int) -> int
    decreases 7 - from,
{
    if from >= 7 || from < 0 {
        7
    } else {
        let rest = best_channel(chs, en, pri, from + 1);
        if en[from] && chs[from].active_spec() && (rest == 7 || pri[from] <= pri[rest]) { from } else { rest }
    }
}

/// The transfer of the channel that wins arbitration, if it describes one.
pub open spec fn pending_transfer_spec(chs: Seq<DmaChannel>, en: Seq<bool>, pri: Seq<u8>) -> Option<(usize, DmaTransfer)> {
    let c = best_channel(chs, en, pri, 0);
    if 0 <= c < 7 {
        match decode_channel_spec(chs[c], c as usize) {
            Some(t) => Some((c as usize, t)),
            None => None,
        }
    } else {
        None
    }
}

/// The winning channel is enabled and active, no enabled and active channel has a lower
/// priority value, and there is a winner whenever some channel is enabled and active.
pub proof fn lemma_best_channel(chs: Seq<DmaChannel>, en: Seq<bool>, pri: Seq<u8>, from: int)
    requires
        0 <= from <= 7,
    ensures
        ({
            let c = best_channel(chs, en, pri, from);
            &&& from <= c <= 7
            &&& c < 7 ==> en[c] && chs[c].active_spec()
            &&& forall|j: int| from <= j < 7 && en[j] && chs[j].active_spec() ==> c < 7 && #[trigger] pri[j] >= pri[c]
        }),
    decreases 7 - from,
{
    if from < 7 {
        lemma_best_channel(chs, en, pri, from + 1);
    }
}

/// A pending transfer comes from an enabled, active channel with the lowest priority value.
pub proof fn lemma_pending_is_active(chs: Seq<DmaChannel>, en: Seq<bool>, pri: Seq<u8>)
    requires
        pending_transfer_spec(chs, en, pri) is Some,
    ensures
        ({
            let c = pending_transfer_spec(chs, en, pri).unwrap().0 as int;
            &&& 0 <= c < 7 && en[c] && chs[c].active_spec()
            &&& forall|j: int| 0 <= j < 7 && en[j] && chs[j].active_spec() ==> #[trigger] pri[j] >= pri[c]
        }),
{
    lemma_best_channel(chs, en, pri, 0);
}

/// How many of the first `n` channels are enabled and active.
pub open spec fn active_count(chs: Seq<DmaChannel>, en: Seq<bool>, n: int) -> nat
    decreases n,
{
    if n <= 0 {
        0
    } else {
        active_count(chs, en, n - 1) + (if en[n - 1] && chs[n - 1].active_spec() { 1nat } else { 0nat })
    }
}

/// Deactivating one active channel, and changing no other, lowers the count by one.
pub proof fn lemma_active_count_drop(chs: Seq<DmaChannel>, chs2: Seq<DmaChannel>, en: Seq<bool>, c: int, n: int)
    requires
        0 <= c < 7,
        0 <= n <= 7,
        en[c] && chs[c].active_spec(),
        !chs2[c].active_spec(),
        forall|j: int| 0 <= j < 7 && j != c ==> #[trigger] chs2[j] == chs[j],
    ensures
        c < n ==> active_count(chs2, en, n) + 1 == active_count(chs, en, n),
        c >= n ==> active_count(chs2, en, n) == active_count(chs, en, n),
    decreases n,
{
    if n > 0 {
        lemma_active_count_drop(chs, chs2, en, c, n - 1);
    }
}

impl DmaController {
    /// The transfer `get_pending_transfer` would return.
    pub open spec fn get_pending_spec(&self) -> Option<(usize, DmaTransfer)> {
        pending_transfer_spec(self.channels@, self.enables@, self.priorities@)
    }

    /// Whether `offset` (from 1F80_1080h) is a channel's CHCR, whose write can start a transfer.
    pub fn is_chcr(offset: u32) -> (r: bool)
        ensures
            r == (offset <= 0x68 && offset % 0x10 == 8),
    {
        offset <= 0x68 && offset % 0x10 == 8
    }
}

} // verus!
