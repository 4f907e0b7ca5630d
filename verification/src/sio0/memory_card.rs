//! A 128 KiB memory card: 1024 sectors of 128 bytes, with the Read (52h), Write (57h) and
//! Get ID (53h) command sequences.
use vstd::prelude::*;
use crate::sio0::sio_device::SioDevice;

verus! {

pub const MEMORY_CARD_SIZE: usize = 131072;

#[derive(Debug, Clone, Copy, PartialEq, Eq, Structural)]
pub enum MemCardCommand {
    /// Waiting for the address byte 81h.
    AwaitingAddress,
    Idle,
    Read,
    Write,
    GetId,
}

#[derive(Debug, Clone, Copy, PartialEq, Eq, Structural)]
pub enum MemCardReadState {
    SendReadCommand,
    ReceiveId1,
    ReceiveId2,
    SendAddressMSB,
    SendAddressLSB,
    ReceiveCommandAck1,
    ReceiveCommandAck2,
    ReceiveConfirmedAddressMSB,
    ReceiveConfirmedAddressLSB,
    ReceiveDataSector,
    ReceiveMemoryEndByte,
}

#[derive(Debug, Clone, Copy, PartialEq, Eq, Structural)]
pub enum MemCardWriteState {
    SendWriteCommand,
    ReceiveId1,
    ReceiveId2,
    SendAddressMSB,
    SendAddressLSB,
    SendDataSector,
    ReceiveCommandAck1,
    ReceiveCommandAck2,
    ReceiveMemoryEndByte,
}

#[derive(Debug, Clone, Copy, PartialEq, Eq, Structural)]
pub enum MemCardGetIdState {
    SendGetIdCommand,
    ReceiveId1,
    ReceiveId2,
    ReceiveCommandAck1,
    ReceiveCommandAck2,
    Receive04h,
    Receive00h1,
    Receive00h2,
    Receive80h,
}

#[derive(Debug, Clone, Copy, PartialEq, Eq, Structural)]
pub enum MemCardCommandState {
    Read(MemCardReadState),
    Write(MemCardWriteState),
    GetId(MemCardGetIdState),
    Idle,
}

pub struct MemoryCard {
    pub data: Vec<u8>,
    pub command: MemCardCommand,
    pub command_state: MemCardCommandState,
    pub selected: bool,
    /// XOR of the address and data bytes of the transfer.
    pub checksum: u8,
    pub sector_number: u16,
    pub sector_buffer: [u8; 128],
    pub sector_buffer_cursor: usize,
}

/// The Read states after the sector address has been latched (and masked to 0..3FFh).
pub open spec fn read_address_latched(s: MemCardReadState) -> bool {
    match s {
        MemCardReadState::ReceiveCommandAck1 | MemCardReadState::ReceiveCommandAck2
        | MemCardReadState::ReceiveConfirmedAddressMSB
        | MemCardReadState::ReceiveConfirmedAddressLSB | MemCardReadState::ReceiveDataSector
        | MemCardReadState::ReceiveMemoryEndByte => true,
        _ => false,
    }
}

/// The Write states after the sector address has been latched.
pub open spec fn write_address_latched(s: MemCardWriteState) -> bool {
    match s {
        MemCardWriteState::SendDataSector | MemCardWriteState::ReceiveCommandAck1
        | MemCardWriteState::ReceiveCommandAck2 | MemCardWriteState::ReceiveMemoryEndByte => true,
        _ => false,
    }
}

pub open spec fn address_latched(s: MemCardCommandState) -> bool {
    match s {
        MemCardCommandState::Read(r) => read_address_latched(r),
        MemCardCommandState::Write(w) => write_address_latched(w),
        _ => false,
    }
}

/// `data` with the 128 bytes of sector `sector` replaced by `buf`.
pub open spec fn with_sector(data: Seq<u8>, sector: int, buf: Seq<u8>) -> Seq<u8> {
    Seq::new(
        data.len(),
        |i: int| if sector * 128 <= i < sector * 128 + 128 { buf[i - sector * 128] } else { data[i] },
    )
}

/// After a sector is stored, its 128 bytes read back as written and every other byte of
/// the card is as it was.
pub proof fn lemma_sector_roundtrip(data: Seq<u8>, sector: int, buf: Seq<u8>, i: int)
    requires
        data.len() == MEMORY_CARD_SIZE,
        0 <= sector < 1024,
        buf.len() == 128,
        0 <= i < MEMORY_CARD_SIZE,
    ensures
        sector * 128 <= i < sector * 128 + 128 ==> with_sector(data, sector, buf)[i] == buf[i - sector * 128],
        !(sector * 128 <= i < sector * 128 + 128) ==> with_sector(data, sector, buf)[i] == data[i],
        with_sector(data, sector, buf).len() == MEMORY_CARD_SIZE,
{
}

impl MemoryCard {
    pub open spec fn wf(&self) -> bool {
        &&& self.data@.len() == MEMORY_CARD_SIZE
        &&& self.sector_buffer_cursor <= 128
        &&& address_latched(self.command_state) ==> self.sector_number <= 0x3FF
    }

    /// A fixed step of a sequence: the expected byte gets `reply` and moves to `next`; any other
    /// byte gets FFh, ends the acknowledge and changes nothing.
    pub open spec fn fixed(self, byte: u8, expected: u8, reply: u8, next: MemCardCommandState, post: Self, r: (u8, bool)) -> bool {
        if byte == expected {
            r == (reply, true) && post == (MemoryCard { command_state: next, ..self })
        } else {
            r == (0xFFu8, false) && post == self
        }
    }

    /// One step of the Read sequence from state `s`.
    pub open spec fn read_step(self, s: MemCardReadState, byte: u8, post: Self, r: (u8, bool)) -> bool {
        let rd = |x: MemCardReadState| MemCardCommandState::Read(x);
        match s {
            MemCardReadState::SendReadCommand => self.fixed(byte, 0x52, 0x5A, rd(MemCardReadState::ReceiveId1), post, r),
            MemCardReadState::ReceiveId1 => self.fixed(byte, 0x00, 0x5A, rd(MemCardReadState::ReceiveId2), post, r),
            MemCardReadState::ReceiveId2 => if byte == 0 {
                r == (0x5Du8, true) && post == (MemoryCard { command_state: rd(MemCardReadState::SendAddressMSB), checksum: 0, ..self })
            } else {
                r == (0xFFu8, false) && post == self
            },
            MemCardReadState::SendAddressMSB => r == (0x00u8, true) && post == (MemoryCard {
                command_state: rd(MemCardReadState::SendAddressLSB),
                checksum: self.checksum ^ byte,
                sector_number: (byte as u16) << 8u16,
                ..self
            }),
            MemCardReadState::SendAddressLSB => {
                let sector = ((self.sector_number | byte as u16) & 0x3FF) as u16;
                r == ((sector >> 8u16) as u8, true) && post == (MemoryCard {
                    command_state: rd(MemCardReadState::ReceiveCommandAck1),
                    checksum: self.checksum ^ byte,
                    sector_number: sector,
                    ..self
                })
            },
            MemCardReadState::ReceiveCommandAck1 => self.fixed(byte, 0x00, 0x5C, rd(MemCardReadState::ReceiveCommandAck2), post, r),
            MemCardReadState::ReceiveCommandAck2 => self.fixed(byte, 0x00, 0x5D, rd(MemCardReadState::ReceiveConfirmedAddressMSB), post, r),
            MemCardReadState::ReceiveConfirmedAddressMSB => self.fixed(byte, 0x00, (self.sector_number >> 8u16) as u8,
                rd(MemCardReadState::ReceiveConfirmedAddressLSB), post, r),
            MemCardReadState::ReceiveConfirmedAddressLSB => if byte == 0 {
                r == ((self.sector_number & 0xFF) as u8, true) && post == (MemoryCard {
                    command_state: rd(MemCardReadState::ReceiveDataSector),
                    sector_buffer_cursor: 0,
                    ..self
                })
            } else {
                r == (0xFFu8, false) && post == self
            },
            MemCardReadState::ReceiveDataSector => if self.sector_buffer_cursor < 128 {
                let b = self.data@[self.sector_number as int * 128 + self.sector_buffer_cursor as int];
                r == (b, true) && post == (MemoryCard {
                    checksum: self.checksum ^ b,
                    sector_buffer_cursor: (self.sector_buffer_cursor + 1) as usize,
                    ..self
                })
            } else {
                r == (self.checksum, true) && post == (MemoryCard { command_state: rd(MemCardReadState::ReceiveMemoryEndByte), ..self })
            },
            MemCardReadState::ReceiveMemoryEndByte => r == (0x47u8, false)
                && post == (MemoryCard { command_state: MemCardCommandState::Idle, ..self }),
        }
    }

    /// One step of the Write sequence from state `s`.
    pub open spec fn write_step(self, s: MemCardWriteState, byte: u8, post: Self, r: (u8, bool)) -> bool {
        let wr = |x: MemCardWriteState| MemCardCommandState::Write(x);
        match s {
            MemCardWriteState::SendWriteCommand => self.fixed(byte, 0x57, 0x5A, wr(MemCardWriteState::ReceiveId1), post, r),
            MemCardWriteState::ReceiveId1 => self.fixed(byte, 0x00, 0x5A, wr(MemCardWriteState::ReceiveId2), post, r),
            MemCardWriteState::ReceiveId2 => if byte == 0 {
                r == (0x5Du8, true) && post == (MemoryCard { command_state: wr(MemCardWriteState::SendAddressMSB), checksum: 0, ..self })
            } else {
                r == (0xFFu8, false) && post == self
            },
            MemCardWriteState::SendAddressMSB => r == (0x00u8, true) && post == (MemoryCard {
                command_state: wr(MemCardWriteState::SendAddressLSB),
                checksum: self.checksum ^ byte,
                sector_number: (byte as u16) << 8u16,
                ..self
            }),
            MemCardWriteState::SendAddressLSB => {
                let sector = ((self.sector_number | byte as u16) & 0x3FF) as u16;
                r == ((sector >> 8u16) as u8, true) && post == (MemoryCard {
                    command_state: wr(MemCardWriteState::SendDataSector),
                    checksum: self.checksum ^ byte,
                    sector_number: sector,
                    sector_buffer_cursor: 0,
                    ..self
                })
            },
            MemCardWriteState::SendDataSector => if self.sector_buffer_cursor < 128 {
                r == (0x00u8, true) && post == (MemoryCard {
                    sector_buffer: post.sector_buffer,
                    checksum: self.checksum ^ byte,
                    sector_buffer_cursor: (self.sector_buffer_cursor + 1) as usize,
                    ..self
                }) && post.sector_buffer@ == self.sector_buffer@.update(self.sector_buffer_cursor as int, byte)
            } else {
                // The byte after the sector is the sender's checksum; what is left in
                // `checksum` is zero exactly when it matches.
                r == (self.checksum, true) && post == (MemoryCard {
                    command_state: wr(MemCardWriteState::ReceiveCommandAck1),
                    checksum: self.checksum ^ byte,
                    ..self
                })
            },
            MemCardWriteState::ReceiveCommandAck1 => self.fixed(byte, 0x00, 0x5C, wr(MemCardWriteState::ReceiveCommandAck2), post, r),
            MemCardWriteState::ReceiveCommandAck2 => if byte == 0 {
                r == (0x5Du8, true) && post == (MemoryCard {
                    data: post.data,
                    command_state: wr(MemCardWriteState::ReceiveMemoryEndByte),
                    ..self
                }) && post.data@ == (if self.checksum == 0 {
                    with_sector(self.data@, self.sector_number as int, self.sector_buffer@)
                } else {
                    self.data@
                })
            } else {
                r == (0xFFu8, false) && post == self
            },
            MemCardWriteState::ReceiveMemoryEndByte => r == (if self.checksum == 0 { 0x47u8 } else { 0x4Eu8 }, false)
                && post == (MemoryCard { command_state: MemCardCommandState::Idle, ..self }),
        }
    }

    /// One step of the Get ID sequence from state `s`: FLAG, 5Ah, 5Dh, 5Ch, 5Dh, 04h, 00h, 00h, 80h.
    pub open spec fn get_id_step(self, s: MemCardGetIdState, byte: u8, post: Self, r: (u8, bool)) -> bool {
        let gi = |x: MemCardGetIdState| MemCardCommandState::GetId(x);
        match s {
            MemCardGetIdState::SendGetIdCommand => self.fixed(byte, 0x53, 0x5A, gi(MemCardGetIdState::ReceiveId1), post, r),
            MemCardGetIdState::ReceiveId1 => self.fixed(byte, 0x00, 0x5A, gi(MemCardGetIdState::ReceiveId2), post, r),
            MemCardGetIdState::ReceiveId2 => self.fixed(byte, 0x00, 0x5D, gi(MemCardGetIdState::ReceiveCommandAck1), post, r),
            MemCardGetIdState::ReceiveCommandAck1 => self.fixed(byte, 0x00, 0x5C, gi(MemCardGetIdState::ReceiveCommandAck2), post, r),
            MemCardGetIdState::ReceiveCommandAck2 => self.fixed(byte, 0x00, 0x5D, gi(MemCardGetIdState::Receive04h), post, r),
            MemCardGetIdState::Receive04h => self.fixed(byte, 0x00, 0x04, gi(MemCardGetIdState::Receive00h1), post, r),
            MemCardGetIdState::Receive00h1 => self.fixed(byte, 0x00, 0x00, gi(MemCardGetIdState::Receive00h2), post, r),
            MemCardGetIdState::Receive00h2 => self.fixed(byte, 0x00, 0x00, gi(MemCardGetIdState::Receive80h), post, r),
            MemCardGetIdState::Receive80h => if byte == 0 {
                r == (0x80u8, false) && post == (MemoryCard { command_state: MemCardCommandState::Idle, ..self })
            } else {
                r == (0xFFu8, false) && post == self
            },
        }
    }

    /// One exchange within the running command, by the command state: a state of another
    /// command (or none, after the end byte) gets FFh and ends the transfer.
    pub open spec fn command_step(self, byte: u8, post: Self, r: (u8, bool)) -> bool {
        match self.command {
            MemCardCommand::Read => match self.command_state {
                MemCardCommandState::Read(s) => self.read_step(s, byte, post, r),
                _ => r == (0xFFu8, false) && post == self,
            },
            MemCardCommand::Write => match self.command_state {
                MemCardCommandState::Write(s) => self.write_step(s, byte, post, r),
                _ => r == (0xFFu8, false) && post == self,
            },
            MemCardCommand::GetId => match self.command_state {
                MemCardCommandState::GetId(s) => self.get_id_step(s, byte, post, r),
                _ => r == (0xFFu8, false) && post == self,
            },
            _ => true,
        }
    }

    /// What one exchanged byte does: 81h selects an unaddressed card; from Idle, 52h, 57h and
    /// 53h start Read, Write and Get ID (and are their first byte); other bytes get FFh.
    pub open spec fn exchange_spec(self, byte: u8, post: Self, r: (u8, bool)) -> bool {
        match self.command {
            MemCardCommand::AwaitingAddress => if byte == 0x81 {
                r == (0xFFu8, true) && post == (MemoryCard { command: MemCardCommand::Idle, ..self })
            } else {
                r == (0xFFu8, false) && post == self
            },
            MemCardCommand::Idle => if byte == 0x52 {
                (MemoryCard { command: MemCardCommand::Read, command_state: MemCardCommandState::Read(MemCardReadState::SendReadCommand), ..self })
                    .command_step(byte, post, r)
            } else if byte == 0x57 {
                (MemoryCard { command: MemCardCommand::Write, command_state: MemCardCommandState::Write(MemCardWriteState::SendWriteCommand), ..self })
                    .command_step(byte, post, r)
            } else if byte == 0x53 {
                (MemoryCard { command: MemCardCommand::GetId, command_state: MemCardCommandState::GetId(MemCardGetIdState::SendGetIdCommand), ..self })
                    .command_step(byte, post, r)
            } else {
                r == (0xFFu8, false) && post == self
            },
            _ => self.command_step(byte, post, r),
        }
    }

    pub fn new() -> (r: Self)
        ensures
            r.wf(),
            r.data@ == Seq::new(131072, |i: int| 0u8),
            r.command == MemCardCommand::AwaitingAddress,
            r.command_state == MemCardCommandState::Idle,
            !r.selected,
            r.checksum == 0,
            r.sector_number == 0,
            r.sector_buffer_cursor == 0,
    {
        let data = vec![0u8; 131072];
        assert(data@ =~= Seq::new(131072, |i: int| 0u8));
        Self {
            data,
            command: MemCardCommand::AwaitingAddress,
            command_state: MemCardCommandState::Idle,
            selected: false,
            checksum: 0,
            sector_number: 0,
            sector_buffer: [0; 128],
            sector_buffer_cursor: 0,
        }
    }

    fn exchange_read(&mut self, s: MemCardReadState, byte: u8) -> (r: (u8, bool))
        requires
            old(self).wf(),
            old(self).command_state == MemCardCommandState::Read(s),
        ensures
            final(self).wf(),
            old(self).read_step(s, byte, *final(self), r),
    {
        match s {
            MemCardReadState::SendReadCommand => {
                if byte == 0x52 {
                    self.command_state = MemCardCommandState::Read(MemCardReadState::ReceiveId1);
                    (0x5A, true)
                } else { (0xFF, false) }
            },
            MemCardReadState::ReceiveId1 => {
                if byte == 0x00 {
                    self.command_state = MemCardCommandState::Read(MemCardReadState::ReceiveId2);
                    (0x5A, true)
                } else { (0xFF, false) }
            },
            MemCardReadState::ReceiveId2 => {
                if byte == 0x00 {
                    self.checksum = 0;
                    self.command_state = MemCardCommandState::Read(MemCardReadState::SendAddressMSB);
                    (0x5D, true)
                } else { (0xFF, false) }
            },
            MemCardReadState::SendAddressMSB => {
                self.command_state = MemCardCommandState::Read(MemCardReadState::SendAddressLSB);
                self.checksum = self.checksum ^ byte;
                self.sector_number = (byte as u16) << 8u16;
                (0x00, true)
            },
            MemCardReadState::SendAddressLSB => {
                self.command_state = MemCardCommandState::Read(MemCardReadState::ReceiveCommandAck1);
                self.checksum = self.checksum ^ byte;
                let sn: u16 = self.sector_number | byte as u16;
                let s: u16 = sn & 0x03FF;
                assert(sn & 0x03FF <= 0x3FF) by { crate::bits::lemma_and_bounds(); }
                self.sector_number = s;
                ((self.sector_number >> 8u16) as u8, true)
            },
            MemCardReadState::ReceiveCommandAck1 => {
                if byte == 0x00 {
                    self.command_state = MemCardCommandState::Read(MemCardReadState::ReceiveCommandAck2);
                    (0x5C, true)
                } else { (0xFF, false) }
            },
            MemCardReadState::ReceiveCommandAck2 => {
                if byte == 0x00 {
                    self.command_state = MemCardCommandState::Read(MemCardReadState::ReceiveConfirmedAddressMSB);
                    (0x5D, true)
                } else { (0xFF, false) }
            },
            MemCardReadState::ReceiveConfirmedAddressMSB => {
                if byte == 0x00 {
                    self.command_state = MemCardCommandState::Read(MemCardReadState::ReceiveConfirmedAddressLSB);
                    ((self.sector_number >> 8u16) as u8, true)
                } else { (0xFF, false) }
            },
            MemCardReadState::ReceiveConfirmedAddressLSB => {
                if byte == 0x00 {
                    self.sector_buffer_cursor = 0;
                    self.command_state = MemCardCommandState::Read(MemCardReadState::ReceiveDataSector);
                    ((self.sector_number & 0xFF) as u8, true)
                } else { (0xFF, false) }
            },
            MemCardReadState::ReceiveDataSector => {
                if self.sector_buffer_cursor < 128 {
                    let data_byte = self.data[(self.sector_number as usize) * 128 + self.sector_buffer_cursor];
                    self.checksum = self.checksum ^ data_byte;
                    self.sector_buffer_cursor = self.sector_buffer_cursor + 1;
                    (data_byte, true)
                } else {
                    self.command_state = MemCardCommandState::Read(MemCardReadState::ReceiveMemoryEndByte);
                    (self.checksum, true)
                }
            },
            MemCardReadState::ReceiveMemoryEndByte => {
                self.command_state = MemCardCommandState::Idle;
                (0x47, false)
            },
        }
    }

    /// Copies the sector buffer into the card at the latched sector.
    fn store_sector(&mut self)
        requires
            old(self).wf(),
            old(self).sector_number <= 0x3FF,
        ensures
            final(self).data@ == with_sector(old(self).data@, old(self).sector_number as int, old(self).sector_buffer@),
            *final(self) == (MemoryCard { data: final(self).data, ..*old(self) }),
    {
        let start: usize = (self.sector_number as usize) * 128;
        let ghost orig = self.data@;
        let mut i: usize = 0;
        while i < 128
            invariant
                i <= 128,
                start == old(self).sector_number as int * 128,
                start + 128 <= MEMORY_CARD_SIZE,
                self.data@.len() == orig.len(),
                orig == old(self).data@,
                orig.len() == MEMORY_CARD_SIZE,
                *self == (MemoryCard { data: self.data, ..*old(self) }),
                forall|j: int| 0 <= j < orig.len() ==> #[trigger] self.data@[j] == (if start <= j < start + i {
                    old(self).sector_buffer@[j - start] } else { orig[j] }),
            decreases 128 - i,
        {
            let b = self.sector_buffer[i];
            self.data.set(start + i, b);
            i = i + 1;
        }
        assert(self.data@ =~= with_sector(orig, old(self).sector_number as int, old(self).sector_buffer@));
    }

    fn exchange_write(&mut self, s: MemCardWriteState, byte: u8) -> (r: (u8, bool))
        requires
            old(self).wf(),
            old(self).command_state == MemCardCommandState::Write(s),
        ensures
            final(self).wf(),
            old(self).write_step(s, byte, *final(self), r),
    {
        match s {
            MemCardWriteState::SendWriteCommand => {
                if byte == 0x57 {
                    self.command_state = MemCardCommandState::Write(MemCardWriteState::ReceiveId1);
                    (0x5A, true)
                } else { (0xFF, false) }
            },
            MemCardWriteState::ReceiveId1 => {
                if byte == 0x00 {
                    self.command_state = MemCardCommandState::Write(MemCardWriteState::ReceiveId2);
                    (0x5A, true)
                } else { (0xFF, false) }
            },
            MemCardWriteState::ReceiveId2 => {
                if byte == 0x00 {
                    self.checksum = 0;
                    self.command_state = MemCardCommandState::Write(MemCardWriteState::SendAddressMSB);
                    (0x5D, true)
                } else { (0xFF, false) }
            },
            MemCardWriteState::SendAddressMSB => {
                self.sector_number = (byte as u16) << 8u16;
                self.checksum = self.checksum ^ byte;
                self.command_state = MemCardCommandState::Write(MemCardWriteState::SendAddressLSB);
                (0x00, true)
            },
            MemCardWriteState::SendAddressLSB => {
                let sn: u16 = self.sector_number | byte as u16;
                let s: u16 = sn & 0x03FF;
                assert(sn & 0x03FF <= 0x3FF) by { crate::bits::lemma_and_bounds(); }
                self.sector_number = s;
                self.checksum = self.checksum ^ byte;
                self.sector_buffer_cursor = 0;
                self.command_state = MemCardCommandState::Write(MemCardWriteState::SendDataSector);
                ((self.sector_number >> 8u16) as u8, true)
            },
            MemCardWriteState::SendDataSector => {
                if self.sector_buffer_cursor < 128 {
                    self.sector_buffer[self.sector_buffer_cursor] = byte;
                    self.checksum = self.checksum ^ byte;
                    self.sector_buffer_cursor = self.sector_buffer_cursor + 1;
                    (0x00, true)
                } else {
                    let computed = self.checksum;
                    self.checksum = computed ^ byte;
                    self.command_state = MemCardCommandState::Write(MemCardWriteState::ReceiveCommandAck1);
                    (computed, true)
                }
            },
            MemCardWriteState::ReceiveCommandAck1 => {
                if byte == 0x00 {
                    self.command_state = MemCardCommandState::Write(MemCardWriteState::ReceiveCommandAck2);
                    (0x5C, true)
                } else { (0xFF, false) }
            },
            MemCardWriteState::ReceiveCommandAck2 => {
                if byte == 0x00 {
                    if self.checksum == 0 {
                        self.store_sector();
                    }
                    self.command_state = MemCardCommandState::Write(MemCardWriteState::ReceiveMemoryEndByte);
                    (0x5D, true)
                } else { (0xFF, false) }
            },
            MemCardWriteState::ReceiveMemoryEndByte => {
                self.command_state = MemCardCommandState::Idle;
                if self.checksum == 0 { (0x47, false) } else { (0x4E, false) }
            },
        }
    }

    fn exchange_get_id(&mut self, s: MemCardGetIdState, byte: u8) -> (r: (u8, bool))
        requires
            old(self).wf(),
            old(self).command_state == MemCardCommandState::GetId(s),
        ensures
            final(self).wf(),
            old(self).get_id_step(s, byte, *final(self), r),
    {
        let (expected, reply, next): (u8, u8, MemCardCommandState) = match s {
            MemCardGetIdState::SendGetIdCommand => (0x53, 0x5A, MemCardCommandState::GetId(MemCardGetIdState::ReceiveId1)),
            MemCardGetIdState::ReceiveId1 => (0x00, 0x5A, MemCardCommandState::GetId(MemCardGetIdState::ReceiveId2)),
            MemCardGetIdState::ReceiveId2 => (0x00, 0x5D, MemCardCommandState::GetId(MemCardGetIdState::ReceiveCommandAck1)),
            MemCardGetIdState::ReceiveCommandAck1 => (0x00, 0x5C, MemCardCommandState::GetId(MemCardGetIdState::ReceiveCommandAck2)),
            MemCardGetIdState::ReceiveCommandAck2 => (0x00, 0x5D, MemCardCommandState::GetId(MemCardGetIdState::Receive04h)),
            MemCardGetIdState::Receive04h => (0x00, 0x04, MemCardCommandState::GetId(MemCardGetIdState::Receive00h1)),
            MemCardGetIdState::Receive00h1 => (0x00, 0x00, MemCardCommandState::GetId(MemCardGetIdState::Receive00h2)),
            MemCardGetIdState::Receive00h2 => (0x00, 0x00, MemCardCommandState::GetId(MemCardGetIdState::Receive80h)),
            MemCardGetIdState::Receive80h => (0x00, 0x80, MemCardCommandState::Idle),
        };
        if byte == expected {
            self.command_state = next;
            (reply, !matches!(s, MemCardGetIdState::Receive80h))
        } else {
            (0xFF, false)
        }
    }

    /// Dispatches a byte to the running command's sequence.
    fn exchange_command(&mut self, byte: u8) -> (r: (u8, bool))
        requires
            old(self).wf(),
            old(self).command == MemCardCommand::Read || old(self).command == MemCardCommand::Write
                || old(self).command == MemCardCommand::GetId,
        ensures
            final(self).wf(),
            old(self).command_step(byte, *final(self), r),
    {
        match self.command {
            MemCardCommand::Read => match self.command_state {
                MemCardCommandState::Read(s) => self.exchange_read(s, byte),
                _ => (0xFF, false),
            },
            MemCardCommand::Write => match self.command_state {
                MemCardCommandState::Write(s) => self.exchange_write(s, byte),
                _ => (0xFF, false),
            },
            _ => match self.command_state {
                MemCardCommandState::GetId(s) => self.exchange_get_id(s, byte),
                _ => (0xFF, false),
            },
        }
    }

    /// Exchanges one byte with the card.
    pub fn exchange_byte(&mut self, byte: u8) -> (r: (u8, bool))
        requires
            old(self).wf(),
        ensures
            final(self).wf(),
            old(self).exchange_spec(byte, *final(self), r),
    {
        match self.command {
            MemCardCommand::AwaitingAddress => {
                if byte == 0x81 {
                    self.command = MemCardCommand::Idle;
                    (0xFF, true)
                } else {
                    (0xFF, false)
                }
            },
            MemCardCommand::Idle => {
                if byte == 0x52 {
                    self.command = MemCardCommand::Read;
                    self.command_state = MemCardCommandState::Read(MemCardReadState::SendReadCommand);
                    self.exchange_command(byte)
                } else if byte == 0x57 {
                    self.command = MemCardCommand::Write;
                    self.command_state = MemCardCommandState::Write(MemCardWriteState::SendWriteCommand);
                    self.exchange_command(byte)
                } else if byte == 0x53 {
                    self.command = MemCardCommand::GetId;
                    self.command_state = MemCardCommandState::GetId(MemCardGetIdState::SendGetIdCommand);
                    self.exchange_command(byte)
                } else {
                    (0xFF, false)
                }
            },
            _ => self.exchange_command(byte),
        }
    }

    /// The card after a reset: waiting for the address byte, with the transfer state cleared.
    pub open spec fn after_reset(self) -> Self {
        MemoryCard {
            command: MemCardCommand::AwaitingAddress,
            command_state: MemCardCommandState::Idle,
            checksum: 0,
            sector_number: 0,
            ..self
        }
    }

    pub fn reset_card(&mut self)
        ensures
            *final(self) == old(self).after_reset(),
    {
        self.command = MemCardCommand::AwaitingAddress;
        self.command_state = MemCardCommandState::Idle;
        self.checksum = 0;
        self.sector_number = 0;
    }
}

impl SioDevice for MemoryCard {
    open spec fn inv(&self) -> bool {
        self.wf()
    }

    fn exchange(&mut self, byte: u8) -> (r: (u8, bool)) {
        self.exchange_byte(byte)
    }

    fn reset(&mut self) {
        self.reset_card()
    }

    fn is_selected(&self) -> bool {
        self.selected
    }

    fn set_selected(&mut self, selected: bool) {
        self.selected = selected;
    }
}

} // verus!
