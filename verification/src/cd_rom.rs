//! The CD-ROM controller: the four register ports, the command set with its scheduled
//! responses, sector reading (data, CD-DA and XA-ADPCM), and the track table built from a
//! CUE sheet.
use vstd::prelude::*;
use std::collections::VecDeque;
use crate::interrupt_controller::{Interrupt, InterruptController, interrupt_bit};
use crate::scheduler::{Scheduler, SchedulerEvent, MAX_DELAY};
use crate::spu::PcmSample;
use crate::xadpcm::{XaSubHeader, XadpcmDecoder, SECTOR_SIZE};

verus! {

/// Reads the bytes of one file of a disc image; supplied by the frontend.
pub trait DiscSource {
    /// Read `buf.len()` bytes from `offset`; returns the number of bytes read.
    fn read_at(&mut self, offset: u64, buf: &mut [u8]) -> (r: usize)
        ensures final(buf)@.len() == old(buf)@.len();

    /// Size of the file in bytes.
    fn len(&self) -> u64;
}

/// A disc image file held in memory.
pub struct MemoryDiscFile {
    pub data: Vec<u8>,
}

impl DiscSource for MemoryDiscFile {
    /// Copies the bytes from `offset` on, as many as fit in `buf` and as the file holds.
    fn read_at(&mut self, offset: u64, buf: &mut [u8]) -> (r: usize)
        ensures
            r as int == (if offset >= old(self).data@.len() { 0 } else {
                vstd::math::min(old(buf)@.len() as int, old(self).data@.len() - offset) }),
            forall|i: int| 0 <= i < r ==> final(buf)@[i] == old(self).data@[offset + i],
            final(self).data == old(self).data,
            forall|i: int| r <= i < old(buf)@.len() ==> final(buf)@[i] == old(buf)@[i],
    {
        let len = self.data.len() as u64;
        if offset >= len {
            return 0;
        }
        let avail = len - offset;
        let n: usize = if (buf.len() as u64) < avail { buf.len() } else { avail as usize };
        let start = offset as usize;
        let mut i: usize = 0;
        while i < n
            invariant
                i <= n,
                n <= buf@.len(),
                start == offset,
                start + n <= self.data.len(),
                buf@.len() == old(buf)@.len(),
                forall|j: int| 0 <= j < i ==> buf@[j] == self.data@[start + j],
                forall|j: int| i <= j < buf@.len() ==> buf@[j] == old(buf)@[j],
            decreases n - i,
        {
            buf[i] = self.data[start + i];
            i = i + 1;
        }
        n
    }

    fn len(&self) -> (r: u64)
        ensures
            r == self.data@.len(),
    {
        self.data.len() as u64
    }
}

#[derive(Debug, Clone, Copy, PartialEq, Eq, Structural)]
pub enum TrackType {
    Audio,
    Data,
}

/// One track of the inserted disc.
#[derive(Debug, Clone, Copy, PartialEq, Eq, Structural)]
pub struct Track {
    pub track_number: u8,
    /// First sector of the track (index 01), counted over the whole disc.
    pub start_logical_block: u32,
    pub track_type: TrackType,
    /// Which image file holds the track.
    pub file_index: usize,
    /// Byte offset of the track's first sector in its file.
    pub file_offset: u64,
}

/// An inserted disc: its image files (with their sizes) and its track table.
pub struct Disc {
    pub files: Vec<Box<dyn DiscSource>>,
    pub file_sizes: Vec<u64>,
    pub tracks: Vec<Track>,
}

impl Disc {
    pub open spec fn wf(&self) -> bool {
        &&& self.files@.len() == self.file_sizes@.len()
        &&& forall|i: int| 0 <= i < self.tracks@.len() ==> #[trigger] self.tracks@[i].file_index < self.files@.len()
    }
}

/// Response delays, in CPU cycles.
pub const GETSTAT: u64 = 0x000c4e1;
pub const DEFAULT_FIRST: u64 = 0x000c4e1;
pub const GETID_SECOND: u64 = 0x0004a00;
pub const PAUSE_SECOND_1X: u64 = 0x021181c;
pub const PAUSE_SECOND_2X: u64 = 0x010bd93;
pub const PAUSE_SECOND_ALREADY_PAUSED: u64 = 0x0001df2;
pub const STOP_SECOND_1X: u64 = 0x0d38aca;
pub const STOP_SECOND_2X: u64 = 0x18a6076;
pub const STOP_SECOND_ALREADY_STOPPED: u64 = 0x0001d7b;
/// Delay between sectors while reading or playing, at single and double speed.
pub const READ_INT1_1X: u64 = 0x006e1cd;
pub const READ_INT1_2X: u64 = 0x0036cd2;
pub const SEEK_DELAY: u64 = 0x1E400;
/// Delay before retrying a response or sector while an interrupt is unacknowledged.
pub const RETRY_CYCLES: u64 = 1000;

/// Sector address of a minutes:seconds:frames position (75 frames per second).
pub open spec fn msf_to_lba_spec(minutes: u8, seconds: u8, frames: u8) -> u32 {
    ((minutes * 60 + seconds) * 75 + frames) as u32
}

pub fn msf_to_lba(minutes: u8, seconds: u8, frames: u8) -> (r: u32)
    ensures r == msf_to_lba_spec(minutes, seconds, frames),
{
    (minutes as u32 * 60 + seconds as u32) * 75 + frames as u32
}

pub open spec fn decimal_to_bcd_spec(n: u8) -> u8 {
    (((n / 10) << 4u8) | (n % 10)) as u8
}

pub fn decimal_to_bcd(n: u8) -> (r: u8)
    ensures r == decimal_to_bcd_spec(n),
{
    ((n / 10) << 4u8) | (n % 10)
}

pub open spec fn bcd_to_decimal_spec(bcd: u8) -> u8 {
    ((bcd >> 4u8) * 10 + (bcd & 0x0F)) as u8
}

pub fn bcd_to_decimal(bcd: u8) -> (r: u8)
    ensures r == bcd_to_decimal_spec(bcd),
{
    assert(bcd >> 4u8 <= 15 && bcd & 0x0F <= 15) by { crate::bits::lemma_shifts_u8(); crate::bits::lemma_and_bounds(); }
    ((bcd >> 4u8) * 10) + (bcd & 0x0F)
}

/// A sector address as BCD minutes, seconds and frames, counting the 2-second lead-in
/// (addresses wrap modulo 2^32).
pub open spec fn lba_to_msf_bcd_spec(lba: u32) -> (u8, u8, u8) {
    let a = lba.wrapping_add(150);
    (decimal_to_bcd_spec((a / 75 / 60) as u8), decimal_to_bcd_spec(((a / 75) % 60) as u8), decimal_to_bcd_spec((a % 75) as u8))
}

/// A time within a track as BCD minutes, seconds and frames: `rel` sectors from the track's
/// start, without the lead-in (the lead-in that `lba_to_msf_bcd_spec` adds is taken off
/// first).
pub open spec fn track_time_bcd_spec(rel: u32) -> (u8, u8, u8) {
    lba_to_msf_bcd_spec(rel.wrapping_sub(150))
}

pub fn lba_to_msf_bcd(lba: u32) -> (r: (u8, u8, u8))
    ensures r == lba_to_msf_bcd_spec(lba),
{
    let lba = lba.wrapping_add(150);
    let minutes = #[verifier::truncate] ((lba / 75 / 60) as u8);
    let seconds = ((lba / 75) % 60) as u8;
    let sectors = (lba % 75) as u8;
    (decimal_to_bcd(minutes), decimal_to_bcd(seconds), decimal_to_bcd(sectors))
}

/// BCD encoding of 0..99 decodes back to the number.
pub proof fn lemma_bcd_roundtrip(n: u8)
    requires
        n < 100,
    ensures
        bcd_to_decimal_spec(decimal_to_bcd_spec(n)) == n,
{
    assert(n < 100 ==> ((((n / 10) << 4u8) | (n % 10)) >> 4u8) * 10 + ((((n / 10) << 4u8) | (n % 10)) & 0x0F) == n) by (bit_vector);
}

/// The BCD position that a sector address is reported at (lead-in included) names that
/// sector again, for the 100 minutes that BCD minutes can hold.
pub proof fn lemma_msf_roundtrip(lba: u32)
    requires
        lba + 150 < 100 * 60 * 75,
    ensures
        ({
            let (m, s, f) = lba_to_msf_bcd_spec(lba);
            msf_to_lba_spec(bcd_to_decimal_spec(m), bcd_to_decimal_spec(s), bcd_to_decimal_spec(f)) == lba + 150
        }),
{
    let a = lba.wrapping_add(150);
    assert(a == lba + 150);
    let mm = (a / 75 / 60) as u8;
    let ss = ((a / 75) % 60) as u8;
    let ff = (a % 75) as u8;
    assert(a / 75 / 60 < 100);
    lemma_bcd_roundtrip(mm);
    lemma_bcd_roundtrip(ss);
    lemma_bcd_roundtrip(ff);
    vstd::arithmetic::div_mod::lemma_fundamental_div_mod(a as int, 75);
    vstd::arithmetic::div_mod::lemma_fundamental_div_mod((a / 75) as int, 60);
    assert((mm * 60 + ss) * 75 + ff == a);
}

/// The last track (in table order) that starts at or before `lba`.
pub open spec fn track_for_lba(tracks: Seq<Track>, lba: u32) -> Option<Track>
    decreases tracks.len(),
{
    if tracks.len() == 0 {
        None
    } else if tracks.last().start_logical_block <= lba {
        Some(tracks.last())
    } else {
        track_for_lba(tracks.drop_last(), lba)
    }
}

fn find_track_for_lba(tracks: &Vec<Track>, lba: u32) -> (r: Option<Track>)
    ensures
        r == track_for_lba(tracks@, lba),
        r matches Some(t) ==> t.start_logical_block <= lba,
{
    let mut i = tracks.len();
    assert(tracks@.take(i as int) =~= tracks@);
    while i > 0
        invariant
            i <= tracks@.len(),
            track_for_lba(tracks@, lba) == track_for_lba(tracks@.take(i as int), lba),
        decreases i,
    {
        let t = tracks[i - 1];
        assert(tracks@.take(i as int).drop_last() =~= tracks@.take(i as int - 1));
        if t.start_logical_block <= lba {
            return Some(t);
        }
        i = i - 1;
    }
    None
}

/// The first track with the given number.
pub open spec fn track_numbered(tracks: Seq<Track>, number: u8) -> Option<Track>
    decreases tracks.len(),
{
    if tracks.len() == 0 {
        None
    } else if tracks[0].track_number == number {
        Some(tracks[0])
    } else {
        track_numbered(tracks.drop_first(), number)
    }
}

fn find_track_numbered(tracks: &Vec<Track>, number: u8) -> (r: Option<Track>)
    ensures r == track_numbered(tracks@, number),
{
    let mut i: usize = 0;
    assert(tracks@.skip(0) =~= tracks@);
    while i < tracks.len()
        invariant
            i <= tracks@.len(),
            track_numbered(tracks@, number) == track_numbered(tracks@.skip(i as int), number),
        decreases tracks@.len() - i,
    {
        let t = tracks[i];
        assert(tracks@.skip(i as int).drop_first() =~= tracks@.skip(i as int + 1));
        if t.track_number == number {
            return Some(t);
        }
        i = i + 1;
    }
    assert(tracks@.skip(i as int) =~= Seq::<Track>::empty());
    None
}

/// The first track that starts after sector `lba`.
pub open spec fn track_after(tracks: Seq<Track>, lba: u32) -> Option<Track>
    decreases tracks.len(),
{
    if tracks.len() == 0 {
        None
    } else if tracks[0].start_logical_block > lba {
        Some(tracks[0])
    } else {
        track_after(tracks.drop_first(), lba)
    }
}

fn find_track_after(tracks: &Vec<Track>, lba: u32) -> (r: Option<Track>)
    ensures r == track_after(tracks@, lba),
{
    let mut i: usize = 0;
    assert(tracks@.skip(0) =~= tracks@);
    while i < tracks.len()
        invariant
            i <= tracks@.len(),
            track_after(tracks@, lba) == track_after(tracks@.skip(i as int), lba),
        decreases tracks@.len() - i,
    {
        let t = tracks[i];
        assert(tracks@.skip(i as int).drop_first() =~= tracks@.skip(i as int + 1));
        if t.start_logical_block > lba {
            return Some(t);
        }
        i = i + 1;
    }
    assert(tracks@.skip(i as int) =~= Seq::<Track>::empty());
    None
}

/// Something the controller asks the scheduler to do, in order.
#[derive(Debug)]
pub enum CdAction {
    /// Drop every pending response.
    CancelResponses,
    /// Drop every pending sector read.
    CancelSectorReads,
    /// Read (or play) the next sector after `delay` cycles.
    ScheduleSectorRead { delay: u64 },
    /// Deliver `bytes` with interrupt `int_code` after `delay` cycles.
    Respond { delay: u64, bytes: Vec<u8>, int_code: u8 },
}

pub open spec fn is_respond(a: CdAction, delay: u64, bytes: Seq<u8>, code: u8) -> bool {
    a matches CdAction::Respond { delay: d, bytes: b, int_code: c } && d == delay && b@ == bytes && c == code
}

pub open spec fn is_sector_read(a: CdAction, delay: u64) -> bool {
    a matches CdAction::ScheduleSectorRead { delay: d } && d == delay
}

fn respond(delay: u64, bytes: Vec<u8>, int_code: u8) -> (r: CdAction)
    ensures is_respond(r, delay, bytes@, int_code),
{
    CdAction::Respond { delay, bytes, int_code }
}

/// The CD-ROM controller.
pub struct CdRom {
    /// Register bank selected through port 0 (0..3).
    pub register_index: u8,
    /// Parameter FIFO (at most 16 bytes).
    pub command_args: Vec<u8>,
    /// Response FIFO.
    pub command_result: VecDeque<u8>,
    pub interrupt_flags: u8,
    pub interrupt_enable: u8,
    /// Drive mode from Setmode.
    pub mode: u8,
    /// Sector the next seek, read or play goes to (set by Setloc).
    pub seek_target: Option<u32>,
    pub current_logical_block: u32,
    pub reading: bool,
    pub playing: bool,
    pub disc: Option<Disc>,
    pub sector_buffer: [u8; 2352],
    /// The data FIFO was requested (request register bit 7).
    pub data_fifo_loaded: bool,
    pub data_buffer: Vec<u8>,
    pub data_buffer_offset: usize,
    pub xa_filter_enabled: bool,
    pub xa_filter_file: u8,
    pub xa_filter_channel: u8,
    pub pending_cdda_samples: VecDeque<(PcmSample, PcmSample)>,
    pub xadpcm_decoder: XadpcmDecoder,
    /// CD-to-SPU volumes written through the ports, and the ones in effect.
    pub cd_vol_ll: u8,
    pub cd_vol_lr: u8,
    pub cd_vol_rr: u8,
    pub cd_vol_rl: u8,
    pub applied_vol_ll: u8,
    pub applied_vol_lr: u8,
    pub applied_vol_rr: u8,
    pub applied_vol_rl: u8,
}

impl CdRom {
    pub open spec fn wf(&self) -> bool {
        &&& self.register_index < 4
        &&& self.command_args@.len() <= 16
        &&& (self.data_buffer@.len() == 0 || self.data_buffer@.len() == 2048 || self.data_buffer@.len() == 2340)
        &&& self.data_buffer_offset <= 2340
        &&& (self.data_buffer@.len() > 0 ==> self.data_buffer_offset < self.data_buffer@.len())
        &&& (self.seek_target is Some ==> !self.reading && !self.playing)
        &&& (self.disc matches Some(d) ==> d.wf())
        &&& self.xadpcm_decoder.wf()
    }

    /// Everything outside the drive state (mode, seek target, head position, read/play, XA
    /// filter) agrees.
    pub open spec fn same_io(&self, other: &CdRom) -> bool {
        &&& self.register_index == other.register_index
        &&& self.command_args == other.command_args
        &&& self.command_result == other.command_result
        &&& self.interrupt_flags == other.interrupt_flags
        &&& self.interrupt_enable == other.interrupt_enable
        &&& self.disc == other.disc
        &&& self.sector_buffer == other.sector_buffer
        &&& self.data_fifo_loaded == other.data_fifo_loaded
        &&& self.data_buffer == other.data_buffer
        &&& self.data_buffer_offset == other.data_buffer_offset
        &&& self.pending_cdda_samples == other.pending_cdda_samples
        &&& self.xadpcm_decoder == other.xadpcm_decoder
        &&& self.cd_vol_ll == other.cd_vol_ll && self.cd_vol_lr == other.cd_vol_lr
        &&& self.cd_vol_rr == other.cd_vol_rr && self.cd_vol_rl == other.cd_vol_rl
        &&& self.applied_vol_ll == other.applied_vol_ll && self.applied_vol_lr == other.applied_vol_lr
        &&& self.applied_vol_rr == other.applied_vol_rr && self.applied_vol_rl == other.applied_vol_rl
    }

    /// The pending and applied CD audio volumes agree.
    pub open spec fn same_volumes(&self, other: &CdRom) -> bool {
        &&& self.cd_vol_ll == other.cd_vol_ll && self.cd_vol_lr == other.cd_vol_lr
        &&& self.cd_vol_rr == other.cd_vol_rr && self.cd_vol_rl == other.cd_vol_rl
        &&& self.applied_vol_ll == other.applied_vol_ll && self.applied_vol_lr == other.applied_vol_lr
        &&& self.applied_vol_rr == other.applied_vol_rr && self.applied_vol_rl == other.applied_vol_rl
    }

    /// The drive state agrees.
    pub open spec fn same_drive(&self, other: &CdRom) -> bool {
        &&& self.mode == other.mode
        &&& self.seek_target == other.seek_target
        &&& self.current_logical_block == other.current_logical_block
        &&& self.reading == other.reading
        &&& self.playing == other.playing
        &&& self.xa_filter_enabled == other.xa_filter_enabled
        &&& self.xa_filter_file == other.xa_filter_file
        &&& self.xa_filter_channel == other.xa_filter_channel
    }

    pub fn new() -> (r: Self)
        ensures
            r.wf(),
            r.register_index == 0,
            r.command_args@.len() == 0,
            r.command_result@.len() == 0,
            r.interrupt_flags == 0,
            r.interrupt_enable == 0,
            r.mode == 0,
            r.seek_target is None,
            r.current_logical_block == 0,
            !r.reading, !r.playing,
            r.disc is None,
            !r.data_fifo_loaded,
            r.data_buffer@.len() == 0,
            r.pending_cdda_samples@.len() == 0,
            r.xadpcm_decoder.pending_xa_samples@.len() == 0,
            r.cd_vol_ll == 0x7F && r.cd_vol_lr == 0x7F && r.cd_vol_rr == 0x7F && r.cd_vol_rl == 0x7F,
            r.applied_vol_ll == 0x7F && r.applied_vol_lr == 0x7F && r.applied_vol_rr == 0x7F && r.applied_vol_rl == 0x7F,
    {
        CdRom {
            register_index: 0,
            command_args: Vec::new(),
            command_result: VecDeque::new(),
            interrupt_flags: 0,
            interrupt_enable: 0,
            mode: 0,
            seek_target: None,
            current_logical_block: 0,
            reading: false,
            playing: false,
            disc: None,
            sector_buffer: [0; 2352],
            data_fifo_loaded: false,
            data_buffer: Vec::new(),
            data_buffer_offset: 0,
            xa_filter_enabled: false,
            xa_filter_file: 0,
            xa_filter_channel: 0,
            pending_cdda_samples: VecDeque::new(),
            xadpcm_decoder: XadpcmDecoder::new(),
            cd_vol_ll: 0x7F,
            cd_vol_lr: 0x7F,
            cd_vol_rr: 0x7F,
            cd_vol_rl: 0x7F,
            applied_vol_ll: 0x7F,
            applied_vol_lr: 0x7F,
            applied_vol_rr: 0x7F,
            applied_vol_rl: 0x7F,
        }
    }

    /// The drive status byte: motor on (bit 1), seeking (6) or reading/playing (5), and no
    /// disc (4).
    pub open spec fn status_byte_spec(&self) -> u8 {
        (0x02u8
            | (if self.seek_target is Some { 0x40u8 } else if self.reading || self.playing { 0x20u8 } else { 0u8 })
            | (if self.disc is None { 0x10u8 } else { 0u8 })) as u8
    }

    fn get_status_byte(&self) -> (r: u8)
        ensures r == self.status_byte_spec(),
    {
        let seek: u8 = if self.seek_target.is_some() { 0x40 } else if self.reading || self.playing { 0x20 } else { 0 };
        let no_disc: u8 = if self.disc.is_none() { 0x10 } else { 0 };
        0x02u8 | seek | no_disc
    }

    /// Parameter byte `i`, or 0 when fewer were written.
    pub open spec fn arg_spec(&self, i: int) -> u8 {
        if 0 <= i < self.command_args@.len() { self.command_args@[i] } else { 0 }
    }

    fn arg(&self, i: usize) -> (r: u8)
        ensures r == self.arg_spec(i as int),
    {
        if i < self.command_args.len() { self.command_args[i] } else { 0 }
    }

    /// The status register: bank index, parameter FIFO empty (3) and not full (4), response
    /// FIFO not empty (5), data FIFO loaded (6).
    pub open spec fn status_register_spec(&self) -> u8 {
        ((self.register_index & 0x03)
            | (if self.command_args@.len() == 0 { 0x08u8 } else { 0u8 })
            | (if self.command_args@.len() < 16 { 0x10u8 } else { 0u8 })
            | (if self.command_result@.len() != 0 { 0x20u8 } else { 0u8 })
            | (if self.data_fifo_loaded { 0x40u8 } else { 0u8 })) as u8
    }

    fn read_status(&self) -> (r: u8)
        ensures r == self.status_register_spec(),
    {
        (self.register_index & 0x03)
            | (if self.command_args.len() == 0 { 0x08u8 } else { 0u8 })
            | (if self.command_args.len() < 16 { 0x10u8 } else { 0u8 })
            | (if self.command_result.len() != 0 { 0x20u8 } else { 0u8 })
            | (if self.data_fifo_loaded { 0x40u8 } else { 0u8 })
    }

    /// Pop a response byte, or 0 when none is left.
    fn read_result(&mut self) -> (r: u8)
        requires old(self).wf(),
        ensures
            final(self).wf(),
            final(self).same_drive(&old(self)),
            old(self).command_result@.len() > 0 ==> r == old(self).command_result@[0]
                && final(self).command_result@ == old(self).command_result@.drop_first(),
            old(self).command_result@.len() == 0 ==> r == 0 && final(self).command_result@ == old(self).command_result@,
            final(self).command_args == old(self).command_args,
            final(self).register_index == old(self).register_index,
            final(self).disc == old(self).disc,
            final(self).xadpcm_decoder == old(self).xadpcm_decoder,
            final(self).seek_target == old(self).seek_target,
            final(self).reading == old(self).reading,
            final(self).playing == old(self).playing,
            *final(self) == (CdRom { command_result: final(self).command_result, ..*old(self) }),
    {
        match self.command_result.pop_front() {
            Some(b) => {
                assert(self.command_result@ =~= old(self).command_result@.drop_first());
                b
            },
            None => 0,
        }
    }

    /// The byte a data FIFO read returns: the next byte of the sector data, or past its end
    /// a repeated byte (4 bytes before the end of a 2340-byte sector, 8 otherwise).
    pub open spec fn data_fifo_byte(&self) -> u8 {
        let len = self.data_buffer@.len() as int;
        if !self.data_fifo_loaded || len == 0 {
            0
        } else if self.data_buffer_offset < len {
            self.data_buffer@[self.data_buffer_offset as int]
        } else {
            self.data_buffer@[len - (if len == 2340 { 4int } else { 8int })]
        }
    }

    /// `post` is this drive after one data FIFO read: while the FIFO is loaded and holds a
    /// sector the cursor moves one byte on, and past the last byte the FIFO is unloaded and
    /// emptied; otherwise nothing changes.
    pub open spec fn data_fifo_read(self, post: CdRom) -> bool {
        let len = self.data_buffer@.len();
        if !self.data_fifo_loaded || len == 0 {
            post == self
        } else {
            let off = self.data_buffer_offset + 1;
            &&& post == (CdRom {
                    data_fifo_loaded: off < len,
                    data_buffer: post.data_buffer,
                    data_buffer_offset: off as usize,
                    ..self
                })
            &&& post.data_buffer@ == (if off < len { self.data_buffer@ } else { Seq::<u8>::empty() })
        }
    }

    /// After `k` data FIFO reads from a freshly loaded sector, the cursor is at byte `k` while
    /// bytes remain, and the FIFO is unloaded and empty once all have been read.
    proof fn lemma_data_fifo_state(states: Seq<CdRom>, k: int)
        requires
            0 <= k < states.len(),
            states[0].wf(),
            states[0].data_fifo_loaded,
            states[0].data_buffer@.len() > 0,
            states[0].data_buffer_offset == 0,
            forall|j: int| 0 <= j < states.len() - 1 ==> #[trigger] states[j].data_fifo_read(states[j + 1]),
        ensures
            k < states[0].data_buffer@.len() ==> states[k].data_fifo_loaded
                && states[k].data_buffer@ == states[0].data_buffer@ && states[k].data_buffer_offset == k,
            k >= states[0].data_buffer@.len() ==> !states[k].data_fifo_loaded && states[k].data_buffer@.len() == 0,
        decreases k,
    {
        if k > 0 {
            let j = k - 1;
            CdRom::lemma_data_fifo_state(states, j);
            assert(states[j].data_fifo_read(states[j + 1]));
            assert(states[j + 1] == states[k]);
            if k >= states[0].data_buffer@.len() && j < states[0].data_buffer@.len() {
                assert(states[k].data_buffer@ == Seq::<u8>::empty());
            }
        }
    }

    /// Reading a freshly loaded data FIFO of n bytes n times gives its bytes in order and
    /// unloads and empties it; every read after that gives 0 and changes nothing.
    pub proof fn lemma_data_fifo_drains(states: Seq<CdRom>, bytes: Seq<u8>)
        requires
            states.len() >= 1,
            bytes.len() == states.len() - 1,
            states[0].wf(),
            states[0].data_fifo_loaded,
            states[0].data_buffer@.len() > 0,
            states[0].data_buffer_offset == 0,
            forall|j: int| 0 <= j < states.len() - 1 ==> #[trigger] states[j].data_fifo_read(states[j + 1]),
            forall|j: int| 0 <= j < bytes.len() ==> #[trigger] bytes[j] == states[j].data_fifo_byte(),
        ensures
            forall|j: int| 0 <= j < bytes.len() && j < states[0].data_buffer@.len() ==> #[trigger] bytes[j] == states[0].data_buffer@[j],
            forall|j: int| states[0].data_buffer@.len() <= j < bytes.len() ==> #[trigger] bytes[j] == 0u8,
            forall|j: int| states[0].data_buffer@.len() <= j < states.len() - 1 ==> #[trigger] states[j + 1] == states[j],
            states.len() > states[0].data_buffer@.len() ==> !states.last().data_fifo_loaded && states.last().data_buffer@.len() == 0,
    {
        let n = states[0].data_buffer@.len();
        assert forall|j: int| 0 <= j < bytes.len() && j < n implies #[trigger] bytes[j] == states[0].data_buffer@[j] by {
            CdRom::lemma_data_fifo_state(states, j);
        }
        assert forall|j: int| n <= j < bytes.len() implies #[trigger] bytes[j] == 0u8 by {
            CdRom::lemma_data_fifo_state(states, j);
        }
        assert forall|j: int| n <= j < states.len() - 1 implies #[trigger] states[j + 1] == states[j] by {
            CdRom::lemma_data_fifo_state(states, j);
            assert(states[j].data_fifo_read(states[j + 1]));
        }
        if states.len() > n {
            CdRom::lemma_data_fifo_state(states, states.len() - 1);
        }
    }

    /// Read one byte of the data FIFO; after the last byte the FIFO is emptied.
    pub fn read_data_fifo(&mut self) -> (r: u8)
        requires old(self).wf(),
        ensures
            final(self).wf(),
            r == old(self).data_fifo_byte(),
            old(self).data_fifo_read(*final(self)),
            (!old(self).data_fifo_loaded || old(self).data_buffer@.len() == 0) ==> (
                final(self).data_buffer == old(self).data_buffer
                && final(self).data_buffer_offset == old(self).data_buffer_offset
                && final(self).data_fifo_loaded == old(self).data_fifo_loaded),
            (old(self).data_fifo_loaded && old(self).data_buffer@.len() > 0) ==> ({
                let off = old(self).data_buffer_offset + 1;
                &&& off >= old(self).data_buffer@.len() ==> !final(self).data_fifo_loaded && final(self).data_buffer@.len() == 0
                    && final(self).data_buffer_offset == off
                &&& off < old(self).data_buffer@.len() ==> final(self).data_fifo_loaded
                    && final(self).data_buffer == old(self).data_buffer && final(self).data_buffer_offset == off
            }),
            final(self).same_drive(&old(self)),
            final(self).disc == old(self).disc,
            final(self).command_args == old(self).command_args,
            final(self).command_result == old(self).command_result,
            final(self).register_index == old(self).register_index,
            final(self).xadpcm_decoder == old(self).xadpcm_decoder,
    {
        if !self.data_fifo_loaded || self.data_buffer.len() == 0 {
            return 0;
        }
        let len = self.data_buffer.len();
        let pad_index = len - if len == 2340 { 4 } else { 8 };
        let byte = if self.data_buffer_offset < len {
            self.data_buffer[self.data_buffer_offset]
        } else {
            self.data_buffer[pad_index]
        };
        self.data_buffer_offset = self.data_buffer_offset + 1;
        if self.data_buffer_offset >= len {
            self.data_fifo_loaded = false;
            self.data_buffer.clear();
            assert(self.data_buffer@ =~= Seq::<u8>::empty());
        }
        byte
    }

    /// The next CD audio sample pair (XA first, then CD-DA, else silence), mixed through the
    /// applied volumes: each output is (left * vol_l + right * vol_r) >> 7, saturated.
    pub fn pull_cd_audio_sample(&mut self) -> (r: (PcmSample, PcmSample))
        ensures
            ({
                let xa = old(self).xadpcm_decoder.pending_xa_samples@;
                let cdda = old(self).pending_cdda_samples@;
                let raw = if xa.len() > 0 { xa[0] } else if cdda.len() > 0 { cdda[0] } else { (PcmSample(0), PcmSample(0)) };
                &&& r.0 == PcmSample(crate::xadpcm::clamp16((raw.0.0 * old(self).applied_vol_ll + raw.1.0 * old(self).applied_vol_rl) / 128))
                &&& r.1 == PcmSample(crate::xadpcm::clamp16((raw.0.0 * old(self).applied_vol_lr + raw.1.0 * old(self).applied_vol_rr) / 128))
                &&& final(self).xadpcm_decoder.pending_xa_samples@ == (if xa.len() > 0 { xa.drop_first() } else { xa })
                &&& final(self).pending_cdda_samples@ == (if xa.len() == 0 && cdda.len() > 0 { cdda.drop_first() } else { cdda })
            }),
            final(self).xadpcm_decoder.history_l == old(self).xadpcm_decoder.history_l,
            final(self).xadpcm_decoder.history_r == old(self).xadpcm_decoder.history_r,
            final(self).xadpcm_decoder.resample_ring_l == old(self).xadpcm_decoder.resample_ring_l,
            final(self).xadpcm_decoder.resample_ring_r == old(self).xadpcm_decoder.resample_ring_r,
            *final(self) == (CdRom {
                xadpcm_decoder: final(self).xadpcm_decoder,
                pending_cdda_samples: final(self).pending_cdda_samples,
                ..*old(self)
            }),
            old(self).wf() ==> final(self).wf(),
    {
        let (raw_l, raw_r) = if let Some(sample) = self.xadpcm_decoder.pending_xa_samples.pop_front() {
            sample
        } else if let Some(sample) = self.pending_cdda_samples.pop_front() {
            sample
        } else {
            (PcmSample(0), PcmSample(0))
        };
        proof {
            let xa = old(self).xadpcm_decoder.pending_xa_samples@;
            let cdda = old(self).pending_cdda_samples@;
            if xa.len() > 0 {
                assert(self.xadpcm_decoder.pending_xa_samples@ =~= xa.drop_first());
            } else if cdda.len() > 0 {
                assert(self.pending_cdda_samples@ =~= cdda.drop_first());
            }
        }
        let l = raw_l.0 as i32;
        let rr = raw_r.0 as i32;
        assert(-0x8000 * 255 <= l * (self.applied_vol_ll as i32) <= 0x7FFF * 255) by (nonlinear_arith)
            requires -0x8000 <= l <= 0x7FFF, 0 <= self.applied_vol_ll <= 255;
        assert(-0x8000 * 255 <= rr * (self.applied_vol_rl as i32) <= 0x7FFF * 255) by (nonlinear_arith)
            requires -0x8000 <= rr <= 0x7FFF, 0 <= self.applied_vol_rl <= 255;
        assert(-0x8000 * 255 <= l * (self.applied_vol_lr as i32) <= 0x7FFF * 255) by (nonlinear_arith)
            requires -0x8000 <= l <= 0x7FFF, 0 <= self.applied_vol_lr <= 255;
        assert(-0x8000 * 255 <= rr * (self.applied_vol_rr as i32) <= 0x7FFF * 255) by (nonlinear_arith)
            requires -0x8000 <= rr <= 0x7FFF, 0 <= self.applied_vol_rr <= 255;
        let mix_l: i32 = l * (self.applied_vol_ll as i32) + rr * (self.applied_vol_rl as i32);
        let mix_r: i32 = l * (self.applied_vol_lr as i32) + rr * (self.applied_vol_rr as i32);
        let out_l = clamp_i16(shr7(mix_l));
        let out_r = clamp_i16(shr7(mix_r));
        (PcmSample(out_l), PcmSample(out_r))
    }

    fn write_parameter_fifo(&mut self, value: u8)
        requires old(self).wf(),
        ensures
            final(self).wf(),
            old(self).command_args@.len() < 16 ==> final(self).command_args@ == old(self).command_args@.push(value),
            old(self).command_args@.len() >= 16 ==> final(self).command_args == old(self).command_args,
            final(self).same_volumes(&old(self)),
            *final(self) == (CdRom { command_args: final(self).command_args, ..*old(self) }),
    {
        if self.command_args.len() < 16 {
            self.command_args.push(value);
        }
    }

    /// Interrupt enable (bank 0/2) or flags with the top three bits set (bank 1/3).
    fn read_interrupt_register(&self) -> (r: u8)
        requires self.wf(),
        ensures
            (self.register_index == 0 || self.register_index == 2) ==> r == self.interrupt_enable,
            (self.register_index == 1 || self.register_index == 3) ==> r == self.interrupt_flags | 0xE0,
    {
        if self.register_index == 0 || self.register_index == 2 {
            self.interrupt_enable
        } else {
            self.interrupt_flags | 0xE0
        }
    }

    /// Request register: bit 7 loads the data FIFO (rewinding it when it was not loaded) or
    /// resets it.
    fn write_request_register(&mut self, value: u8)
        requires old(self).wf(),
        ensures
            final(self).wf(),
            final(self).data_fifo_loaded == (value & 0x80 != 0),
            final(self).data_buffer_offset == (if value & 0x80 != 0 && !old(self).data_fifo_loaded { 0 } else { old(self).data_buffer_offset }),
            final(self).data_buffer == old(self).data_buffer,
            final(self).same_volumes(&old(self)),
            *final(self) == (CdRom { data_fifo_loaded: final(self).data_fifo_loaded, data_buffer_offset: final(self).data_buffer_offset, ..*old(self) }),
    {
        let previously_loaded = self.data_fifo_loaded;
        self.data_fifo_loaded = value & 0x80 != 0;
        if self.data_fifo_loaded && !previously_loaded {
            self.data_buffer_offset = 0;
        }
    }

    /// Interrupt flag register: set bits 0..2 acknowledge, bit 6 clears the parameter FIFO.
    fn write_interrupt_flag_register(&mut self, value: u8)
        requires old(self).wf(),
        ensures
            final(self).wf(),
            final(self).interrupt_flags == (if value & 0x07 != 0 { old(self).interrupt_flags & !(value & 0x07) } else { old(self).interrupt_flags }),
            value & 0x40 != 0 ==> final(self).command_args@.len() == 0,
            value & 0x40 == 0 ==> final(self).command_args == old(self).command_args,
            final(self).same_volumes(&old(self)),
            *final(self) == (CdRom { interrupt_flags: final(self).interrupt_flags, command_args: final(self).command_args, ..*old(self) }),
    {
        if value & 0x07 != 0 {
            self.interrupt_flags = self.interrupt_flags & !(value & 0x07);
        }
        if value & 0x40 != 0 {
            self.command_args.clear();
        }
    }

    /// Push a response into the response FIFO and raise interrupt `int_code` (1..8), which
    /// reaches the interrupt controller when enabled.
    fn push_response_and_interrupt(&mut self, bytes: &Vec<u8>, int_code: u8, interrupt_controller: &mut InterruptController)
        requires old(self).wf(),
        ensures
            final(self).wf(),
            final(self).command_result@ == old(self).command_result@ + bytes@,
            final(self).interrupt_flags == old(self).interrupt_flags | (int_code & 0x1F),
            ({
                let enabled = 1 <= int_code <= 8 && old(self).interrupt_enable & (1u8 << ((int_code - 1) as u8)) != 0;
                &&& enabled ==> final(interrupt_controller).stat == old(interrupt_controller).stat | (1u16 << interrupt_bit(Interrupt::CDROM))
                &&& !enabled ==> final(interrupt_controller).stat == old(interrupt_controller).stat
            }),
            final(interrupt_controller).mask == old(interrupt_controller).mask,
            crate::interrupt_controller::stat_grows(old(interrupt_controller).stat, final(interrupt_controller).stat),
            final(self).same_drive(&old(self)),
            final(self).disc == old(self).disc,
            final(self).command_args == old(self).command_args,
            final(self).register_index == old(self).register_index,
            final(self).data_fifo_loaded == old(self).data_fifo_loaded,
            final(self).data_buffer == old(self).data_buffer,
            final(self).data_buffer_offset == old(self).data_buffer_offset,
            final(self).xadpcm_decoder == old(self).xadpcm_decoder,
    {
        proof { crate::interrupt_controller::lemma_stat_grows(); }
        let ghost r0 = self.command_result@;
        let mut i: usize = 0;
        while i < bytes.len()
            invariant
                i <= bytes@.len(),
                self.command_result@ == r0 + bytes@.take(i as int),
                self.wf(),
                self.same_drive(&old(self)),
                self.disc == old(self).disc,
                self.command_args == old(self).command_args,
                self.register_index == old(self).register_index,
                self.interrupt_flags == old(self).interrupt_flags,
                self.interrupt_enable == old(self).interrupt_enable,
                self.data_fifo_loaded == old(self).data_fifo_loaded,
                self.data_buffer == old(self).data_buffer,
                self.data_buffer_offset == old(self).data_buffer_offset,
                self.xadpcm_decoder == old(self).xadpcm_decoder,
            decreases bytes@.len() - i,
        {
            self.command_result.push_back(bytes[i]);
            assert(bytes@.take(i as int + 1) =~= bytes@.take(i as int).push(bytes@[i as int]));
            i = i + 1;
        }
        assert(bytes@.take(bytes@.len() as int) =~= bytes@);
        self.interrupt_flags = self.interrupt_flags | (int_code & 0x1F);
        if int_code >= 1 && int_code <= 8 {
            if self.interrupt_enable & (1u8 << (int_code - 1)) != 0 {
                interrupt_controller.raise_interrupt(Interrupt::CDROM);
            }
        }
    }
}

fn shr7(v: i32) -> (r: i32)
    ensures r == v / 128,
{
    assert(v >> 7u32 == v / 128) by { crate::bits::lemma_shifts_i32(); }
    v >> 7u32
}

fn clamp_i16(v: i32) -> (r: i16)
    ensures r == crate::xadpcm::clamp16(v as int),
{
    if v < -0x8000 { -0x8000 } else if v > 0x7FFF { 0x7FFF } else { v as i16 }
}

/// Delay between sectors for a drive mode (bit 7: double speed).
pub open spec fn read_delay_spec(mode: u8) -> u64 {
    if mode & 0x80 != 0 { READ_INT1_2X } else { READ_INT1_1X }
}

fn read_delay(mode: u8) -> (r: u64)
    ensures r == read_delay_spec(mode),
{
    if mode & 0x80 != 0 { READ_INT1_2X } else { READ_INT1_1X }
}

/// The answer to GetTD: the start of a track, or for track 0 the last sector of the disc.
/// `None` is the error response.
pub open spec fn gettd_lba(disc: Option<Disc>, track_bcd: u8) -> Option<u32> {
    let track_dec = bcd_to_decimal_spec(track_bcd);
    match disc {
        None => None,
        Some(d) => {
            if decimal_to_bcd_spec(track_dec) != track_bcd {
                None
            } else if track_dec == 0 {
                if d.tracks@.len() == 0 {
                    None
                } else {
                    let last = d.tracks@.last();
                    match track_after(d.tracks@, last.start_logical_block) {
                        Some(next) => Some(if next.start_logical_block >= 1 { (next.start_logical_block - 1) as u32 } else { 0u32 }),
                        None => {
                            let sectors = (d.file_sizes@[last.file_index as int] / 2352) as u32;
                            let extra: u32 = if sectors >= 1 { (sectors - 1) as u32 } else { 0u32 };
                            Some(if last.start_logical_block + extra <= u32::MAX { (last.start_logical_block + extra) as u32 } else { u32::MAX })
                        },
                    }
                }
            } else {
                match track_numbered(d.tracks@, track_dec) {
                    Some(t) => Some(t.start_logical_block),
                    None => None,
                }
            }
        },
    }
}

/// No track starts after sector `lba` exactly when every track starts at or before it.
proof fn lemma_track_after_none(tracks: Seq<Track>, lba: u32)
    ensures
        track_after(tracks, lba) is None
            <==> (forall|i: int| 0 <= i < tracks.len() ==> #[trigger] tracks[i].start_logical_block <= lba),
    decreases tracks.len(),
{
    if tracks.len() > 0 {
        let rest = tracks.drop_first();
        lemma_track_after_none(rest, lba);
        assert forall|j: int| 0 <= j < rest.len() implies #[trigger] rest[j] == tracks[j + 1] by {}
        if (forall|i: int| 0 <= i < tracks.len() ==> #[trigger] tracks[i].start_logical_block <= lba) {
            assert(tracks[0].start_logical_block <= lba);
            assert forall|j: int| 0 <= j < rest.len() implies #[trigger] rest[j].start_logical_block <= lba by {
                assert(tracks[j + 1].start_logical_block <= lba);
            }
        }
        if track_after(tracks, lba) is None {
            assert forall|i: int| 0 <= i < tracks.len() implies #[trigger] tracks[i].start_logical_block <= lba by {
                if i > 0 {
                    assert(rest[i - 1].start_logical_block <= lba);
                }
            }
        }
    }
}

/// GetTD for track 0 answers the last sector of the disc: where no track starts after the last
/// track of the table, that is the last track's start plus the number of whole sectors in its
/// image file, minus one, which is at or after the start of every track.
pub proof fn lemma_gettd_disc_end(d: Disc)
    requires
        d.wf(),
        d.tracks@.len() > 0,
        forall|i: int| 0 <= i < d.tracks@.len()
            ==> #[trigger] d.tracks@[i].start_logical_block <= d.tracks@.last().start_logical_block,
        2352 <= d.file_sizes@[d.tracks@.last().file_index as int] < 2352 * 0x1_0000_0000,
        d.tracks@.last().start_logical_block + d.file_sizes@[d.tracks@.last().file_index as int] / 2352 - 1 <= u32::MAX,
    ensures
        ({
            let last = d.tracks@.last();
            let end = last.start_logical_block + d.file_sizes@[last.file_index as int] / 2352 - 1;
            &&& gettd_lba(Some(d), 0) == Some(end as u32)
            &&& forall|i: int| 0 <= i < d.tracks@.len() ==> #[trigger] d.tracks@[i].start_logical_block <= end
        }),
{
    crate::bits::lemma_hardware_arith();
    let last = d.tracks@.last();
    lemma_track_after_none(d.tracks@, last.start_logical_block);
    assert(bcd_to_decimal_spec(0) == 0);
    assert(decimal_to_bcd_spec(0) == 0);
    assert(track_after(d.tracks@, last.start_logical_block) is None);
    let sectors = (d.file_sizes@[last.file_index as int] / 2352) as u32;
    assert(sectors as int == d.file_sizes@[last.file_index as int] / 2352);
    assert(sectors >= 1);
    let end = last.start_logical_block + d.file_sizes@[last.file_index as int] / 2352 - 1;
    assert(gettd_lba(Some(d), 0) == Some(end as u32));
    assert forall|i: int| 0 <= i < d.tracks@.len() implies #[trigger] d.tracks@[i].start_logical_block <= end by {}
}

impl CdRom {
    fn status_response(&self) -> (r: Vec<u8>)
        ensures r@ == seq![self.status_byte_spec()],
    {
        let b = self.get_status_byte();
        let v = vec![b];
        assert(v@ =~= seq![b]);
        v
    }

    /// 01h GetStat: INT3(stat).
    fn cmd_getstat(&mut self) -> (r: Vec<CdAction>)
        requires old(self).wf(),
        ensures
            final(self).wf(), final(self).same_io(&old(self)),
            old(self).getstat_done(*final(self), r@),
    {
        let bytes = self.status_response();
        vec![respond(GETSTAT, bytes, 3)]
    }

    /// 02h Setloc amm,ass,asect: stop reading and playing and set the seek target (BCD
    /// position minus the 2-second lead-in); INT3(stat).
    fn cmd_setloc(&mut self) -> (r: Vec<CdAction>)
        requires old(self).wf(),
        ensures
            final(self).wf(), final(self).same_io(&old(self)),
            old(self).setloc_done(*final(self), r@),
    {
        let mm = bcd_to_decimal(self.arg(0));
        let ss = bcd_to_decimal(self.arg(1));
        let sect = bcd_to_decimal(self.arg(2));
        self.reading = false;
        self.playing = false;
        let bytes = self.status_response();
        let lba = msf_to_lba(mm, ss, sect).wrapping_sub(150);
        self.seek_target = Some(lba);
        vec![CdAction::CancelSectorReads, respond(DEFAULT_FIRST, bytes, 3)]
    }

    /// 03h Play [track]: INT3(stat), then play from the pending Setloc target, or from the
    /// start of the given track (BCD), or restart the current track for a number past the
    /// last; sector reads restart.
    fn cmd_play(&mut self) -> (r: Vec<CdAction>)
        requires old(self).wf(),
        ensures
            final(self).wf(), final(self).same_io(&old(self)),
            old(self).play_done(*final(self), r@),
    {
        let seek_time = if self.seek_target.is_some() { SEEK_DELAY } else { DEFAULT_FIRST };
        let bytes = self.status_response();
        let first = respond(seek_time, bytes, 3);
        let pending_seek = self.seek_target;
        self.seek_target = None;
        self.reading = false;
        self.playing = true;
        let track_param = self.arg(0);
        if track_param == 0 {
            if let Some(target) = pending_seek {
                self.current_logical_block = target;
            }
        } else {
            match &self.disc {
                None => {},
                Some(disc) => {
                    let track_dec = bcd_to_decimal(track_param);
                    match find_track_numbered(&disc.tracks, track_dec) {
                        Some(track) => {
                            self.current_logical_block = track.start_logical_block;
                        },
                        None => {
                            match find_track_for_lba(&disc.tracks, self.current_logical_block) {
                                Some(current_track) => {
                                    self.current_logical_block = current_track.start_logical_block;
                                },
                                None => {},
                            }
                        },
                    }
                },
            }
        }
        let delay = read_delay(self.mode);
        vec![first, CdAction::CancelSectorReads, CdAction::ScheduleSectorRead { delay }]
    }

    /// 06h ReadN (and 1Bh ReadS): INT3(stat), go to the pending Setloc target and read
    /// sectors.
    fn cmd_readn(&mut self) -> (r: Vec<CdAction>)
        requires old(self).wf(),
        ensures
            final(self).wf(), final(self).same_io(&old(self)),
            old(self).readn_done(*final(self), r@),
    {
        let seek_time = if self.seek_target.is_some() { SEEK_DELAY } else { DEFAULT_FIRST };
        let bytes = self.status_response();
        let first = respond(seek_time, bytes, 3);
        if let Some(target) = self.seek_target {
            self.current_logical_block = target;
        }
        self.seek_target = None;
        self.playing = false;
        self.reading = true;
        let delay = read_delay(self.mode);
        vec![first, CdAction::ScheduleSectorRead { delay }]
    }

    /// 08h Stop: INT3(stat with reading/playing cleared), INT2(stat) after the spin-down.
    fn cmd_stop(&mut self) -> (r: Vec<CdAction>)
        requires old(self).wf(),
        ensures
            final(self).wf(), final(self).same_io(&old(self)),
            old(self).stop_done(*final(self), r@),
    {
        let stop_time = if self.reading || self.playing || self.seek_target.is_some() {
            if self.mode & 0x80 != 0 { STOP_SECOND_2X } else { STOP_SECOND_1X }
        } else {
            STOP_SECOND_ALREADY_STOPPED
        };
        self.reading = false;
        self.playing = false;
        let before = self.status_response();
        self.seek_target = None;
        let after = self.status_response();
        vec![CdAction::CancelSectorReads, respond(DEFAULT_FIRST, before, 3), respond(stop_time, after, 2)]
    }

    /// 09h Pause: INT3(stat as it was), INT2(stat) once paused.
    fn cmd_pause(&mut self) -> (r: Vec<CdAction>)
        requires old(self).wf(),
        ensures
            final(self).wf(), final(self).same_io(&old(self)),
            old(self).pause_done(*final(self), r@),
    {
        let mut pause_time = if self.mode & 0x80 != 0 { PAUSE_SECOND_2X } else { PAUSE_SECOND_1X };
        pause_time = if self.reading || self.playing { pause_time } else { PAUSE_SECOND_ALREADY_PAUSED };
        let before = self.status_response();
        self.reading = false;
        self.playing = false;
        let after = self.status_response();
        vec![CdAction::CancelSectorReads, respond(DEFAULT_FIRST, before, 3), respond(pause_time, after, 2)]
    }

    /// 0Ah Init: mode 20h, stop everything; INT3(stat), INT2(stat).
    fn cmd_init(&mut self) -> (r: Vec<CdAction>)
        requires old(self).wf(),
        ensures
            final(self).wf(), final(self).same_io(&old(self)),
            old(self).init_done(*final(self), r@),
    {
        self.mode = 0x20;
        self.playing = false;
        self.reading = false;
        self.seek_target = None;
        let a = self.status_response();
        let b = self.status_response();
        vec![respond(DEFAULT_FIRST, a, 3), respond(DEFAULT_FIRST, b, 2)]
    }

    /// 0Ch Demute: INT3(stat).
    fn cmd_demute(&mut self) -> (r: Vec<CdAction>)
        requires old(self).wf(),
        ensures
            final(self).wf(), final(self).same_io(&old(self)),
            old(self).demute_done(*final(self), r@),
    {
        let bytes = self.status_response();
        vec![respond(DEFAULT_FIRST, bytes, 3)]
    }

    /// 0Dh Setfilter file,channel: INT3(stat).
    fn cmd_setfilter(&mut self) -> (r: Vec<CdAction>)
        requires old(self).wf(),
        ensures
            final(self).wf(), final(self).same_io(&old(self)),
            old(self).setfilter_done(*final(self), r@),
    {
        self.xa_filter_file = self.arg(0);
        self.xa_filter_channel = self.arg(1);
        let bytes = self.status_response();
        vec![respond(DEFAULT_FIRST, bytes, 3)]
    }

    /// 0Eh Setmode mode: INT3(stat); bit 3 enables the XA filter.
    fn cmd_setmode(&mut self) -> (r: Vec<CdAction>)
        requires old(self).wf(),
        ensures
            final(self).wf(), final(self).same_io(&old(self)),
            old(self).setmode_done(*final(self), r@),
    {
        self.mode = self.arg(0);
        self.xa_filter_enabled = self.mode & 0x08 != 0;
        let bytes = self.status_response();
        vec![respond(DEFAULT_FIRST, bytes, 3)]
    }

    /// 11h GetlocP: INT3(track, index, mm, ss, sect within the track from its start, amm,
    /// ass, asect on the disc counting the lead-in), all BCD; FFh and zeros with no disc or before the first track.
    fn cmd_getlocp(&mut self) -> (r: Vec<CdAction>)
        requires old(self).wf(),
        ensures
            final(self).wf(), final(self).same_io(&old(self)),
            old(self).getlocp_done(*final(self), r@),
    {
        let lba = self.current_logical_block;
        let unknown = vec![0xFFu8, 0u8, 0u8, 0u8, 0u8, 0u8, 0u8, 0u8];
        match &self.disc {
            None => {
                assert(unknown@ =~= seq![0xFFu8, 0u8, 0u8, 0u8, 0u8, 0u8, 0u8, 0u8]);
                vec![respond(DEFAULT_FIRST, unknown, 3)]
            },
            Some(disc) => match find_track_for_lba(&disc.tracks, lba) {
                None => {
                    assert(unknown@ =~= seq![0xFFu8, 0u8, 0u8, 0u8, 0u8, 0u8, 0u8, 0u8]);
                    vec![respond(DEFAULT_FIRST, unknown, 3)]
                },
                Some(track) => {
                    let rel_lba = lba - track.start_logical_block;
                    let (mm, ss, sect) = lba_to_msf_bcd(rel_lba.wrapping_sub(150));
                    let (amm, ass, asect) = lba_to_msf_bcd(lba);
                    let bytes = vec![decimal_to_bcd(track.track_number), decimal_to_bcd(1), mm, ss, sect, amm, ass, asect];
                    vec![respond(DEFAULT_FIRST, bytes, 3)]
                },
            },
        }
    }

    /// 13h GetTN: INT3(stat, first track, last track) in BCD (1, 1 without tracks).
    fn cmd_gettn(&mut self) -> (r: Vec<CdAction>)
        requires old(self).wf(),
        ensures
            final(self).wf(), final(self).same_io(&old(self)),
            old(self).gettn_done(*final(self), r@),
    {
        let (first_track, last_track): (u8, u8) = match &self.disc {
            Some(disc) => if disc.tracks.len() > 0 {
                (disc.tracks[0].track_number, disc.tracks[disc.tracks.len() - 1].track_number)
            } else {
                (1, 1)
            },
            None => (1, 1),
        };
        let bytes = vec![self.get_status_byte(), decimal_to_bcd(first_track), decimal_to_bcd(last_track)];
        vec![respond(DEFAULT_FIRST, bytes, 3)]
    }

    /// 14h GetTD track: INT3(stat, mm, ss) with the BCD start of the track (track 0: the
    /// end of the disc); INT5(stat, 10h) with no disc, a non-BCD or unknown track.
    fn cmd_gettd(&mut self) -> (r: Vec<CdAction>)
        requires old(self).wf(),
        ensures
            final(self).wf(), final(self).same_io(&old(self)),
            old(self).gettd_done(*final(self), r@),
    {
        let track_bcd = self.arg(0);
        let track_dec = bcd_to_decimal(track_bcd);
        let status = self.get_status_byte();
        let lba: Option<u32> = match &self.disc {
            None => None,
            Some(disc) => {
                if decimal_to_bcd(track_dec) != track_bcd {
                    None
                } else if track_dec == 0 {
                    if disc.tracks.len() == 0 {
                        None
                    } else {
                        let last_track = disc.tracks[disc.tracks.len() - 1];
                        match find_track_after(&disc.tracks, last_track.start_logical_block) {
                            Some(next_track) => Some(next_track.start_logical_block.saturating_sub(1)),
                            None => {
                                let file_size = disc.file_sizes[last_track.file_index];
                                let sector_count = #[verifier::truncate] ((file_size / 2352) as u32);
                                Some(last_track.start_logical_block.saturating_add(sector_count.saturating_sub(1)))
                            },
                        }
                    }
                } else {
                    match find_track_numbered(&disc.tracks, track_dec) {
                        Some(track) => Some(track.start_logical_block),
                        None => None,
                    }
                }
            },
        };
        match lba {
            None => {
                let bytes = vec![status, 0x10u8];
                vec![respond(DEFAULT_FIRST, bytes, 5)]
            },
            Some(lba) => {
                let (mm, ss, _) = lba_to_msf_bcd(lba);
                let bytes = vec![status, mm, ss];
                vec![respond(DEFAULT_FIRST, bytes, 3)]
            },
        }
    }

    /// 15h SeekL: INT3(stat), go to the Setloc target, INT2(stat).
    fn cmd_seekl(&mut self) -> (r: Vec<CdAction>)
        requires old(self).wf(),
        ensures
            final(self).wf(), final(self).same_io(&old(self)),
            old(self).seekl_done(*final(self), r@),
    {
        let first = self.status_response();
        if let Some(target) = self.seek_target {
            self.current_logical_block = target;
        }
        self.seek_target = None;
        let second = self.status_response();
        vec![respond(DEFAULT_FIRST, first, 3), respond(SEEK_DELAY, second, 2)]
    }

    /// 16h SeekP: INT3(stat), stop reading, go to the Setloc target with playback off,
    /// INT2(stat).
    fn cmd_seekp(&mut self) -> (r: Vec<CdAction>)
        requires old(self).wf(),
        ensures
            final(self).wf(), final(self).same_io(&old(self)),
            old(self).seekp_done(*final(self), r@),
    {
        let first = self.status_response();
        self.reading = false;
        if let Some(target) = self.seek_target {
            self.current_logical_block = target;
        }
        self.seek_target = None;
        self.playing = false;
        let second = self.status_response();
        vec![respond(DEFAULT_FIRST, first, 3), CdAction::CancelSectorReads, respond(SEEK_DELAY, second, 2)]
    }

    /// 19h Test: subcommand 20h answers the controller BIOS date and version; others FFh.
    fn cmd_test(&mut self) -> (r: Vec<CdAction>)
        requires old(self).wf(),
        ensures
            final(self).wf(), final(self).same_io(&old(self)),
            old(self).test_done(*final(self), r@),
    {
        if self.arg(0) == 0x20 {
            let bytes = vec![0x95u8, 0x05u8, 0x16u8, 0xc1u8];
            vec![respond(DEFAULT_FIRST, bytes, 3)]
        } else {
            let bytes = vec![0xFFu8];
            assert(bytes@ =~= seq![0xFFu8]);
            vec![respond(DEFAULT_FIRST, bytes, 3)]
        }
    }

    /// 1Ah GetID: INT3(stat), then INT5 "no disc" or INT2 licensed mode 2 ("SCEA").
    fn cmd_getid(&mut self) -> (r: Vec<CdAction>)
        requires old(self).wf(),
        ensures
            final(self).wf(), final(self).same_io(&old(self)),
            old(self).getid_done(*final(self), r@),
    {
        let first = self.status_response();
        if self.disc.is_none() {
            let bytes = vec![0x08u8, 0x40u8, 0u8, 0u8, 0u8, 0u8, 0u8, 0u8];
            vec![respond(GETSTAT, first, 3), respond(GETID_SECOND, bytes, 5)]
        } else {
            let bytes = vec![0x02u8, 0x00u8, 0x20u8, 0x00u8, 0x53u8, 0x43u8, 0x45u8, 0x41u8];
            vec![respond(GETSTAT, first, 3), respond(GETID_SECOND, bytes, 2)]
        }
    }
}

/// Every delay an action asks for is one the scheduler accepts.
pub open spec fn action_ok(a: CdAction) -> bool {
    match a {
        CdAction::ScheduleSectorRead { delay } => delay <= MAX_DELAY,
        CdAction::Respond { delay, .. } => delay <= MAX_DELAY,
        _ => true,
    }
}

pub open spec fn actions_ok(s: Seq<CdAction>) -> bool {
    forall|i: int| 0 <= i < s.len() ==> #[trigger] action_ok(s[i])
}

/// The scheduler after one action: a cancellation drops the pending responses or sector
/// reads; the others schedule their event after their delay.
pub open spec fn action_applied(s: Scheduler, t: Scheduler, a: CdAction) -> bool {
    match a {
        CdAction::CancelResponses => s.cancelled(t, |k: SchedulerEvent| k is CdRomResponse),
        CdAction::CancelSectorReads => s.cancelled(t, |k: SchedulerEvent| k is CdRomSectorRead),
        CdAction::ScheduleSectorRead { delay } => s.added(t, SchedulerEvent::CdRomSectorRead, delay),
        CdAction::Respond { delay, bytes, int_code } => s.added(t, SchedulerEvent::CdRomResponse { bytes, int_code }, delay),
    }
}

/// The scheduler after the actions, carried out in order: some chain of schedulers leads
/// from `s` to `t`, each step one action.
pub open spec fn actions_applied(s: Scheduler, t: Scheduler, acts: Seq<CdAction>) -> bool {
    exists|chain: Seq<Scheduler>| #![trigger chain.len()]
        chain.len() == acts.len() + 1 && chain[0] == s && chain[acts.len() as int] == t
        && forall|i: int| 0 <= i < acts.len() ==> #[trigger] action_applied(chain[i], chain[i + 1], acts[i])
}

/// Carry out the actions in order on the scheduler.
pub fn apply_actions(actions: Vec<CdAction>, scheduler: &mut Scheduler)
    requires old(scheduler).wf(), actions_ok(actions@),
    ensures
        final(scheduler).wf(),
        final(scheduler).current_cycle == old(scheduler).current_cycle,
        actions_applied(*old(scheduler), *final(scheduler), actions@),
{
    let ghost orig = actions@;
    let ghost mut chain: Seq<Scheduler> = seq![*scheduler];
    let mut actions = actions;
    while actions.len() > 0
        invariant
            scheduler.wf(),
            scheduler.current_cycle == old(scheduler).current_cycle,
            actions_ok(actions@),
            actions@.len() <= orig.len(),
            actions@ == orig.skip(orig.len() - actions@.len()),
            chain.len() == orig.len() - actions@.len() + 1,
            chain[0] == *old(scheduler),
            chain.last() == *scheduler,
            forall|i: int| 0 <= i < chain.len() - 1 ==> #[trigger] action_applied(chain[i], chain[i + 1], orig[i]),
        decreases actions@.len(),
    {
        let ghost before = actions@;
        let ghost done = orig.len() - before.len();
        let a = actions.remove(0);
        assert(action_ok(before[0]));
        assert forall|i: int| 0 <= i < actions@.len() implies #[trigger] action_ok(actions@[i]) by {
            assert(actions@[i] == before[i + 1]);
        }
        match a {
            CdAction::CancelResponses => {
                scheduler.cancel(|e: &SchedulerEvent| -> (r: bool)
                    ensures r == (e is CdRomResponse)
                { match e { SchedulerEvent::CdRomResponse { .. } => true, _ => false } });
            },
            CdAction::CancelSectorReads => {
                scheduler.cancel(|e: &SchedulerEvent| -> (r: bool)
                    ensures r == (e is CdRomSectorRead)
                { match e { SchedulerEvent::CdRomSectorRead => true, _ => false } });
            },
            CdAction::ScheduleSectorRead { delay } => {
                scheduler.schedule(SchedulerEvent::CdRomSectorRead, delay);
            },
            CdAction::Respond { delay, bytes, int_code } => {
                scheduler.schedule(SchedulerEvent::CdRomResponse { bytes, int_code }, delay);
            },
        }
        proof {
            assert(before[0] == orig[done]);
            assert(action_applied(chain.last(), *scheduler, orig[done]));
            chain = chain.push(*scheduler);
            assert(actions@ =~= orig.skip(orig.len() - actions@.len()));
        }
    }
    assert(chain.len() == orig.len() + 1 && chain[0] == *old(scheduler) && chain[orig.len() as int] == *scheduler);
}

impl CdRom {
    /// 01h GetStat: INT3(stat).
    pub open spec fn getstat_done(self, post: CdRom, r: Seq<CdAction>) -> bool {
        &&& post.same_drive(&self)
        &&& r.len() == 1 && is_respond(r[0], GETSTAT, seq![self.status_byte_spec()], 3)
    }

    /// 02h Setloc amm,ass,asect: stop reading and playing and set the seek target (BCD
    /// position minus the 2-second lead-in); INT3(stat).
    pub open spec fn setloc_done(self, post: CdRom, r: Seq<CdAction>) -> bool {
        &&& !post.reading
        &&& !post.playing
        &&& (post.seek_target == Some(msf_to_lba_spec(bcd_to_decimal_spec(self.arg_spec(0)),
            bcd_to_decimal_spec(self.arg_spec(1)), bcd_to_decimal_spec(self.arg_spec(2))).wrapping_sub(150)))
        &&& post.mode == self.mode
        &&& post.current_logical_block == self.current_logical_block
        &&& post.xa_filter_enabled == self.xa_filter_enabled
        &&& post.xa_filter_file == self.xa_filter_file
        &&& post.xa_filter_channel == self.xa_filter_channel
        &&& r.len() == 2
        &&& r[0] is CancelSectorReads
        &&& is_respond(r[1], DEFAULT_FIRST, seq![(CdRom { reading: false, playing: false, ..self }).status_byte_spec()], 3)
    }

    /// 03h Play [track]: INT3(stat), then play from the pending Setloc target, or from the
    /// start of the given track (BCD), or restart the current track for a number past the
    /// last; sector reads restart.
    pub open spec fn play_done(self, post: CdRom, r: Seq<CdAction>) -> bool {
        &&& post.playing
        &&& !post.reading
        &&& post.seek_target is None
        &&& post.mode == self.mode
        &&& post.xa_filter_enabled == self.xa_filter_enabled
        &&& post.xa_filter_file == self.xa_filter_file
        &&& post.xa_filter_channel == self.xa_filter_channel
        &&& (post.current_logical_block == ({
            let param = self.arg_spec(0);
            if param == 0 {
                match self.seek_target { Some(t) => t, None => self.current_logical_block }
            } else {
                match self.disc {
                    None => self.current_logical_block,
                    Some(d) => match track_numbered(d.tracks@, bcd_to_decimal_spec(param)) {
                        Some(t) => t.start_logical_block,
                        None => match track_for_lba(d.tracks@, self.current_logical_block) {
                            Some(t) => t.start_logical_block,
                            None => self.current_logical_block,
                        },
                    },
                }
            }
        }))
        &&& r.len() == 3
        &&& is_respond(r[0], if self.seek_target is Some { SEEK_DELAY } else { DEFAULT_FIRST }, seq![self.status_byte_spec()], 3)
        &&& r[1] is CancelSectorReads
        &&& is_sector_read(r[2], read_delay_spec(self.mode))
    }

    /// 06h ReadN (and 1Bh ReadS): INT3(stat), go to the pending Setloc target and read
    /// sectors.
    pub open spec fn readn_done(self, post: CdRom, r: Seq<CdAction>) -> bool {
        &&& post.reading
        &&& !post.playing
        &&& post.seek_target is None
        &&& post.current_logical_block == (match self.seek_target { Some(t) => t, None => self.current_logical_block })
        &&& post.mode == self.mode
        &&& post.xa_filter_enabled == self.xa_filter_enabled
        &&& post.xa_filter_file == self.xa_filter_file
        &&& post.xa_filter_channel == self.xa_filter_channel
        &&& r.len() == 2
        &&& is_respond(r[0], if self.seek_target is Some { SEEK_DELAY } else { DEFAULT_FIRST }, seq![self.status_byte_spec()], 3)
        &&& is_sector_read(r[1], read_delay_spec(self.mode))
    }

    /// 08h Stop: INT3(stat with reading/playing cleared), INT2(stat) after the spin-down.
    pub open spec fn stop_done(self, post: CdRom, r: Seq<CdAction>) -> bool {
        &&& !post.reading
        &&& !post.playing
        &&& post.seek_target is None
        &&& post.mode == self.mode
        &&& post.current_logical_block == self.current_logical_block
        &&& post.xa_filter_enabled == self.xa_filter_enabled
        &&& post.xa_filter_file == self.xa_filter_file
        &&& post.xa_filter_channel == self.xa_filter_channel
        &&& r.len() == 3
        &&& r[0] is CancelSectorReads
        &&& is_respond(r[1], DEFAULT_FIRST, seq![(CdRom { reading: false, playing: false, ..self }).status_byte_spec()], 3)
        &&& (is_respond(r[2], if self.reading || self.playing || self.seek_target is Some {
            if self.mode & 0x80 != 0 { STOP_SECOND_2X } else { STOP_SECOND_1X }
        } else { STOP_SECOND_ALREADY_STOPPED }, seq![post.status_byte_spec()], 2))
    }

    /// 09h Pause: INT3(stat as it was), INT2(stat) once paused.
    pub open spec fn pause_done(self, post: CdRom, r: Seq<CdAction>) -> bool {
        &&& !post.reading
        &&& !post.playing
        &&& post.seek_target == self.seek_target
        &&& post.mode == self.mode
        &&& post.current_logical_block == self.current_logical_block
        &&& post.xa_filter_enabled == self.xa_filter_enabled
        &&& post.xa_filter_file == self.xa_filter_file
        &&& post.xa_filter_channel == self.xa_filter_channel
        &&& r.len() == 3
        &&& r[0] is CancelSectorReads
        &&& is_respond(r[1], DEFAULT_FIRST, seq![self.status_byte_spec()], 3)
        &&& (is_respond(r[2], if self.reading || self.playing {
            if self.mode & 0x80 != 0 { PAUSE_SECOND_2X } else { PAUSE_SECOND_1X }
        } else { PAUSE_SECOND_ALREADY_PAUSED }, seq![post.status_byte_spec()], 2))
    }

    /// 0Ah Init: mode 20h, stop everything; INT3(stat), INT2(stat).
    pub open spec fn init_done(self, post: CdRom, r: Seq<CdAction>) -> bool {
        &&& post.mode == 0x20
        &&& !post.reading
        &&& !post.playing
        &&& post.seek_target is None
        &&& post.current_logical_block == self.current_logical_block
        &&& post.xa_filter_enabled == self.xa_filter_enabled
        &&& post.xa_filter_file == self.xa_filter_file
        &&& post.xa_filter_channel == self.xa_filter_channel
        &&& r.len() == 2
        &&& is_respond(r[0], DEFAULT_FIRST, seq![post.status_byte_spec()], 3)
        &&& is_respond(r[1], DEFAULT_FIRST, seq![post.status_byte_spec()], 2)
    }

    /// 0Ch Demute: INT3(stat).
    pub open spec fn demute_done(self, post: CdRom, r: Seq<CdAction>) -> bool {
        &&& post.same_drive(&self)
        &&& r.len() == 1 && is_respond(r[0], DEFAULT_FIRST, seq![self.status_byte_spec()], 3)
    }

    /// 0Dh Setfilter file,channel: INT3(stat).
    pub open spec fn setfilter_done(self, post: CdRom, r: Seq<CdAction>) -> bool {
        &&& post.xa_filter_file == self.arg_spec(0)
        &&& post.xa_filter_channel == self.arg_spec(1)
        &&& post.mode == self.mode
        &&& post.seek_target == self.seek_target
        &&& post.current_logical_block == self.current_logical_block
        &&& post.reading == self.reading
        &&& post.playing == self.playing
        &&& post.xa_filter_enabled == self.xa_filter_enabled
        &&& r.len() == 1 && is_respond(r[0], DEFAULT_FIRST, seq![self.status_byte_spec()], 3)
    }

    /// 0Eh Setmode mode: INT3(stat); bit 3 enables the XA filter.
    pub open spec fn setmode_done(self, post: CdRom, r: Seq<CdAction>) -> bool {
        &&& post.mode == self.arg_spec(0)
        &&& post.xa_filter_enabled == (self.arg_spec(0) & 0x08 != 0)
        &&& post.seek_target == self.seek_target
        &&& post.current_logical_block == self.current_logical_block
        &&& post.reading == self.reading
        &&& post.playing == self.playing
        &&& post.xa_filter_file == self.xa_filter_file
        &&& post.xa_filter_channel == self.xa_filter_channel
        &&& r.len() == 1 && is_respond(r[0], DEFAULT_FIRST, seq![self.status_byte_spec()], 3)
    }

    /// 11h GetlocP: INT3(track, index, mm, ss, sect within the track from its start, amm,
    /// ass, asect on the disc counting the lead-in), all BCD; FFh and zeros with no disc or before the first track.
    pub open spec fn getlocp_done(self, post: CdRom, r: Seq<CdAction>) -> bool {
        &&& post.same_drive(&self)
        &&& r.len() == 1
        &&& ({
            let lba = self.current_logical_block;
            let unknown = seq![0xFFu8, 0u8, 0u8, 0u8, 0u8, 0u8, 0u8, 0u8];
            match self.disc {
                None => is_respond(r[0], DEFAULT_FIRST, unknown, 3),
                Some(d) => match track_for_lba(d.tracks@, lba) {
                    None => is_respond(r[0], DEFAULT_FIRST, unknown, 3),
                    Some(t) => {
                        let rel = track_time_bcd_spec((lba - t.start_logical_block) as u32);
                        let abs = lba_to_msf_bcd_spec(lba);
                        is_respond(r[0], DEFAULT_FIRST, seq![decimal_to_bcd_spec(t.track_number), decimal_to_bcd_spec(1),
                        rel.0, rel.1, rel.2, abs.0, abs.1, abs.2], 3)
                    },
                },
            }
        })
    }

    /// 13h GetTN: INT3(stat, first track, last track) in BCD (1, 1 without tracks).
    pub open spec fn gettn_done(self, post: CdRom, r: Seq<CdAction>) -> bool {
        &&& post.same_drive(&self)
        &&& r.len() == 1
        &&& ({
            let (first, last) = match self.disc {
                Some(d) => if d.tracks@.len() > 0 { (d.tracks@[0].track_number, d.tracks@.last().track_number) } else { (1u8, 1u8) },
                None => (1u8, 1u8),
            };
            is_respond(r[0], DEFAULT_FIRST, seq![self.status_byte_spec(), decimal_to_bcd_spec(first), decimal_to_bcd_spec(last)], 3)
        })
    }

    /// 14h GetTD track: INT3(stat, mm, ss) with the BCD start of the track (track 0: the
    /// end of the disc); INT5(stat, 10h) with no disc, a non-BCD or unknown track.
    pub open spec fn gettd_done(self, post: CdRom, r: Seq<CdAction>) -> bool {
        &&& post.same_drive(&self)
        &&& r.len() == 1
        &&& (match gettd_lba(self.disc, self.arg_spec(0)) {
            None => is_respond(r[0], DEFAULT_FIRST, seq![self.status_byte_spec(), 0x10u8], 5),
            Some(lba) => is_respond(r[0], DEFAULT_FIRST,
            seq![self.status_byte_spec(), lba_to_msf_bcd_spec(lba).0, lba_to_msf_bcd_spec(lba).1], 3),
        })
    }

    /// 15h SeekL: INT3(stat), go to the Setloc target, INT2(stat).
    pub open spec fn seekl_done(self, post: CdRom, r: Seq<CdAction>) -> bool {
        &&& post.seek_target is None
        &&& post.current_logical_block == (match self.seek_target { Some(t) => t, None => self.current_logical_block })
        &&& post.reading == self.reading
        &&& post.playing == self.playing
        &&& post.mode == self.mode
        &&& post.xa_filter_enabled == self.xa_filter_enabled
        &&& post.xa_filter_file == self.xa_filter_file
        &&& post.xa_filter_channel == self.xa_filter_channel
        &&& r.len() == 2
        &&& is_respond(r[0], DEFAULT_FIRST, seq![self.status_byte_spec()], 3)
        &&& is_respond(r[1], SEEK_DELAY, seq![post.status_byte_spec()], 2)
    }

    /// 16h SeekP: INT3(stat), stop reading, go to the Setloc target with playback off,
    /// INT2(stat).
    pub open spec fn seekp_done(self, post: CdRom, r: Seq<CdAction>) -> bool {
        &&& post.seek_target is None
        &&& !post.reading
        &&& !post.playing
        &&& post.current_logical_block == (match self.seek_target { Some(t) => t, None => self.current_logical_block })
        &&& post.mode == self.mode
        &&& post.xa_filter_enabled == self.xa_filter_enabled
        &&& post.xa_filter_file == self.xa_filter_file
        &&& post.xa_filter_channel == self.xa_filter_channel
        &&& r.len() == 3
        &&& is_respond(r[0], DEFAULT_FIRST, seq![self.status_byte_spec()], 3)
        &&& r[1] is CancelSectorReads
        &&& is_respond(r[2], SEEK_DELAY, seq![post.status_byte_spec()], 2)
    }

    /// 19h Test: subcommand 20h answers the controller BIOS date and version; others FFh.
    pub open spec fn test_done(self, post: CdRom, r: Seq<CdAction>) -> bool {
        &&& post.same_drive(&self)
        &&& r.len() == 1
        &&& self.arg_spec(0) == 0x20 ==> is_respond(r[0], DEFAULT_FIRST, seq![0x95u8, 0x05u8, 0x16u8, 0xc1u8], 3)
        &&& self.arg_spec(0) != 0x20 ==> is_respond(r[0], DEFAULT_FIRST, seq![0xFFu8], 3)
    }

    /// 1Ah GetID: INT3(stat), then INT5 "no disc" or INT2 licensed mode 2 ("SCEA").
    pub open spec fn getid_done(self, post: CdRom, r: Seq<CdAction>) -> bool {
        &&& post.same_drive(&self)
        &&& r.len() == 2
        &&& is_respond(r[0], GETSTAT, seq![self.status_byte_spec()], 3)
        &&& self.disc is None ==> is_respond(r[1], GETID_SECOND, seq![0x08u8, 0x40u8, 0u8, 0u8, 0u8, 0u8, 0u8, 0u8], 5)
        &&& self.disc is Some ==> is_respond(r[1], GETID_SECOND, seq![0x02u8, 0x00u8, 0x20u8, 0x00u8, 0x53u8, 0x43u8, 0x45u8, 0x41u8], 2)
    }

    /// What command `cmd` does to the drive and which actions follow the dropping of pending
    /// responses; an unknown command does nothing.
    pub open spec fn command_done(self, post: CdRom, cmd: u8, rest: Seq<CdAction>) -> bool {
        if cmd == 0x01 { self.getstat_done(post, rest) }
        else if cmd == 0x02 { self.setloc_done(post, rest) }
        else if cmd == 0x03 { self.play_done(post, rest) }
        else if cmd == 0x06 { self.readn_done(post, rest) }
        else if cmd == 0x08 { self.stop_done(post, rest) }
        else if cmd == 0x09 { self.pause_done(post, rest) }
        else if cmd == 0x0A { self.init_done(post, rest) }
        else if cmd == 0x0C { self.demute_done(post, rest) }
        else if cmd == 0x0D { self.setfilter_done(post, rest) }
        else if cmd == 0x0E { self.setmode_done(post, rest) }
        else if cmd == 0x11 { self.getlocp_done(post, rest) }
        else if cmd == 0x13 { self.gettn_done(post, rest) }
        else if cmd == 0x14 { self.gettd_done(post, rest) }
        else if cmd == 0x15 { self.seekl_done(post, rest) }
        else if cmd == 0x16 { self.seekp_done(post, rest) }
        else if cmd == 0x19 { self.test_done(post, rest) }
        else if cmd == 0x1A { self.getid_done(post, rest) }
        else if cmd == 0x1B { self.readn_done(post, rest) }
        else { rest.len() == 0 && post.same_drive(&self) }
    }
}

impl CdRom {
    /// Run a command: the response FIFO and pending responses are dropped, the command runs on
    /// the parameter FIFO, which is then cleared. Unknown commands do nothing else.
    fn execute_command(&mut self, cmd: u8) -> (r: Vec<CdAction>)
        requires old(self).wf(),
        ensures
            final(self).wf(),
            actions_ok(r@),
            r@.len() >= 1, r@[0] is CancelResponses,
            final(self).command_result@.len() == 0,
            final(self).command_args@.len() == 0,
            final(self).register_index == old(self).register_index,
            final(self).interrupt_flags == old(self).interrupt_flags,
            final(self).interrupt_enable == old(self).interrupt_enable,
            final(self).disc == old(self).disc,
            final(self).data_fifo_loaded == old(self).data_fifo_loaded,
            final(self).data_buffer == old(self).data_buffer,
            final(self).data_buffer_offset == old(self).data_buffer_offset,
            final(self).xadpcm_decoder == old(self).xadpcm_decoder,
            final(self).same_volumes(&old(self)),
            !(cmd == 0x01 || cmd == 0x02 || cmd == 0x03 || cmd == 0x06 || cmd == 0x08 || cmd == 0x09 || cmd == 0x0A
                || cmd == 0x0C || cmd == 0x0D || cmd == 0x0E || cmd == 0x11 || cmd == 0x13 || cmd == 0x14
                || cmd == 0x15 || cmd == 0x16 || cmd == 0x19 || cmd == 0x1A || cmd == 0x1B) ==>
                r@.len() == 1 && final(self).same_drive(&old(self)),
            old(self).command_done(*final(self), cmd, r@.drop_first()),
    {
        self.command_result.clear();
        let mut rest = match cmd {
            0x01 => self.cmd_getstat(),
            0x02 => self.cmd_setloc(),
            0x03 => self.cmd_play(),
            0x06 => self.cmd_readn(),
            0x08 => self.cmd_stop(),
            0x09 => self.cmd_pause(),
            0x0A => self.cmd_init(),
            0x0C => self.cmd_demute(),
            0x0D => self.cmd_setfilter(),
            0x0E => self.cmd_setmode(),
            0x11 => self.cmd_getlocp(),
            0x13 => self.cmd_gettn(),
            0x14 => self.cmd_gettd(),
            0x15 => self.cmd_seekl(),
            0x16 => self.cmd_seekp(),
            0x19 => self.cmd_test(),
            0x1A => self.cmd_getid(),
            0x1B => self.cmd_readn(),
            _ => Vec::new(),
        };
        let mut actions = vec![CdAction::CancelResponses];
        let ghost rest_seq = rest@;
        actions.append(&mut rest);
        self.command_args.clear();
        assert(actions@.drop_first() =~= rest_seq);
        actions
    }

    /// What a register read returns and does to the drive.
    pub open spec fn register_read(self, post: CdRom, offset: u32, r: u8) -> bool {
        &&& offset == 0 ==> r == self.status_register_spec()
        &&& offset == 1 ==> (self.command_result@.len() > 0 ==> r == self.command_result@[0]
            && post.command_result@ == self.command_result@.drop_first())
            && (self.command_result@.len() == 0 ==> r == 0)
        &&& offset == 2 ==> r == self.data_fifo_byte()
        &&& offset == 3 && (self.register_index == 0 || self.register_index == 2) ==> r == self.interrupt_enable
        &&& offset == 3 && (self.register_index == 1 || self.register_index == 3) ==> r == self.interrupt_flags | 0xE0
        &&& post.same_drive(&self)
        &&& post.disc == self.disc
        &&& (offset == 0 || offset == 3) ==> post == self
        &&& offset == 1 ==> post == (CdRom { command_result: post.command_result, ..self })
        &&& offset == 2 ==> self.data_fifo_read(post)
    }

    /// Register reads: status (0), response FIFO (1), data FIFO (2), interrupt enable or
    /// flags (3).
    pub fn read_register(&mut self, offset: u32) -> (r: u8)
        requires old(self).wf(), offset < 4,
        ensures
            final(self).wf(),
            old(self).register_read(*final(self), offset, r),
    {
        if offset == 0 {
            self.read_status()
        } else if offset == 1 {
            self.read_result()
        } else if offset == 2 {
            self.read_data_fifo()
        } else {
            self.read_interrupt_register()
        }
    }

    /// What a register write does to the registers the program sees, and to the scheduler: a
    /// command runs (see `command_done`) and its actions are carried out.
    pub open spec fn written(self, post: CdRom, sched: Scheduler, post_sched: Scheduler, offset: u32, value: u8) -> bool {
        &&& offset == 0 ==> post.register_index == value & 0x03
        &&& offset == 1 && self.register_index == 0 ==> exists|acts: Seq<CdAction>| #![trigger actions_applied(sched, post_sched, acts)]
            acts.len() >= 1 && acts[0] is CancelResponses && self.command_done(post, value, acts.drop_first())
            && actions_applied(sched, post_sched, acts)
        &&& !(offset == 1 && self.register_index == 0) ==> post_sched == sched
        &&& {
            let idx = self.register_index;
            &&& offset == 1 && idx == 3 ==> post.cd_vol_rr == value
            &&& offset == 2 && idx == 0 && self.command_args@.len() < 16 ==> post.command_args@ == self.command_args@.push(value)
            &&& offset == 2 && idx == 1 ==> post.interrupt_enable == value & 0x1F
            &&& offset == 2 && idx == 2 ==> post.cd_vol_ll == value
            &&& offset == 2 && idx == 3 ==> post.cd_vol_rl == value
            &&& offset == 3 && idx == 0 ==> post.data_fifo_loaded == (value & 0x80 != 0)
            &&& offset == 3 && idx == 1 ==> post.interrupt_flags == (if value & 0x07 != 0 { self.interrupt_flags & !(value & 0x07) } else { self.interrupt_flags })
            &&& offset == 3 && idx == 2 ==> post.cd_vol_lr == value
            &&& offset == 3 && idx == 3 && value & 0x20 != 0 ==> post.applied_vol_ll == self.cd_vol_ll
                && post.applied_vol_lr == self.cd_vol_lr && post.applied_vol_rr == self.cd_vol_rr
                && post.applied_vol_rl == self.cd_vol_rl
            &&& offset == 1 && idx == 0 ==> post.command_result@.len() == 0 && post.command_args@.len() == 0
            &&& !(offset == 1 && idx == 3) ==> post.cd_vol_rr == self.cd_vol_rr
            &&& !(offset == 2 && idx == 2) ==> post.cd_vol_ll == self.cd_vol_ll
            &&& !(offset == 2 && idx == 3) ==> post.cd_vol_rl == self.cd_vol_rl
            &&& !(offset == 3 && idx == 2) ==> post.cd_vol_lr == self.cd_vol_lr
            // Outside a command, a write touches only the register it names.
            &&& offset == 0 ==> post == (CdRom { register_index: value & 0x03, ..self })
            &&& offset == 1 && idx != 0 ==> post == (CdRom { cd_vol_rr: post.cd_vol_rr, ..self })
            &&& offset == 2 ==> post == (CdRom { command_args: post.command_args, interrupt_enable: post.interrupt_enable,
                    cd_vol_ll: post.cd_vol_ll, cd_vol_rl: post.cd_vol_rl, ..self })
            &&& offset == 2 && idx != 0 ==> post.command_args == self.command_args
            &&& offset == 2 && idx == 0 && self.command_args@.len() >= 16 ==> post.command_args == self.command_args
            &&& offset == 2 && idx != 1 ==> post.interrupt_enable == self.interrupt_enable
            &&& offset == 3 ==> post == (CdRom { data_fifo_loaded: post.data_fifo_loaded, data_buffer_offset: post.data_buffer_offset,
                    interrupt_flags: post.interrupt_flags, command_args: post.command_args, cd_vol_lr: post.cd_vol_lr,
                    applied_vol_ll: post.applied_vol_ll, applied_vol_lr: post.applied_vol_lr,
                    applied_vol_rr: post.applied_vol_rr, applied_vol_rl: post.applied_vol_rl, ..self })
            &&& offset == 3 && idx != 0 ==> post.data_fifo_loaded == self.data_fifo_loaded && post.data_buffer_offset == self.data_buffer_offset
            &&& offset == 3 && idx != 1 ==> post.interrupt_flags == self.interrupt_flags
            &&& offset == 3 && idx == 1 && value & 0x40 != 0 ==> post.command_args@.len() == 0
            &&& offset == 3 && !(idx == 1 && value & 0x40 != 0) ==> post.command_args == self.command_args
            &&& offset == 3 && idx == 0 ==> post.data_buffer_offset == (if value & 0x80 != 0 && !self.data_fifo_loaded { 0 } else { self.data_buffer_offset })
            &&& !(offset == 3 && idx == 3 && value & 0x20 != 0) ==> post.applied_vol_ll == self.applied_vol_ll
                && post.applied_vol_lr == self.applied_vol_lr && post.applied_vol_rr == self.applied_vol_rr
                && post.applied_vol_rl == self.applied_vol_rl
        }
    }

    /// Register writes. Port 0 selects the bank; port 1 takes a command (bank 0) or the
    /// right-to-right volume (bank 3); port 2 a parameter (bank 0), the interrupt enable
    /// (bank 1) or the left-to-left (bank 2) and right-to-left (bank 3) volumes; port 3 the
    /// request register (bank 0), interrupt acknowledge (bank 1), the left-to-right volume
    /// (bank 2) or, with bit 5, applies the volumes (bank 3).
    pub fn write_register(&mut self, offset: u32, value: u8, scheduler: &mut Scheduler)
        requires old(self).wf(), old(scheduler).wf(), offset < 4,
        ensures
            final(self).wf(),
            final(scheduler).wf(),
            final(scheduler).current_cycle == old(scheduler).current_cycle,
            old(self).written(*final(self), *old(scheduler), *final(scheduler), offset, value),
    {
        if offset == 0 {
            assert(value & 0x03 < 4) by { crate::bits::lemma_and_bounds(); }
            self.register_index = value & 0x03;
        } else if offset == 1 {
            if self.register_index == 0 {
                let actions = self.execute_command(value);
                apply_actions(actions, scheduler);
            } else if self.register_index == 3 {
                self.cd_vol_rr = value;
            }
        } else if offset == 2 {
            if self.register_index == 0 {
                self.write_parameter_fifo(value);
            } else if self.register_index == 1 {
                self.interrupt_enable = value & 0x1F;
            } else if self.register_index == 2 {
                self.cd_vol_ll = value;
            } else {
                self.cd_vol_rl = value;
            }
        } else {
            if self.register_index == 0 {
                self.write_request_register(value);
            } else if self.register_index == 1 {
                self.write_interrupt_flag_register(value);
            } else if self.register_index == 2 {
                self.cd_vol_lr = value;
            } else if value & 0x20 != 0 {
                self.applied_vol_ll = self.cd_vol_ll;
                self.applied_vol_lr = self.cd_vol_lr;
                self.applied_vol_rr = self.cd_vol_rr;
                self.applied_vol_rl = self.cd_vol_rl;
            }
        }
    }

    /// A scheduled response arrives: if an interrupt is still unacknowledged it is retried
    /// later, otherwise its bytes go to the response FIFO and its interrupt is raised.
    pub fn handle_response_event(&mut self, bytes: Vec<u8>, int_code: u8, scheduler: &mut Scheduler, interrupt_controller: &mut InterruptController)
        requires old(self).wf(), old(scheduler).wf(),
        ensures
            final(self).wf(),
            final(scheduler).wf(),
            final(scheduler).current_cycle == old(scheduler).current_cycle,
            old(self).interrupt_flags != 0 ==> *final(self) == *old(self)
                && final(interrupt_controller).stat == old(interrupt_controller).stat
                && old(scheduler).added(*final(scheduler), SchedulerEvent::CdRomResponse { bytes, int_code }, RETRY_CYCLES),
            old(self).interrupt_flags == 0 ==> final(self).command_result@ == old(self).command_result@ + bytes@
                && final(self).interrupt_flags == int_code & 0x1F
                && final(scheduler).events == old(scheduler).events
                && ({
                    let enabled = 1 <= int_code <= 8 && old(self).interrupt_enable & (1u8 << ((int_code - 1) as u8)) != 0;
                    &&& enabled ==> final(interrupt_controller).stat == old(interrupt_controller).stat | (1u16 << interrupt_bit(Interrupt::CDROM))
                    &&& !enabled ==> final(interrupt_controller).stat == old(interrupt_controller).stat
                }),
            final(interrupt_controller).mask == old(interrupt_controller).mask,
            crate::interrupt_controller::stat_grows(old(interrupt_controller).stat, final(interrupt_controller).stat),
            final(self).same_drive(&old(self)),
    {
        proof { crate::interrupt_controller::lemma_stat_grows(); }
        if self.interrupt_flags != 0 {
            scheduler.schedule(SchedulerEvent::CdRomResponse { bytes, int_code }, RETRY_CYCLES);
            return;
        }
        self.push_response_and_interrupt(&bytes, int_code, interrupt_controller);
        assert((0u8 | (int_code & 0x1F)) == int_code & 0x1F) by (bit_vector);
    }
}

/// The CD-DA samples of a raw audio sector: 588 little-endian 16-bit stereo pairs.
pub open spec fn cdda_samples(sector: Seq<u8>) -> Seq<(PcmSample, PcmSample)> {
    Seq::new(588, |i: int| (PcmSample(crate::bytes::le16(sector, 4 * i) as i16), PcmSample(crate::bytes::le16(sector, 4 * i + 2) as i16)))
}

impl CdRom {
    /// The type of the track holding sector `lba` (data when unknown).
    pub open spec fn track_type_spec(&self, lba: u32) -> TrackType {
        match self.disc {
            None => TrackType::Data,
            Some(d) => match track_for_lba(d.tracks@, lba) {
                Some(t) => t.track_type,
                None => TrackType::Data,
            },
        }
    }

    fn track_type_for_lba(&self, lba: u32) -> (r: TrackType)
        ensures r == self.track_type_spec(lba),
    {
        match &self.disc {
            None => TrackType::Data,
            Some(disc) => match find_track_for_lba(&disc.tracks, lba) {
                Some(t) => t.track_type,
                None => TrackType::Data,
            },
        }
    }

    /// With the XA filter on, only the selected file and channel pass.
    pub open spec fn xa_filter_matches_spec(&self, sub: XaSubHeader) -> bool {
        !self.xa_filter_enabled || (sub.file_number == self.xa_filter_file && sub.channel_number == self.xa_filter_channel)
    }

    fn xa_filter_matches(&self, subheader: &XaSubHeader) -> (r: bool)
        ensures r == self.xa_filter_matches_spec(*subheader),
    {
        if !self.xa_filter_enabled {
            return true;
        }
        subheader.file_number == self.xa_filter_file && subheader.channel_number == self.xa_filter_channel
    }

    /// The play report due after sector `lba` while playing with reports enabled (mode bit
    /// 2): eight times a second, alternating absolute and track-relative positions.
    fn maybe_deliver_play_report(&self, lba: u32) -> (r: Vec<CdAction>)
        requires self.wf(),
        ensures
            actions_ok(r@),
            r@.len() <= 1,
            ({
                let asect = (lba.wrapping_add(150) % 75) as u8;
                let absolute = asect == 0x00 || asect == 0x20 || asect == 0x40 || asect == 0x60;
                let relative = asect == 0x10 || asect == 0x30 || asect == 0x50 || asect == 0x70;
                let due = self.playing && self.mode & 0x04 != 0 && (absolute || relative);
                match self.disc {
                    Some(d) => match track_for_lba(d.tracks@, lba) {
                        Some(t) => {
                            let rel = (lba - t.start_logical_block) as u32;
                            let abs_msf = lba_to_msf_bcd_spec(lba);
                            let rel_msf = track_time_bcd_spec(rel);
                            let bytes = if absolute {
                                seq![self.status_byte_spec(), decimal_to_bcd_spec(t.track_number), decimal_to_bcd_spec(1),
                                    abs_msf.0, abs_msf.1, decimal_to_bcd_spec(asect), 0u8, 0u8]
                            } else {
                                seq![self.status_byte_spec(), decimal_to_bcd_spec(t.track_number), decimal_to_bcd_spec(1),
                                    rel_msf.0, rel_msf.1 | 0x80u8, decimal_to_bcd_spec((rel % 75) as u8), 0u8, 0u8]
                            };
                            &&& due ==> r@.len() == 1 && is_respond(r@[0], DEFAULT_FIRST, bytes, 1)
                            &&& !due ==> r@.len() == 0
                        },
                        None => r@.len() == 0,
                    },
                    None => r@.len() == 0,
                }
            }),
    {
        if !self.playing || self.mode & 0x04 == 0 {
            return Vec::new();
        }
        let a = lba.wrapping_add(150);
        let asect = (a % 75) as u8;
        let absolute = asect == 0x00 || asect == 0x20 || asect == 0x40 || asect == 0x60;
        let relative = asect == 0x10 || asect == 0x30 || asect == 0x50 || asect == 0x70;
        if !absolute && !relative {
            return Vec::new();
        }
        match &self.disc {
            None => Vec::new(),
            Some(disc) => match find_track_for_lba(&disc.tracks, lba) {
                None => Vec::new(),
                Some(track) => {
                    let status = self.get_status_byte();
                    let bytes = if absolute {
                        let (amm, ass, _) = lba_to_msf_bcd(lba);
                        vec![status, decimal_to_bcd(track.track_number), decimal_to_bcd(1), amm, ass, decimal_to_bcd(asect), 0u8, 0u8]
                    } else {
                        let rel_lba = lba - track.start_logical_block;
                        let (mm, ss, _) = lba_to_msf_bcd(rel_lba.wrapping_sub(150));
                        let sect = decimal_to_bcd((rel_lba % 75) as u8);
                        vec![status, decimal_to_bcd(track.track_number), decimal_to_bcd(1), mm, ss | 0x80, sect, 0u8, 0u8]
                    };
                    vec![respond(DEFAULT_FIRST, bytes, 1)]
                },
            },
        }
    }

    /// Read the raw sector `lba` from the image file of its track; zeros with no disc or
    /// before the first track.
    fn read_sector(&mut self, lba: u32) -> (r: [u8; 2352])
        requires old(self).wf(),
        ensures
            final(self).wf(),
            (match old(self).disc {
                None => true,
                Some(d) => track_for_lba(d.tracks@, lba) is None,
            }) ==> r@ == Seq::new(2352, |i: int| 0u8),
            final(self).same_drive(&old(self)),
            final(self).disc is Some == old(self).disc is Some,
            (match (final(self).disc, old(self).disc) {
                (Some(a), Some(b)) => a.tracks == b.tracks && a.file_sizes == b.file_sizes,
                _ => true,
            }),
            final(self).xadpcm_decoder == old(self).xadpcm_decoder,
            final(self).pending_cdda_samples == old(self).pending_cdda_samples,
            final(self).command_result == old(self).command_result,
            final(self).data_buffer == old(self).data_buffer,
            final(self).data_buffer_offset == old(self).data_buffer_offset,
            final(self).command_args == old(self).command_args,
            final(self).register_index == old(self).register_index,
            final(self).data_fifo_loaded == old(self).data_fifo_loaded,
            final(self).interrupt_flags == old(self).interrupt_flags,
            final(self).interrupt_enable == old(self).interrupt_enable,
    {
        let mut buf: [u8; 2352] = [0; 2352];
        assert(buf@ =~= Seq::new(2352, |i: int| 0u8));
        match &mut self.disc {
            None => buf,
            Some(disc) => {
                match find_track_for_lba(&disc.tracks, lba) {
                    None => buf,
                    Some(track) => {
                        let sector_offset_in_track = (lba - track.start_logical_block) as u64;
                        let byte_offset = track.file_offset.wrapping_add(sector_offset_in_track * 2352);
                        if track.file_index < disc.files.len() {
                            let file = &mut disc.files[track.file_index];
                            let _ = file.read_at(byte_offset, &mut buf);
                        }
                        buf
                    },
                }
            },
        }
    }

    /// Queue the 588 stereo samples of the audio sector in the buffer.
    fn extract_cdda_audio(&mut self)
        ensures
            final(self).pending_cdda_samples@ == old(self).pending_cdda_samples@ + cdda_samples(old(self).sector_buffer@),
            final(self).same_drive(&old(self)),
            final(self).disc == old(self).disc,
            final(self).sector_buffer == old(self).sector_buffer,
            final(self).xadpcm_decoder == old(self).xadpcm_decoder,
            final(self).command_result == old(self).command_result,
            final(self).data_buffer == old(self).data_buffer,
            final(self).data_buffer_offset == old(self).data_buffer_offset,
            final(self).command_args == old(self).command_args,
            final(self).register_index == old(self).register_index,
            final(self).data_fifo_loaded == old(self).data_fifo_loaded,
            final(self).interrupt_flags == old(self).interrupt_flags,
            final(self).interrupt_enable == old(self).interrupt_enable,
    {
        let ghost base = self.pending_cdda_samples@;
        let ghost samples = cdda_samples(self.sector_buffer@);
        let mut i: usize = 0;
        while i < 588
            invariant
                i <= 588,
                samples == cdda_samples(self.sector_buffer@),
                self.pending_cdda_samples@ == base + samples.take(i as int),
                self.same_drive(&old(self)),
                self.disc == old(self).disc,
                self.sector_buffer == old(self).sector_buffer,
                self.xadpcm_decoder == old(self).xadpcm_decoder,
                self.command_result == old(self).command_result,
                self.data_buffer == old(self).data_buffer,
                self.data_buffer_offset == old(self).data_buffer_offset,
                self.command_args == old(self).command_args,
                self.register_index == old(self).register_index,
                self.data_fifo_loaded == old(self).data_fifo_loaded,
                self.interrupt_flags == old(self).interrupt_flags,
                self.interrupt_enable == old(self).interrupt_enable,
            decreases 588 - i,
        {
            let o = 4 * i;
            let l = ((self.sector_buffer[o] as u16) | ((self.sector_buffer[o + 1] as u16) << 8u16)) as i16;
            let r = ((self.sector_buffer[o + 2] as u16) | ((self.sector_buffer[o + 3] as u16) << 8u16)) as i16;
            self.pending_cdda_samples.push_back((PcmSample(l), PcmSample(r)));
            assert(samples.take(i as int + 1) =~= samples.take(i as int).push((PcmSample(l), PcmSample(r))));
            i = i + 1;
        }
        assert(samples.take(588) =~= samples);
    }

    /// Make the sector's data readable through the data FIFO: 2340 bytes from byte 12 in
    /// whole-sector mode (mode bit 5), else the 2048 user bytes from byte 24.
    fn extract_data_buffer(&mut self)
        requires old(self).wf(),
        ensures
            final(self).wf(),
            final(self).data_buffer@ == (if old(self).mode & 0x20 != 0 {
                old(self).sector_buffer@.subrange(12, 2352)
            } else {
                old(self).sector_buffer@.subrange(24, 2072)
            }),
            final(self).data_buffer_offset == 0,
            final(self).same_drive(&old(self)),
            final(self).disc == old(self).disc,
            final(self).sector_buffer == old(self).sector_buffer,
            final(self).xadpcm_decoder == old(self).xadpcm_decoder,
            final(self).pending_cdda_samples == old(self).pending_cdda_samples,
            final(self).command_result == old(self).command_result,
            final(self).command_args == old(self).command_args,
            final(self).register_index == old(self).register_index,
            final(self).data_fifo_loaded == old(self).data_fifo_loaded,
            final(self).interrupt_flags == old(self).interrupt_flags,
            final(self).interrupt_enable == old(self).interrupt_enable,
    {
        let (start, size): (usize, usize) = if self.mode & 0x20 != 0 { (12, 2340) } else { (24, 2048) };
        let mut buffer: Vec<u8> = Vec::new();
        let mut i: usize = 0;
        while i < size
            invariant
                i <= size, start + size <= 2352,
                buffer@ == self.sector_buffer@.subrange(start as int, (start + i) as int),
            decreases size - i,
        {
            buffer.push(self.sector_buffer[start + i]);
            assert(buffer@ =~= self.sector_buffer@.subrange(start as int, (start + i + 1) as int));
            i = i + 1;
        }
        self.data_buffer = buffer;
        self.data_buffer_offset = 0;
    }

    /// Read the sector at the head and advance: audio sectors go to CD-DA playback (with a
    /// possible play report), real-time XA audio sectors that pass the filter to the
    /// XA-ADPCM decoder (when enabled by mode bit 6); other sectors become the data FIFO
    /// (unless the filter rejects real-time audio) and ask for INT1.
    fn perform_sector_read(&mut self) -> (r: (bool, Vec<CdAction>))
        requires old(self).wf(),
        ensures
            final(self).wf(),
            actions_ok(r.1@),
            final(self).current_logical_block == old(self).current_logical_block.wrapping_add(1),
            final(self).mode == old(self).mode,
            final(self).seek_target == old(self).seek_target,
            final(self).reading == old(self).reading,
            final(self).playing == old(self).playing,
            final(self).command_result == old(self).command_result,
            final(self).interrupt_flags == old(self).interrupt_flags,
            final(self).interrupt_enable == old(self).interrupt_enable,
            old(self).track_type_spec(old(self).current_logical_block) == TrackType::Audio ==> !r.0
                && final(self).pending_cdda_samples@ == old(self).pending_cdda_samples@ + cdda_samples(final(self).sector_buffer@),
            old(self).track_type_spec(old(self).current_logical_block) == TrackType::Data ==> ({
                let sub = XaSubHeader {
                    file_number: final(self).sector_buffer@[16], channel_number: final(self).sector_buffer@[17],
                    submode: final(self).sector_buffer@[18], coding_info: final(self).sector_buffer@[19],
                };
                let realtime_audio = sub.submode & 0x04 != 0 && sub.submode & 0x40 != 0;
                let adpcm = old(self).mode & 0x40 != 0 && realtime_audio && old(self).xa_filter_matches_spec(sub);
                &&& r.1@.len() == 0
                &&& r.0 == !adpcm
                &&& !adpcm && !(old(self).xa_filter_enabled && realtime_audio) ==> final(self).data_buffer@ == (if old(self).mode & 0x20 != 0 {
                        final(self).sector_buffer@.subrange(12, 2352)
                    } else {
                        final(self).sector_buffer@.subrange(24, 2072)
                    }) && final(self).data_buffer_offset == 0
            }),
    {
        let lba = self.current_logical_block;
        let sector = self.read_sector(lba);
        self.sector_buffer = sector;
        let track_type = self.track_type_for_lba(lba);
        self.current_logical_block = lba.wrapping_add(1);
        if track_type == TrackType::Audio {
            self.extract_cdda_audio();
            let report = self.maybe_deliver_play_report(lba);
            return (false, report);
        }
        let subheader = XaSubHeader::parse(&self.sector_buffer);
        let adpcm_enabled = self.mode & 0x40 != 0;
        let is_realtime_audio = subheader.is_audio() && subheader.is_realtime();
        let deliver_as_adpcm = adpcm_enabled && is_realtime_audio && self.xa_filter_matches(&subheader);
        if deliver_as_adpcm {
            self.xadpcm_decoder.decode_sector(&subheader, &self.sector_buffer);
            (false, Vec::new())
        } else {
            let reject_data = self.xa_filter_enabled && is_realtime_audio;
            if !reject_data {
                self.extract_data_buffer();
            }
            (true, Vec::new())
        }
    }

    /// The sector timer fires while reading or playing: retried while an interrupt is
    /// unacknowledged; otherwise the sector is read (data sectors answer INT1(stat)) and the
    /// next sector is scheduled.
    pub fn handle_sector_read_event(&mut self, scheduler: &mut Scheduler, interrupt_controller: &mut InterruptController)
        requires old(self).wf(), old(scheduler).wf(),
        ensures
            final(self).wf(),
            final(scheduler).wf(),
            final(scheduler).current_cycle == old(scheduler).current_cycle,
            final(interrupt_controller).mask == old(interrupt_controller).mask,
            crate::interrupt_controller::stat_grows(old(interrupt_controller).stat, final(interrupt_controller).stat),
            final(self).mode == old(self).mode,
            final(self).seek_target == old(self).seek_target,
            final(self).reading == old(self).reading,
            final(self).playing == old(self).playing,
            (old(self).reading || old(self).playing) && old(self).interrupt_flags == 0 ==>
                final(self).current_logical_block == old(self).current_logical_block.wrapping_add(1),
            !((old(self).reading || old(self).playing) && old(self).interrupt_flags == 0) ==>
                final(self).current_logical_block == old(self).current_logical_block
                && final(self).command_result == old(self).command_result
                && final(interrupt_controller).stat == old(interrupt_controller).stat,
            !old(self).reading && !old(self).playing ==> final(scheduler).events == old(scheduler).events
                && *final(self) == *old(self),
            (old(self).reading || old(self).playing) && old(self).interrupt_flags != 0 ==> *final(self) == *old(self)
                && old(scheduler).added(*final(scheduler), SchedulerEvent::CdRomSectorRead, RETRY_CYCLES),
    {
        proof { crate::interrupt_controller::lemma_stat_grows(); }
        if !self.reading && !self.playing {
            return;
        }
        if self.interrupt_flags != 0 {
            scheduler.schedule(SchedulerEvent::CdRomSectorRead, RETRY_CYCLES);
            return;
        }
        let (should_interrupt, actions) = self.perform_sector_read();
        apply_actions(actions, scheduler);
        if should_interrupt {
            let status = self.status_response();
            self.push_response_and_interrupt(&status, 1, interrupt_controller);
        }
        let delay = read_delay(self.mode);
        scheduler.schedule(SchedulerEvent::CdRomSectorRead, delay);
    }
}

/// One meaningful line of a CUE sheet. A file name is given by its byte range in the sheet.
#[derive(Debug, Clone, Copy, PartialEq, Eq, Structural)]
pub enum CueEntry {
    File { name_start: usize, name_end: usize },
    Track { number: u8, audio: bool },
    /// Only `INDEX 01` lines are kept.
    Index { minutes: u8, seconds: u8, frames: u8 },
}

/// Why a CUE sheet was refused.
#[derive(Debug, Clone, Copy, PartialEq, Eq, Structural)]
pub enum CueError {
    /// A FILE, TRACK or INDEX line lacks its fields or holds a bad number.
    MalformedLine,
    /// An INDEX before any FILE, or more FILE lines than image files.
    MissingFile,
    /// A sector address does not fit in 32 bits.
    AddressOverflow,
}

pub open spec fn is_ws(b: u8) -> bool {
    b == 32 || (9 <= b && b <= 13)
}

/// End of the line starting at `i`: the next newline or the end of the text.
pub open spec fn line_end(s: Seq<u8>, i: int) -> int
    decreases s.len() - i,
{
    if i >= s.len() || i < 0 { s.len() as int } else if s[i] == 10 { i } else { line_end(s, i + 1) }
}

/// End of the line's content: a carriage return before the newline is dropped.
pub open spec fn content_end(s: Seq<u8>, i: int) -> int {
    let e = line_end(s, i);
    if e > i && s[e - 1] == 13 { e - 1 } else { e }
}

/// End of the word starting at `i` of `l` (the next whitespace byte or `end`).
pub open spec fn word_end(l: Seq<u8>, i: int, end: int) -> int
    decreases end - i,
{
    if i >= end { end } else if is_ws(l[i]) { i } else { word_end(l, i + 1, end) }
}

/// The whitespace-separated words of `l[i..end]`, as byte ranges of `l`.
pub open spec fn words(l: Seq<u8>, i: int, end: int) -> Seq<(int, int)>
    decreases end - i,
{
    if i >= end {
        Seq::empty()
    } else if is_ws(l[i]) {
        words(l, i + 1, end)
    } else {
        let e = word_end(l, i, end);
        if i < e <= end { seq![(i, e)] + words(l, e, end) } else { Seq::empty() }
    }
}

pub open spec fn digit_value(b: u8) -> int {
    b - 48
}

/// Decimal value of `l[a..b]`, saturated at 256.
pub open spec fn capped_value(l: Seq<u8>, a: int, b: int) -> int
    decreases b - a,
{
    if b <= a {
        0
    } else {
        let v = capped_value(l, a, b - 1) * 10 + digit_value(l[b - 1]);
        if v > 256 { 256 } else { v }
    }
}

pub open spec fn all_digits(l: Seq<u8>, a: int, b: int) -> bool {
    forall|i: int| a <= i < b ==> 48 <= #[trigger] l[i] <= 57
}

/// `l[a..b]` read as a `u8`: an optional '+', one or more decimal digits, at most 255.
pub open spec fn parse_u8_spec(l: Seq<u8>, a: int, b: int) -> Option<u8> {
    let a2 = if a < b && l[a] == 43 { a + 1 } else { a };
    if a2 < b && all_digits(l, a2, b) && capped_value(l, a2, b) <= 255 {
        Some(capped_value(l, a2, b) as u8)
    } else {
        None
    }
}

pub open spec fn bytes_equal(l: Seq<u8>, a: int, b: int, word: Seq<u8>) -> bool {
    b - a == word.len() && forall|i: int| 0 <= i < word.len() ==> #[trigger] l[a + i] == word[i]
}

pub open spec fn kw_file() -> Seq<u8> { seq![70u8, 73u8, 76u8, 69u8] }
pub open spec fn kw_track() -> Seq<u8> { seq![84u8, 82u8, 65u8, 67u8, 75u8] }
pub open spec fn kw_index() -> Seq<u8> { seq![73u8, 78u8, 68u8, 69u8, 88u8] }
pub open spec fn kw_audio() -> Seq<u8> { seq![65u8, 85u8, 68u8, 73u8, 79u8] }

/// Position of the first byte `c` in `l[a..b]`, or `b`.
pub open spec fn first_byte(l: Seq<u8>, a: int, b: int, c: u8) -> int
    decreases b - a,
{
    if a >= b { b } else if l[a] == c { a } else { first_byte(l, a + 1, b, c) }
}

/// Position of the last byte `c` in `l[a..b]`, or `b`.
pub open spec fn last_byte(l: Seq<u8>, a: int, b: int, c: u8) -> int
    decreases b - a,
{
    if a >= b { b } else if l[b - 1] == c { b - 1 } else if last_byte(l, a, b - 1, c) == b - 1 { b } else { last_byte(l, a, b - 1, c) }
}

/// The `mm:ss:ff` word `l[a..b]` split at colons: the ends of its first three fields, if it
/// has three or more.
pub open spec fn msf_fields(l: Seq<u8>, a: int, b: int) -> Option<(int, int, int)> {
    let c1 = first_byte(l, a, b, 58);
    let c2 = first_byte(l, c1 + 1, b, 58);
    let c3 = first_byte(l, c2 + 1, b, 58);
    if c1 < b && c2 < b { Some((c1, c2, c3)) } else { None }
}

/// The entry a line `s[i..e]` holds, if any; `Err` for a malformed FILE, TRACK or INDEX line.
pub open spec fn parse_line_spec(s: Seq<u8>, i: int, e: int) -> Result<Option<CueEntry>, CueError> {
    let w = words(s, i, e);
    if w.len() == 0 {
        Ok(None)
    } else if bytes_equal(s, w[0].0, w[0].1, kw_file()) {
        let q1 = first_byte(s, i, e, 34);
        let q2 = last_byte(s, i, e, 34);
        if q1 < e && q2 < e && q1 < q2 {
            Ok(Some(CueEntry::File { name_start: (q1 + 1) as usize, name_end: q2 as usize }))
        } else {
            Err(CueError::MalformedLine)
        }
    } else if bytes_equal(s, w[0].0, w[0].1, kw_track()) {
        if w.len() < 3 {
            Err(CueError::MalformedLine)
        } else {
            match parse_u8_spec(s, w[1].0, w[1].1) {
                None => Err(CueError::MalformedLine),
                Some(n) => Ok(Some(CueEntry::Track { number: n, audio: bytes_equal(s, w[2].0, w[2].1, kw_audio()) })),
            }
        }
    } else if bytes_equal(s, w[0].0, w[0].1, kw_index()) {
        if w.len() < 2 {
            Err(CueError::MalformedLine)
        } else {
            match parse_u8_spec(s, w[1].0, w[1].1) {
                None => Err(CueError::MalformedLine),
                Some(n) => if n != 1 {
                    Ok(None)
                } else if w.len() < 3 {
                    Err(CueError::MalformedLine)
                } else {
                    match msf_fields(s, w[2].0, w[2].1) {
                        None => Err(CueError::MalformedLine),
                        Some(c) => match (parse_u8_spec(s, w[2].0, c.0), parse_u8_spec(s, c.0 + 1, c.1), parse_u8_spec(s, c.1 + 1, c.2)) {
                            (Some(mm), Some(ss), Some(ff)) => Ok(Some(CueEntry::Index { minutes: mm, seconds: ss, frames: ff })),
                            _ => Err(CueError::MalformedLine),
                        },
                    }
                },
            }
        }
    } else {
        Ok(None)
    }
}

/// The entries of the lines from byte `i` on, in order.
pub open spec fn parse_cue_from(s: Seq<u8>, i: int) -> Result<Seq<CueEntry>, CueError>
    decreases s.len() - i,
{
    if i >= s.len() || i < 0 {
        Ok(Seq::empty())
    } else {
        let e = line_end(s, i);
        match parse_line_spec(s, i, content_end(s, i)) {
            Err(err) => Err(err),
            Ok(entry) => {
                let rest = if i <= e < s.len() { parse_cue_from(s, e + 1) } else { Ok(Seq::empty()) };
                match rest {
                    Err(err) => Err(err),
                    Ok(rest) => Ok(match entry { Some(en) => seq![en] + rest, None => rest }),
                }
            },
        }
    }
}

fn find_line_end(s: &[u8], i: usize) -> (r: usize)
    requires i <= s@.len(),
    ensures r == line_end(s@, i as int), i <= r <= s@.len(),
{
    let mut j = i;
    while j < s.len()
        invariant
            i <= j <= s@.len(),
            line_end(s@, j as int) == line_end(s@, i as int),
        decreases s@.len() - j,
    {
        if s[j] == 10 {
            return j;
        }
        j = j + 1;
    }
    j
}

fn first_byte_at(s: &[u8], a: usize, b: usize, c: u8) -> (r: usize)
    requires a <= b <= s@.len(),
    ensures r == first_byte(s@, a as int, b as int, c), a <= r <= b,
{
    let mut j = a;
    while j < b
        invariant
            a <= j <= b <= s@.len(),
            first_byte(s@, j as int, b as int, c) == first_byte(s@, a as int, b as int, c),
        decreases b - j,
    {
        if s[j] == c {
            return j;
        }
        j = j + 1;
    }
    j
}

proof fn lemma_last_byte_range(l: Seq<u8>, a: int, b: int, c: u8)
    requires a <= b,
    ensures a <= last_byte(l, a, b, c) <= b,
        last_byte(l, a, b, c) < b ==> l[last_byte(l, a, b, c)] == c,
    decreases b - a,
{
    if a < b {
        lemma_last_byte_range(l, a, b - 1, c);
    }
}

fn last_byte_at(s: &[u8], a: usize, b: usize, c: u8) -> (r: usize)
    requires a <= b <= s@.len(),
    ensures r == last_byte(s@, a as int, b as int, c), a <= r <= b,
{
    let mut j = b;
    while j > a
        invariant
            a <= j <= b <= s@.len(),
            forall|k: int| j <= k < b ==> s@[k] != c,
            last_byte(s@, a as int, b as int, c) == (if last_byte(s@, a as int, j as int, c) == j { b as int } else { last_byte(s@, a as int, j as int, c) }),
        decreases j - a,
    {
        if s[j - 1] == c {
            proof { lemma_last_byte_range(s@, a as int, j as int - 1, c); }
            return j - 1;
        }
        proof { lemma_last_byte_range(s@, a as int, j as int - 1, c); }
        j = j - 1;
    }
    b
}

fn word_end_at(s: &[u8], i: usize, end: usize) -> (r: usize)
    requires i <= end <= s@.len(),
    ensures
        r == word_end(s@, i as int, end as int), i <= r <= end,
        i < end && !is_ws(s@[i as int]) ==> r > i,
{
    let mut j = i;
    while j < end
        invariant
            i <= j <= end <= s@.len(),
            word_end(s@, j as int, end as int) == word_end(s@, i as int, end as int),
        decreases end - j,
    {
        let b = s[j];
        if b == 32 || (9 <= b && b <= 13) {
            return j;
        }
        j = j + 1;
    }
    j
}

/// The whitespace-separated words of `s[i..end]`.
fn line_words(s: &[u8], i: usize, end: usize) -> (r: Vec<(usize, usize)>)
    requires i <= end <= s@.len(),
    ensures
        r@.len() == words(s@, i as int, end as int).len(),
        forall|k: int| 0 <= k < r@.len() ==> (#[trigger] r@[k]).0 as int == words(s@, i as int, end as int)[k].0
            && r@[k].1 as int == words(s@, i as int, end as int)[k].1,
        forall|k: int| 0 <= k < r@.len() ==> i <= (#[trigger] r@[k]).0 <= r@[k].1 <= end,
{
    let mut out: Vec<(usize, usize)> = Vec::new();
    let mut j = i;
    let ghost mut acc: Seq<(int, int)> = Seq::empty();
    while j < end
        invariant
            i <= j <= end <= s@.len(),
            words(s@, i as int, end as int) == acc + words(s@, j as int, end as int),
            out@.len() == acc.len(),
            forall|k: int| 0 <= k < out@.len() ==> (#[trigger] out@[k]).0 as int == acc[k].0 && out@[k].1 as int == acc[k].1,
            forall|k: int| 0 <= k < out@.len() ==> i <= (#[trigger] out@[k]).0 <= out@[k].1 <= end,
        decreases end - j,
    {
        let b = s[j];
        if b == 32 || (9 <= b && b <= 13) {
            j = j + 1;
        } else {
            let e = word_end_at(s, j, end);
            proof {
                assert(words(s@, j as int, end as int) == seq![(j as int, e as int)] + words(s@, e as int, end as int));
                assert(acc + words(s@, j as int, end as int) =~= acc.push((j as int, e as int)) + words(s@, e as int, end as int));
                acc = acc.push((j as int, e as int));
            }
            out.push((j, e));
            j = e;
        }
    }
    assert(acc + words(s@, j as int, end as int) =~= acc);
    out
}

fn parse_u8_at(s: &[u8], a: usize, b: usize) -> (r: Option<u8>)
    requires a <= b <= s@.len(),
    ensures r == parse_u8_spec(s@, a as int, b as int),
{
    let a2 = if a < b && s[a] == 43 { a + 1 } else { a };
    if a2 >= b {
        return None;
    }
    let mut v: u32 = 0;
    let mut j = a2;
    while j < b
        invariant
            a2 <= j <= b <= s@.len(), a2 < b,
            a2 == (if a < b && s@[a as int] == 43 { a + 1 } else { a as int }),
            all_digits(s@, a2 as int, j as int),
            v == capped_value(s@, a2 as int, j as int),
            v <= 256,
        decreases b - j,
    {
        let c = s[j];
        if c < 48 || c > 57 {
            return None;
        }
        let nv = v * 10 + (c as u32 - 48);
        v = if nv > 256 { 256 } else { nv };
        j = j + 1;
    }
    if v <= 255 { Some(v as u8) } else { None }
}

fn bytes_equal_at(s: &[u8], a: usize, b: usize, word: &[u8]) -> (r: bool)
    requires a <= b <= s@.len(),
    ensures r == bytes_equal(s@, a as int, b as int, word@),
{
    if b - a != word.len() {
        return false;
    }
    let mut k: usize = 0;
    while k < word.len()
        invariant
            k <= word@.len(), b - a == word@.len(), a <= b <= s@.len(),
            forall|m: int| 0 <= m < k ==> s@[a + m] == word@[m],
        decreases word@.len() - k,
    {
        if s[a + k] != word[k] {
            return false;
        }
        k = k + 1;
    }
    true
}

/// Parse the line `s[i..e]` of a CUE sheet.
fn parse_line(s: &[u8], i: usize, e: usize) -> (r: Result<Option<CueEntry>, CueError>)
    requires i <= e <= s@.len(),
    ensures r == parse_line_spec(s@, i as int, e as int),
{
    let w = line_words(s, i, e);
    if w.len() == 0 {
        return Ok(None);
    }
    let kw_file_bytes: [u8; 4] = [70, 73, 76, 69];
    let kw_track_bytes: [u8; 5] = [84, 82, 65, 67, 75];
    let kw_index_bytes: [u8; 5] = [73, 78, 68, 69, 88];
    let kw_audio_bytes: [u8; 5] = [65, 85, 68, 73, 79];
    assert(kw_file_bytes@ =~= kw_file());
    assert(kw_track_bytes@ =~= kw_track());
    assert(kw_index_bytes@ =~= kw_index());
    assert(kw_audio_bytes@ =~= kw_audio());
    let (w0a, w0b) = w[0];
    if bytes_equal_at(s, w0a, w0b, &kw_file_bytes) {
        let q1 = first_byte_at(s, i, e, 34);
        let q2 = last_byte_at(s, i, e, 34);
        if q1 < e && q2 < e && q1 < q2 {
            Ok(Some(CueEntry::File { name_start: q1 + 1, name_end: q2 }))
        } else {
            Err(CueError::MalformedLine)
        }
    } else if bytes_equal_at(s, w0a, w0b, &kw_track_bytes) {
        if w.len() < 3 {
            return Err(CueError::MalformedLine);
        }
        let (w1a, w1b) = w[1];
        let (w2a, w2b) = w[2];
        match parse_u8_at(s, w1a, w1b) {
            None => Err(CueError::MalformedLine),
            Some(n) => Ok(Some(CueEntry::Track { number: n, audio: bytes_equal_at(s, w2a, w2b, &kw_audio_bytes) })),
        }
    } else if bytes_equal_at(s, w0a, w0b, &kw_index_bytes) {
        if w.len() < 2 {
            return Err(CueError::MalformedLine);
        }
        let (w1a, w1b) = w[1];
        match parse_u8_at(s, w1a, w1b) {
            None => Err(CueError::MalformedLine),
            Some(n) => {
                if n != 1 {
                    return Ok(None);
                }
                if w.len() < 3 {
                    return Err(CueError::MalformedLine);
                }
                let (w2a, w2b) = w[2];
                let c1 = first_byte_at(s, w2a, w2b, 58);
                if c1 >= w2b {
                    return Err(CueError::MalformedLine);
                }
                let c2 = first_byte_at(s, c1 + 1, w2b, 58);
                if c2 >= w2b {
                    return Err(CueError::MalformedLine);
                }
                let c3 = first_byte_at(s, c2 + 1, w2b, 58);
                let mm = parse_u8_at(s, w2a, c1);
                let ss = parse_u8_at(s, c1 + 1, c2);
                let ff = parse_u8_at(s, c2 + 1, c3);
                match (mm, ss, ff) {
                    (Some(mm), Some(ss), Some(ff)) => Ok(Some(CueEntry::Index { minutes: mm, seconds: ss, frames: ff })),
                    _ => Err(CueError::MalformedLine),
                }
            },
        }
    } else {
        Ok(None)
    }
}

/// Parse a CUE sheet into its FILE, TRACK and INDEX 01 entries, in order. Lines end at a
/// newline (a carriage return before it is dropped); other commands are ignored.
pub fn parse_cue(s: &[u8]) -> (r: Result<Vec<CueEntry>, CueError>)
    ensures
        match parse_cue_from(s@, 0) {
            Ok(entries) => r matches Ok(v) && v@ == entries,
            Err(err) => r == Err::<Vec<CueEntry>, CueError>(err),
        },
{
    let mut out: Vec<CueEntry> = Vec::new();
    let mut i: usize = 0;
    while i < s.len()
        invariant
            i <= s@.len(),
            match parse_cue_from(s@, 0) {
                Ok(entries) => parse_cue_from(s@, i as int) matches Ok(rest) && entries == out@ + rest,
                Err(err) => parse_cue_from(s@, i as int) == Err::<Seq<CueEntry>, CueError>(err),
            },
        decreases s@.len() - i,
    {
        let e = find_line_end(s, i);
        let ce = if e > i && s[e - 1] == 13 { e - 1 } else { e };
        let entry = parse_line(s, i, ce);
        match entry {
            Err(err) => {
                return Err(err);
            },
            Ok(entry) => {
                let ghost before = out@;
                match entry {
                    Some(en) => out.push(en),
                    None => {},
                }
                if e >= s.len() {
                    proof {
                        match parse_cue_from(s@, 0) {
                            Ok(entries) => {
                                assert(out@ =~= entries);
                            },
                            Err(_) => {},
                        }
                    }
                    return Ok(out);
                }
                proof {
                    match parse_cue_from(s@, 0) {
                        Ok(entries) => {
                            let rest = parse_cue_from(s@, e as int + 1);
                            assert(rest is Ok);
                            assert(entries =~= out@ + rest->Ok_0);
                        },
                        Err(_) => {},
                    }
                }
                i = e + 1;
            },
        }
    }
    proof {
        match parse_cue_from(s@, 0) {
            Ok(entries) => { assert(out@ =~= entries); },
            Err(_) => {},
        }
    }
    Ok(out)
}

/// State while laying out the tracks of a CUE sheet: FILE entries seen, the first sector
/// of the current file on the disc, the current TRACK's number and type, the tracks so far.
pub struct CueLayout {
    pub files_seen: int,
    pub file_base: int,
    pub track_number: u8,
    pub audio: bool,
    pub tracks: Seq<Track>,
}

pub open spec fn layout_step(st: CueLayout, e: CueEntry, sizes: Seq<u64>) -> Result<CueLayout, CueError> {
    match e {
        CueEntry::File { .. } => {
            if st.files_seen >= sizes.len() {
                Err(CueError::MissingFile)
            } else {
                let base = if st.files_seen > 0 { st.file_base + (sizes[st.files_seen - 1] / 2352) as u32 } else { st.file_base };
                if base > u32::MAX {
                    Err(CueError::AddressOverflow)
                } else {
                    Ok(CueLayout { files_seen: st.files_seen + 1, file_base: base, ..st })
                }
            }
        },
        CueEntry::Track { number, audio } => Ok(CueLayout { track_number: number, audio, ..st }),
        CueEntry::Index { minutes, seconds, frames } => {
            let local = msf_to_lba_spec(minutes, seconds, frames);
            if st.files_seen == 0 {
                Err(CueError::MissingFile)
            } else if st.file_base + local > u32::MAX {
                Err(CueError::AddressOverflow)
            } else {
                Ok(CueLayout { tracks: st.tracks.push(Track {
                    track_number: st.track_number,
                    start_logical_block: (st.file_base + local) as u32,
                    track_type: if st.audio { TrackType::Audio } else { TrackType::Data },
                    file_index: (st.files_seen - 1) as usize,
                    file_offset: (local * 2352) as u64,
                }), ..st })
            }
        },
    }
}

/// Lay out the first `n` entries: each FILE starts where the previous file's sectors end;
/// each INDEX 01 starts a track of the current TRACK in the current file.
pub open spec fn layout(entries: Seq<CueEntry>, sizes: Seq<u64>, n: int) -> Result<CueLayout, CueError>
    decreases n,
{
    if n <= 0 {
        Ok(CueLayout { files_seen: 0, file_base: 0, track_number: 0, audio: false, tracks: Seq::empty() })
    } else {
        match layout(entries, sizes, n - 1) {
            Err(err) => Err(err),
            Ok(st) => layout_step(st, entries[n - 1], sizes),
        }
    }
}

proof fn lemma_layout_bounds(entries: Seq<CueEntry>, sizes: Seq<u64>, n: int)
    requires 0 <= n,
    ensures layout(entries, sizes, n) matches Ok(st) ==> (0 <= st.files_seen <= sizes.len() && 0 <= st.file_base <= u32::MAX
        && forall|k: int| 0 <= k < st.tracks.len() ==> (#[trigger] st.tracks[k]).file_index < st.files_seen),
    decreases n,
{
    if n > 0 {
        lemma_layout_bounds(entries, sizes, n - 1);
    }
}

proof fn lemma_layout_err_sticks(entries: Seq<CueEntry>, sizes: Seq<u64>, m: int, n: int)
    requires 0 <= m <= n, layout(entries, sizes, m) is Err,
    ensures layout(entries, sizes, n) == layout(entries, sizes, m),
    decreases n - m,
{
    if n > m {
        lemma_layout_err_sticks(entries, sizes, m, n - 1);
    }
}

/// The track table of a CUE sheet's entries over image files of the given sizes.
fn build_tracks(entries: &Vec<CueEntry>, sizes: &Vec<u64>) -> (r: Result<Vec<Track>, CueError>)
    ensures
        match layout(entries@, sizes@, entries@.len() as int) {
            Ok(st) => r matches Ok(v) && v@ == st.tracks,
            Err(err) => r == Err::<Vec<Track>, CueError>(err),
        },
{
    let mut tracks: Vec<Track> = Vec::new();
    let mut files_seen: usize = 0;
    let mut file_base: u32 = 0;
    let mut track_number: u8 = 0;
    let mut audio = false;
    let mut i: usize = 0;
    while i < entries.len()
        invariant
            i <= entries@.len(),
            layout(entries@, sizes@, i as int) == Ok::<CueLayout, CueError>(CueLayout {
                files_seen: files_seen as int, file_base: file_base as int, track_number, audio, tracks: tracks@ }),
        decreases entries@.len() - i,
    {
        proof { lemma_layout_bounds(entries@, sizes@, i as int); }
        match entries[i] {
            CueEntry::File { .. } => {
                if files_seen >= sizes.len() {
                    proof { lemma_layout_err_sticks(entries@, sizes@, i as int + 1, entries@.len() as int); }
                    return Err(CueError::MissingFile);
                }
                if files_seen > 0 {
                    let sectors = #[verifier::truncate] ((sizes[files_seen - 1] / 2352) as u32);
                    match file_base.checked_add(sectors) {
                        None => {
                            proof { lemma_layout_err_sticks(entries@, sizes@, i as int + 1, entries@.len() as int); }
                            return Err(CueError::AddressOverflow);
                        },
                        Some(b) => { file_base = b; },
                    }
                }
                files_seen = files_seen + 1;
            },
            CueEntry::Track { number, audio: a } => {
                track_number = number;
                audio = a;
            },
            CueEntry::Index { minutes, seconds, frames } => {
                let local = msf_to_lba(minutes, seconds, frames);
                if files_seen == 0 {
                    proof { lemma_layout_err_sticks(entries@, sizes@, i as int + 1, entries@.len() as int); }
                    return Err(CueError::MissingFile);
                }
                match file_base.checked_add(local) {
                    None => {
                        proof { lemma_layout_err_sticks(entries@, sizes@, i as int + 1, entries@.len() as int); }
                        return Err(CueError::AddressOverflow);
                    },
                    Some(start) => {
                        tracks.push(Track {
                            track_number,
                            start_logical_block: start,
                            track_type: if audio { TrackType::Audio } else { TrackType::Data },
                            file_index: files_seen - 1,
                            file_offset: local as u64 * 2352,
                        });
                    },
                }
            },
        }
        i = i + 1;
    }
    assert(entries@.len() == i);
    Ok(tracks)
}

impl CdRom {
    /// Insert a disc from its CUE sheet and its image files (one per FILE line, in order):
    /// the track table is laid out from the sheet and the files' sizes. The sizes are what
    /// the files report; the sheet decides success wherever the layout does not depend on
    /// them.
    pub fn insert_disc(&mut self, cue: &[u8], files: Vec<Box<dyn DiscSource>>) -> (r: Result<(), CueError>)
        requires old(self).wf(),
        ensures
            final(self).wf(),
            r is Err ==> final(self).disc == old(self).disc,
            parse_cue_from(cue@, 0) matches Err(err) ==> r == Err::<(), CueError>(err),
            parse_cue_from(cue@, 0) matches Ok(entries) ==> {
                &&& (r matches Err(err) ==> exists|sizes: Seq<u64>| sizes.len() == files@.len()
                    && #[trigger] layout(entries, sizes, entries.len() as int) == Err::<CueLayout, CueError>(err))
                &&& (forall|sizes: Seq<u64>| sizes.len() == files@.len() ==> #[trigger] layout(entries, sizes, entries.len() as int) is Ok)
                    ==> r is Ok
            },
            r is Ok ==> match (final(self).disc, parse_cue_from(cue@, 0)) {
                (Some(d), Ok(entries)) => d.file_sizes@.len() == files@.len() && match layout(entries, d.file_sizes@, entries.len() as int) {
                    Ok(st) => d.tracks@ == st.tracks,
                    Err(_) => false,
                },
                _ => false,
            },
            final(self).same_drive(&old(self)),
    {
        let entries = match parse_cue(cue) {
            Err(e) => { return Err(e); },
            Ok(v) => v,
        };
        let mut sizes: Vec<u64> = Vec::new();
        let mut i: usize = 0;
        while i < files.len()
            invariant i <= files@.len(), sizes@.len() == i,
            decreases files@.len() - i,
        {
            sizes.push(files[i].len());
            i = i + 1;
        }
        match build_tracks(&entries, &sizes) {
            Err(e) => Err(e),
            Ok(tracks) => {
                proof { lemma_layout_bounds(entries@, sizes@, entries@.len() as int); }
                self.disc = Some(Disc { files, file_sizes: sizes, tracks });
                Ok(())
            },
        }
    }
}

} // verus!
