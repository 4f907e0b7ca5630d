use parastation_core::cd_rom::{
    bcd_to_decimal, decimal_to_bcd, lba_to_msf_bcd, msf_to_lba, parse_cue, CdRom, CueEntry, CueError,
    DiscSource, MemoryDiscFile, TrackType, GETSTAT,
};
use parastation_core::interrupt_controller::InterruptController;
use parastation_core::scheduler::{Scheduler, SchedulerEvent};

const CUE: &[u8] = b"FILE \"game.bin\" BINARY\n  TRACK 01 MODE2/2352\n    INDEX 01 00:00:00\n  TRACK 02 AUDIO\n    INDEX 00 03:00:00\n    INDEX 01 03:02:00\n";

fn image(sectors: usize) -> Vec<Box<dyn DiscSource>> {
    vec![Box::new(MemoryDiscFile { data: vec![0u8; sectors * 2352] })]
}

#[test]
fn bcd_conversions() {
    assert_eq!(decimal_to_bcd(59), 0x59);
    assert_eq!(decimal_to_bcd(0), 0x00);
    assert_eq!(bcd_to_decimal(0x42), 42);
    assert_eq!(bcd_to_decimal(decimal_to_bcd(73)), 73);
}

#[test]
fn msf_and_sector_addresses() {
    assert_eq!(msf_to_lba(1, 2, 3), 4653);
    assert_eq!(lba_to_msf_bcd(0), (0x00, 0x02, 0x00));
    assert_eq!(lba_to_msf_bcd(4500), (0x01, 0x02, 0x00));
    assert_eq!(lba_to_msf_bcd(74), (0x00, 0x02, 0x74));
}

#[test]
fn cue_sheet_entries() {
    let entries = parse_cue(CUE).unwrap();
    assert_eq!(
        entries,
        vec![
            CueEntry::File { name_start: 6, name_end: 14 },
            CueEntry::Track { number: 1, audio: false },
            CueEntry::Index { minutes: 0, seconds: 0, frames: 0 },
            CueEntry::Track { number: 2, audio: true },
            CueEntry::Index { minutes: 3, seconds: 2, frames: 0 },
        ]
    );
    assert_eq!(&CUE[6..14], b"game.bin");
}

#[test]
fn malformed_cue_lines() {
    assert_eq!(parse_cue(b"TRACK\n"), Err(CueError::MalformedLine));
    assert_eq!(parse_cue(b"INDEX 01 00:xx:00\n"), Err(CueError::MalformedLine));
    assert_eq!(parse_cue(b"FILE game.bin BINARY\n"), Err(CueError::MalformedLine));
    assert_eq!(parse_cue(b"REM comment\n\n"), Ok(vec![]));
}

#[test]
fn inserting_a_disc_lays_out_tracks() {
    let mut cd = CdRom::new();
    assert_eq!(cd.insert_disc(CUE, image(20000)), Ok(()));
    let disc = cd.disc.as_ref().unwrap();
    assert_eq!(disc.tracks.len(), 2);
    assert_eq!(disc.tracks[0].start_logical_block, 0);
    assert_eq!(disc.tracks[0].track_type, TrackType::Data);
    assert_eq!(disc.tracks[1].track_number, 2);
    assert_eq!(disc.tracks[1].start_logical_block, 13650);
    assert_eq!(disc.tracks[1].track_type, TrackType::Audio);
    assert_eq!(disc.tracks[1].file_offset, 13650 * 2352);
}

#[test]
fn index_before_file_is_refused() {
    let mut cd = CdRom::new();
    assert_eq!(cd.insert_disc(b"TRACK 01 AUDIO\nINDEX 01 00:00:00\n", image(1)), Err(CueError::MissingFile));
    assert!(cd.disc.is_none());
    assert_eq!(cd.insert_disc(CUE, vec![]), Err(CueError::MissingFile));
}

#[test]
fn memory_disc_file_reads() {
    let mut f = MemoryDiscFile { data: vec![1, 2, 3, 4, 5] };
    let mut buf = [0u8; 4];
    assert_eq!(f.read_at(3, &mut buf), 2);
    assert_eq!(buf, [4, 5, 0, 0]);
    assert_eq!(f.read_at(9, &mut buf), 0);
    assert_eq!(f.len(), 5);
}

#[test]
fn getstat_schedules_its_response() {
    let mut cd = CdRom::new();
    let mut sched = Scheduler::new();
    cd.write_register(0, 0, &mut sched);
    cd.write_register(1, 0x01, &mut sched);
    assert_eq!(sched.events.len(), 1);
    assert_eq!(sched.events[0].deadline, GETSTAT);
    assert_eq!(sched.events[0].kind, SchedulerEvent::CdRomResponse { bytes: vec![0x12], int_code: 3 });
}

#[test]
fn test_command_reports_the_bios_date() {
    let mut cd = CdRom::new();
    let mut sched = Scheduler::new();
    cd.write_register(0, 0, &mut sched);
    cd.write_register(2, 0x20, &mut sched);
    cd.write_register(1, 0x19, &mut sched);
    assert_eq!(sched.events[0].kind, SchedulerEvent::CdRomResponse { bytes: vec![0x95, 0x05, 0x16, 0xC1], int_code: 3 });
}

#[test]
fn gettn_reports_the_track_range() {
    let mut cd = CdRom::new();
    cd.insert_disc(CUE, image(20000)).unwrap();
    let mut sched = Scheduler::new();
    cd.write_register(0, 0, &mut sched);
    cd.write_register(1, 0x13, &mut sched);
    assert_eq!(sched.events[0].kind, SchedulerEvent::CdRomResponse { bytes: vec![0x02, 0x01, 0x02], int_code: 3 });
}

#[test]
fn response_fifo_and_interrupt_flags() {
    let mut cd = CdRom::new();
    let mut sched = Scheduler::new();
    let mut ic = InterruptController::new();
    cd.handle_response_event(vec![0x12, 0x34], 3, &mut sched, &mut ic);
    assert_eq!(cd.read_register(1), 0x12);
    assert_eq!(cd.read_register(1), 0x34);
    cd.write_register(0, 1, &mut sched);
    assert_eq!(cd.read_register(3), 0x03 | 0xE0);
    cd.write_register(3, 0x07, &mut sched);
    assert_eq!(cd.read_register(3), 0xE0);
}

#[test]
fn a_pending_interrupt_delays_the_next_response() {
    let mut cd = CdRom::new();
    let mut sched = Scheduler::new();
    let mut ic = InterruptController::new();
    cd.handle_response_event(vec![0x12], 3, &mut sched, &mut ic);
    cd.handle_response_event(vec![0x22], 2, &mut sched, &mut ic);
    assert_eq!(sched.events.len(), 1);
    assert_eq!(sched.events[0].kind, SchedulerEvent::CdRomResponse { bytes: vec![0x22], int_code: 2 });
    assert_eq!(sched.events[0].deadline, 1000);
}

#[test]
fn cd_audio_volume_registers() {
    let mut cd = CdRom::new();
    let mut sched = Scheduler::new();
    cd.write_register(0, 3, &mut sched);
    cd.write_register(2, 0x11, &mut sched);
    assert_eq!(cd.cd_vol_rl, 0x11);
    assert_eq!((cd.cd_vol_ll, cd.cd_vol_lr, cd.cd_vol_rr), (0x7F, 0x7F, 0x7F));
    cd.write_register(1, 0x22, &mut sched);
    assert_eq!(cd.cd_vol_rr, 0x22);
    cd.write_register(0, 2, &mut sched);
    cd.write_register(2, 0x33, &mut sched);
    assert_eq!(cd.cd_vol_ll, 0x33);
    cd.write_register(3, 0x44, &mut sched);
    assert_eq!(cd.cd_vol_lr, 0x44);
    assert_eq!((cd.applied_vol_ll, cd.applied_vol_lr, cd.applied_vol_rr, cd.applied_vol_rl), (0x7F, 0x7F, 0x7F, 0x7F));
    cd.write_register(0, 3, &mut sched);
    cd.write_register(3, 0x20, &mut sched);
    assert_eq!((cd.applied_vol_ll, cd.applied_vol_lr, cd.applied_vol_rr, cd.applied_vol_rl), (0x33, 0x44, 0x22, 0x11));
}

#[test]
fn getlocp_reports_track_relative_time_without_lead_in() {
    let mut cd = CdRom::new();
    cd.insert_disc(CUE, image(20000)).unwrap();
    let mut sched = Scheduler::new();
    cd.write_register(0, 0, &mut sched);
    cd.write_register(1, 0x11, &mut sched);
    assert_eq!(
        sched.events[0].kind,
        SchedulerEvent::CdRomResponse { bytes: vec![0x01, 0x01, 0x00, 0x00, 0x00, 0x00, 0x02, 0x00], int_code: 3 }
    );
}

#[test]
fn index_write_keeps_flags_and_fifos() {
    let mut cd = CdRom::new();
    let mut sched = Scheduler::new();
    cd.write_register(0, 1, &mut sched);
    assert_eq!(cd.read_register(3), 0xE0);
    assert_eq!(cd.read_register(0) & 0x03, 1);
    assert_eq!(cd.read_register(1), 0);
    assert_eq!(cd.read_register(2), 0);
}
