use std::cell::RefCell;
use std::rc::Rc;

use parastation_core::dma::DmaController;
use parastation_core::gpu::backend::GpuBackend;
use parastation_core::gpu::gpu_commands::{decode_gp0_command, Gp0Command};
use parastation_core::gpu::gpu_state::{DisplayOutput, Mask};
use parastation_core::gpu::rendering_parameters::{Colour, DrawParams, FlatVertex, Line, Polygon, PolygonVertices, Rect, ShadedVertex, Vertex};
use parastation_core::gpu::primitives::{monochrome_polygon, shaded_polygon, shaded_textured_polygon, textured_polygon};
use parastation_core::gpu::Gpu;
use parastation_core::interrupt_controller::{Interrupt, InterruptController};
use parastation_core::mdec::Mdec;
use parastation_core::scheduler::{Scheduler, SchedulerEvent};
use parastation_core::spu::adpcm::AdpcmDecoder;
use parastation_core::spu::mixer::{clamp_sample, mul_shift15};
use parastation_core::spu::{PcmSample, Spu, SpuBackend};
use parastation_core::timers::Timers;
use parastation_core::wav_backend::WavDumpBackend;
use parastation_core::xadpcm::XaSubHeader;
use parastation_core::spu::voice::Voice;

#[derive(Clone, Default)]
struct Log(Rc<RefCell<Vec<String>>>);

impl GpuBackend for Log {
    fn draw_polygon(&mut self, p: &Polygon, _d: &DrawParams) {
        self.0.borrow_mut().push(format!("{:?}", p));
    }
    fn draw_line(&mut self, _l: &Line, _d: &DrawParams) {}
    fn draw_rect(&mut self, _r: &Rect, _d: &DrawParams) {}
    fn fill_rect(&mut self, p: Vertex, w: u16, h: u16, c: Colour) {
        self.0.borrow_mut().push(format!("fill {} {} {} {} {} {} {}", p.x, p.y, w, h, c.r, c.g, c.b));
    }
    fn copy_rect(&mut self, _a: u16, _b: u16, _c: u16, _d: u16, _w: u16, _h: u16, _m: &Mask) {}
    fn vram_read_begin(&mut self, _x: u16, _y: u16, _w: u16, _h: u16) {}
    fn vram_read(&mut self) -> Option<u32> {
        None
    }
    fn vram_write_begin(&mut self, _x: u16, _y: u16, _w: u16, _h: u16, _m: &Mask) {}
    fn vram_write(&mut self, _word: u32) {}
    fn present(&mut self, _o: &DisplayOutput) {}
    fn clear_cache(&mut self) {}
}

struct NullSpu;
impl SpuBackend for NullSpu {
    fn push_sample(&mut self, _l: PcmSample, _r: PcmSample) {}
    fn buffer_available(&self) -> usize {
        0
    }
}

#[test]
fn gp0_command_classes() {
    assert_eq!(decode_gp0_command(0x0000_0000), Gp0Command::Nop);
    assert_eq!(decode_gp0_command(0x0100_0000), Gp0Command::ClearCache);
    assert_eq!(decode_gp0_command(0x02FF_0000), Gp0Command::FillRect);
    assert_eq!(decode_gp0_command(0x2800_0000), Gp0Command::MonochromeQuad);
    assert_eq!(decode_gp0_command(0x3C00_0000), Gp0Command::ShadedTexturedQuad);
    assert_eq!(decode_gp0_command(0x4800_0000), Gp0Command::MonochromePolyline);
    assert_eq!(decode_gp0_command(0x6000_0000), Gp0Command::VariableMonochromeRectangle);
    assert_eq!(decode_gp0_command(0x7C00_0000), Gp0Command::TexturedRectangle);
    assert_eq!(decode_gp0_command(0x8000_0000), Gp0Command::CopyRect);
    assert_eq!(decode_gp0_command(0xA000_0000), Gp0Command::SendRectToVram);
    assert_eq!(decode_gp0_command(0xC000_0000), Gp0Command::CopyRectToCpu);
    assert_eq!(decode_gp0_command(0xE100_0000), Gp0Command::SetRenderingAttribute);
    assert_eq!(decode_gp0_command(0xE700_0000), Gp0Command::Unknown(0xE7));
}

#[test]
fn fill_rect_reaches_the_backend() {
    let log = Log::default();
    let mut gpu = Gpu::new(Box::new(log.clone()));
    gpu.write_register(0, 0x0230_2010);
    assert!(log.0.borrow().is_empty());
    gpu.write_register(0, 0x0020_0010);
    gpu.write_register(0, 0x0030_0040);
    assert_eq!(log.0.borrow().as_slice(), &["fill 16 32 64 48 16 32 48".to_string()]);
}

#[test]
fn monochrome_triangle_waits_for_its_vertices() {
    let log = Log::default();
    let mut gpu = Gpu::new(Box::new(log.clone()));
    gpu.write_register(0, 0x2000_00FF);
    gpu.write_register(0, 0x0000_0000);
    gpu.write_register(0, 0x0000_0010);
    assert!(log.0.borrow().is_empty());
    gpu.write_register(0, 0x0010_0000);
    assert_eq!(log.0.borrow().len(), 1);
}

#[test]
fn gpustat_bit31_alternates() {
    let mut gpu = Gpu::new(Box::new(Log::default()));
    let a = gpu.read_register(4);
    let b = gpu.read_register(4);
    assert_eq!((a ^ b) & 0x8000_0000, 0x8000_0000);
    assert_eq!(a & 0x7FFF_FFFF, b & 0x7FFF_FFFF);
}

#[test]
fn mdec_status_after_reset() {
    let mut mdec = Mdec::new();
    assert_eq!(mdec.read_register(4), 0x8004_0000);
    assert!(!mdec.has_output_ready());
    assert!(!mdec.wants_more_input());
    assert_eq!(mdec.read_register(0), 0);
}

#[test]
fn dma_channel_control_keeps_its_bits() {
    let mut dma = DmaController::new();
    dma.write_register(0x18, 0xFFFF_FFFF);
    assert_eq!(dma.read_register(0x18), 0x7177_0703);
    dma.write_register(0x28, 0x2000_0000);
    assert_eq!(dma.read_register(0x28), 0x2000_0000);
    dma.write_register(0x70, 0x8765_4321);
    assert_eq!(dma.read_register(0x70), 0x0765_4321);
    dma.write_register(0x14, 0x0010_0020);
    assert_eq!(dma.read_register(0x14), 0x0010_0020);
    assert_eq!(dma.read_register(0x7C), 0);
    assert!(DmaController::is_chcr(0x68));
    assert!(!DmaController::is_chcr(0x78));
}

#[test]
fn scheduler_orders_events_by_deadline() {
    let mut s = Scheduler::new();
    s.schedule(SchedulerEvent::VBlank, 10);
    s.schedule(SchedulerEvent::Spu, 5);
    s.schedule(SchedulerEvent::CdRomSectorRead, 10);
    assert_eq!(s.time_to_next_event(), 5);
    let fired = s.advance(7);
    assert_eq!(fired, vec![SchedulerEvent::Spu]);
    assert_eq!(s.time_to_next_event(), 3);
    let fired = s.advance(3);
    assert_eq!(fired, vec![SchedulerEvent::VBlank, SchedulerEvent::CdRomSectorRead]);
    assert_eq!(s.time_to_next_event(), u64::MAX);
}

#[test]
fn scheduler_cancels_matching_events() {
    let mut s = Scheduler::new();
    s.schedule(SchedulerEvent::VBlank, 10);
    s.schedule(SchedulerEvent::CdRomSectorRead, 20);
    s.cancel(|e: &SchedulerEvent| matches!(e, SchedulerEvent::CdRomSectorRead));
    assert_eq!(s.events.len(), 1);
    assert_eq!(s.events[0].kind, SchedulerEvent::VBlank);
}

#[test]
fn interrupts_raise_acknowledge_and_mask() {
    let mut ic = InterruptController::new();
    ic.raise_interrupt(Interrupt::CDROM);
    assert_eq!(ic.read_stat(), 0x4);
    assert!(!ic.pending());
    ic.write_mask(0x4);
    assert!(ic.pending());
    ic.write_stat(!0x4u16);
    assert_eq!(ic.read_stat(), 0);
    assert!(!ic.pending());
    assert_eq!(Interrupt::SPU.bit(), 9);
}

#[test]
fn timer_registers() {
    let mut t = Timers::new();
    t.write_register(1, 8, 0x1234);
    assert_eq!(t.read_register(1, 8), 0x1234);
    t.write_register(2, 0, 77);
    assert_eq!(t.read_register(2, 0), 77);
    t.write_register(2, 4, 0x0200);
    assert_eq!(t.read_register(2, 4), 0x0200);
    assert_eq!(t.read_register(2, 0), 0);
    assert_eq!(t.read_register(0, 12), 0);
}

#[test]
fn timer_counts_cycles() {
    let mut t = Timers::new();
    let mut ic = InterruptController::new();
    t.tick(100, &mut ic);
    assert_eq!(t.read_register(0, 0), 100);
    t.write_register(2, 4, 0x0200);
    t.tick(20, &mut ic);
    assert_eq!(t.read_register(2, 0), 2);
}

#[test]
fn timer_target_interrupts_and_wrap() {
    let mut t = Timers::new();
    let mut ic = InterruptController::new();
    t.write_register(0, 8, 100);
    t.write_register(0, 4, 0x0010);
    t.tick(50, &mut ic);
    assert_eq!(t.read_register(0, 0), 50);
    assert_eq!(ic.read_stat() & 0x10, 0);
    t.tick(60, &mut ic);
    assert_eq!(t.read_register(0, 0), 110);
    assert_eq!(ic.read_stat() & 0x10, 0x10);
    // Counting on past FFFFh wraps, and with IRQ on FFFFh raises TMR1.
    t.write_register(1, 4, 0x0020);
    t.write_register(1, 0, 0xFFF0);
    t.tick(0x20, &mut ic);
    assert_eq!(t.read_register(1, 0), 0x0010);
    assert_eq!(ic.read_stat() & 0x20, 0x20);
    // Reset on target: reaching the target takes its ticks, the count restarts at 0 and goes on.
    t.write_register(2, 8, 100);
    t.write_register(2, 4, 0x0018);
    t.tick(150, &mut ic);
    assert_eq!(t.read_register(2, 0), 50);
    assert_eq!(ic.read_stat() & 0x40, 0x40);
}

#[test]
fn timer_reset_on_target_after_exactly_target_ticks() {
    let mut t = Timers::new();
    let mut ic = InterruptController::new();
    t.write_register(0, 4, 0x0018);
    t.write_register(0, 8, 10);
    t.tick(10, &mut ic);
    assert_eq!(t.read_register(0, 0), 0);
    assert_ne!(ic.read_stat() & (1 << 4), 0);
}

#[test]
fn spu_data_port_roundtrip() {
    let mut spu = Spu::new(Box::new(NullSpu));
    let mut ic = InterruptController::new();
    spu.write_register(0x1A6, 0x0100, &mut ic);
    assert_eq!(spu.read_register(0x1A6, &mut ic), 0x0100);
    spu.write_register(0x1A8, 0xBEEF, &mut ic);
    spu.write_register(0x1A8, 0x1234, &mut ic);
    spu.write_register(0x1A6, 0x0100, &mut ic);
    assert_eq!(spu.read_data_port(&mut ic), 0xBEEF);
    assert_eq!(spu.read_data_port(&mut ic), 0x1234);
    assert_eq!(spu.sound_ram[0x800], 0xEF);
}

#[test]
fn spu_volume_registers() {
    let mut spu = Spu::new(Box::new(NullSpu));
    let mut ic = InterruptController::new();
    spu.write_register(0x180, 0x3FFF, &mut ic);
    spu.write_register(0x182, 0xC000, &mut ic);
    assert_eq!(spu.read_register(0x180, &mut ic), 0x3FFF);
    assert_eq!(spu.read_register(0x182, &mut ic), 0xC000);
    assert_eq!(spu.read_register(0x1B0, &mut ic), 0x7FFF);
}

#[test]
fn mixer_arithmetic() {
    assert_eq!(clamp_sample(40000), 32767);
    assert_eq!(clamp_sample(-40000), -32768);
    assert_eq!(clamp_sample(5), 5);
    assert_eq!(mul_shift15(0x4000, 0x4000), 0x2000);
    assert_eq!(mul_shift15(-0x8000, 0x7FFF), -0x7FFF);
}

#[test]
fn adpcm_block_decodes_nibbles() {
    let mut dec = AdpcmDecoder::new();
    let mut block = [0u8; 16];
    block[2] = 0x21;
    block[3] = 0x0F;
    let out = dec.decode(block);
    assert_eq!(out[0], PcmSample(4096));
    assert_eq!(out[1], PcmSample(8192));
    assert_eq!(out[2], PcmSample(-4096));
    assert_eq!(out[3], PcmSample(0));
}

#[test]
fn adpcm_filter_uses_history() {
    let mut dec = AdpcmDecoder::new();
    let mut block = [0u8; 16];
    block[0] = 0x1C;
    block[2] = 0x07;
    let out = dec.decode(block);
    assert_eq!(out[0], PcmSample(7));
    assert_eq!(out[1], PcmSample(7));
}

#[test]
fn xa_subheader_fields() {
    let mut sector = [0u8; 2352];
    sector[16] = 1;
    sector[17] = 2;
    sector[18] = 0x64;
    sector[19] = 0x05;
    let h = XaSubHeader::parse(&sector);
    assert_eq!((h.file_number, h.channel_number), (1, 2));
    assert!(h.is_audio());
    assert!(h.is_realtime());
    assert!(!h.is_end_of_record());
    assert!(h.is_stereo());
    assert!(h.is_half_rate());
}

#[test]
fn wav_file_layout() {
    let mut w = WavDumpBackend::new("out.wav");
    w.push_sample(PcmSample(1), PcmSample(-2));
    assert_eq!(w.output_path, "out.wav");
    assert_eq!(w.buffer_available(), usize::MAX);
    let bytes = w.wav_bytes();
    assert_eq!(bytes.len(), 48);
    assert_eq!(&bytes[0..4], b"RIFF");
    assert_eq!(&bytes[4..8], &40u32.to_le_bytes());
    assert_eq!(&bytes[8..16], b"WAVEfmt ");
    assert_eq!(&bytes[16..20], &16u32.to_le_bytes());
    assert_eq!(&bytes[20..24], &[1, 0, 2, 0]);
    assert_eq!(&bytes[24..28], &44100u32.to_le_bytes());
    assert_eq!(&bytes[28..32], &176400u32.to_le_bytes());
    assert_eq!(&bytes[32..36], &[4, 0, 16, 0]);
    assert_eq!(&bytes[36..40], b"data");
    assert_eq!(&bytes[40..44], &4u32.to_le_bytes());
    assert_eq!(&bytes[44..48], &[1, 0, 0xFE, 0xFF]);
}

#[test]
fn voice_plays_decoded_samples_at_unit_pitch() {
    let mut ram = vec![0u8; 0x80000];
    // Shift 0 (nibble << 12), filter 0; first data byte holds samples 1 and 2.
    ram[2] = 0x21;
    ram[3] = 0x3F;
    let mut v = Voice::new();
    v.write_sample_rate(0x1000);
    v.key_on(&ram);
    assert_eq!(v.tick(&ram, false, 0, false, 0), (PcmSample(0x2000), None));
    assert_eq!(v.tick(&ram, false, 0, false, 0), (PcmSample(-0x1000), None));
    assert_eq!(v.tick(&ram, false, 0, false, 0), (PcmSample(0x3000), None));
    assert_eq!(v.tick(&ram, false, 0, true, 77), (PcmSample(77), None));
}

#[test]
fn dma_arbitration_follows_dpcr_priorities() {
    let mut dma = DmaController::new();
    dma.write_register(0x30, 0x0001_0000);
    dma.write_register(0x34, 0x0000_0010);
    dma.write_register(0x38, 0x1100_0000);
    dma.write_register(0x60, 0x0000_2000);
    dma.write_register(0x64, 0x0000_0004);
    dma.write_register(0x68, 0x1100_0002);
    // DMA3 priority 3, DMA6 priority 1: DMA6 wins.
    dma.write_register(0x70, 0x0900_B000);
    assert_eq!(dma.get_pending_transfer().map(|p| p.0), Some(6));
    // DMA3 priority 0: DMA3 wins.
    dma.write_register(0x70, 0x0900_8000);
    assert_eq!(dma.get_pending_transfer().map(|p| p.0), Some(3));
    // Equal priorities: the lower channel number.
    dma.write_register(0x70, 0x0A00_A000);
    assert_eq!(dma.get_pending_transfer().map(|p| p.0), Some(3));
    // Nothing enabled: nothing pending.
    dma.write_register(0x70, 0x0000_0000);
    assert_eq!(dma.get_pending_transfer(), None);
}

#[test]
fn vertex_coordinates_are_signed() {
    assert_eq!(Vertex::from_word(0x07FF_07FF), Vertex { x: -1, y: -1 });
    assert_eq!(Vertex::from_word(0x0400_03FF), Vertex { x: 1023, y: -1024 });
    assert_eq!(Vertex::from_word(0x0010_0020), Vertex { x: 32, y: 16 });
}

#[test]
fn monochrome_triangle_reaches_the_backend() {
    let log = Log::default();
    let mut gpu = Gpu::new(Box::new(log.clone()));
    gpu.write_register(0, 0x2000_00FF);
    gpu.write_register(0, 0x0000_0000);
    gpu.write_register(0, 0x0000_0010);
    assert!(log.0.borrow().is_empty());
    gpu.write_register(0, 0x0010_0000);
    let expected = Polygon::Monochrome {
        colour: Colour { r: 0xFF, g: 0, b: 0 },
        vertices: PolygonVertices::Tri(
            FlatVertex { vertex: Vertex { x: 0, y: 0 } },
            FlatVertex { vertex: Vertex { x: 16, y: 0 } },
            FlatVertex { vertex: Vertex { x: 0, y: 16 } },
        ),
        semi_transparent: false,
    };
    assert_eq!(*log.0.borrow(), vec![format!("{:?}", expected)]);
}

#[test]
fn polygon_builders_read_their_words() {
    let shaded = shaded_polygon(&vec![0x3200_0010, 0x0001_0002, 0x0000_2000, 0x0003_0004, 0x0030_0000, 0x07FF_0005], false);
    let expected = Polygon::Shaded {
        vertices: PolygonVertices::Tri(
            ShadedVertex { vertex: Vertex { x: 2, y: 1 }, colour: Colour { r: 0x10, g: 0, b: 0 } },
            ShadedVertex { vertex: Vertex { x: 4, y: 3 }, colour: Colour { r: 0, g: 0x20, b: 0 } },
            ShadedVertex { vertex: Vertex { x: 5, y: -1 }, colour: Colour { r: 0, g: 0, b: 0x30 } },
        ),
        semi_transparent: true,
    };
    assert_eq!(format!("{:?}", shaded), format!("{:?}", expected));
    let mono = monochrome_polygon(&vec![0x2800_0000, 1, 2, 3, 4], true);
    match mono {
        Polygon::Monochrome { vertices: PolygonVertices::Quad(_, _, _, d), .. } => assert_eq!(d.vertex, Vertex { x: 4, y: 0 }),
        _ => panic!("expected a monochrome quad"),
    }
    let tex = textured_polygon(&vec![0x2500_0000, 0, 0x1234_0201, 0, 0x0015_0403, 0, 0x0000_0605], false);
    match tex {
        Polygon::Textured { texture_params, vertices: PolygonVertices::Tri(a, b, c), semi_transparent, .. } => {
            assert!(texture_params.raw_texture);
            assert!(!semi_transparent);
            assert_eq!(texture_params.tex_page.x, 5);
            assert_eq!((a.texcoord.u, a.texcoord.v, b.texcoord.u, c.texcoord.v), (1, 2, 3, 6));
        },
        _ => panic!("expected a textured triangle"),
    }
    let st = shaded_textured_polygon(&vec![0x3400_0000, 0, 0x0001_0000, 0, 0, 0x0003_0000, 0, 0, 0], false);
    match st {
        Polygon::ShadedTextured { texture_params, .. } => assert_eq!(texture_params.tex_page.x, 3),
        _ => panic!("expected a shaded textured triangle"),
    }
}

#[test]
fn spu_mixes_cd_audio_at_its_volume() {
    let mut spu = Spu::new(Box::new(NullSpu));
    let mut ic = InterruptController::new();
    spu.write_register(0x1B0, 0x4000, &mut ic);
    let (l, r) = spu.tick((PcmSample(0x2000), PcmSample(0x1000)), &mut ic);
    assert_eq!(l, PcmSample(0x1000));
    assert_eq!(r, PcmSample(0x0FFF));
    let (l, r) = spu.tick((PcmSample(-0x8000), PcmSample(0x7FFF)), &mut ic);
    assert_eq!(l, PcmSample(-0x4000));
    assert_eq!(r, PcmSample(0x7FFE));
}
