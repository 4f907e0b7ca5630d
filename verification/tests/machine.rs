use parastation_core::backend::Backend;
use parastation_core::bios::Bios;
use parastation_core::cpu::cop0::Cop0Register;
use parastation_core::cpu::ir::IrOp;
use parastation_core::cpu::{Cpu, MipsRegister};
use parastation_core::gpu::backend::GpuBackend;
use parastation_core::gpu::gpu_state::{DisplayOutput, Mask};
use parastation_core::gpu::rendering_parameters::{Colour, DrawParams, Line, Polygon, Rect, Vertex};
use parastation_core::interpreter::{ExecError, Interpreter};
use parastation_core::sio0::joypad::InputProvider;
use parastation_core::spu::{PcmSample, SpuBackend};
use parastation_core::system_bus::{can_read, can_write, mask_region, AccessWidth, SystemBus};
use parastation_core::{check_exe, ExeError, Ps1};

struct NullGpu;
impl GpuBackend for NullGpu {
    fn draw_polygon(&mut self, _p: &Polygon, _d: &DrawParams) {}
    fn draw_line(&mut self, _l: &Line, _d: &DrawParams) {}
    fn draw_rect(&mut self, _r: &Rect, _d: &DrawParams) {}
    fn fill_rect(&mut self, _p: Vertex, _w: u16, _h: u16, _c: Colour) {}
    fn copy_rect(&mut self, _a: u16, _b: u16, _c: u16, _d: u16, _w: u16, _h: u16, _m: &Mask) {}
    fn vram_read_begin(&mut self, _x: u16, _y: u16, _w: u16, _h: u16) {}
    fn vram_read(&mut self) -> Option<u32> {
        None
    }
    fn vram_write_begin(&mut self, _x: u16, _y: u16, _w: u16, _h: u16, _m: &Mask) {}
    fn vram_write(&mut self, _word: u32) {}
    fn present(&mut self, _o: &DisplayOutput) {}
    fn clear_cache(&mut self) {}
}

struct NullSpu;
impl SpuBackend for NullSpu {
    fn push_sample(&mut self, _l: PcmSample, _r: PcmSample) {}
    fn buffer_available(&self) -> usize {
        0
    }
}

struct Released;
impl InputProvider for Released {
    fn get_joypad_state(&self) -> u16 {
        0xFFFF
    }
}

fn bios_with(words: &[u32]) -> Bios {
    let mut data = vec![0u8; 0x80000];
    for (i, w) in words.iter().enumerate() {
        data[i * 4..i * 4 + 4].copy_from_slice(&w.to_le_bytes());
    }
    Bios::new(data.into_boxed_slice())
}

fn bus() -> SystemBus {
    SystemBus::new(bios_with(&[]), Box::new(NullGpu), Box::new(NullSpu), Box::new(Released), Box::new(Released))
}

fn r(n: u8) -> MipsRegister {
    MipsRegister(n)
}

#[test]
fn segments_map_to_physical_addresses() {
    assert_eq!(mask_region(0x8000_1234), 0x0000_1234);
    assert_eq!(mask_region(0xA000_1234), 0x0000_1234);
    assert_eq!(mask_region(0xBFC0_0000), 0x1FC0_0000);
    assert_eq!(mask_region(0x1F80_1070), 0x1F80_1070);
    assert_eq!(mask_region(0xFFFE_0130), 0xFFFE_0130);
}

#[test]
fn ram_write_reads_back_through_every_segment() {
    let mut b = bus();
    b.write32(0x8000_0100, 0x1122_3344);
    assert_eq!(b.read32(0xA000_0100), 0x1122_3344);
    assert_eq!(b.read32(0x0000_0100), 0x1122_3344);
    assert_eq!(b.read8(0x0000_0100), 0x44);
    assert_eq!(b.read16(0x0000_0102), 0x1122);
    b.write8(0x0000_0101, 0xAA);
    assert_eq!(b.read32(0x0000_0100), 0x1122_AA44);
    b.write16(0x0000_0102, 0xBEEF);
    assert_eq!(b.read32(0x0000_0100), 0xBEEF_AA44);
}

#[test]
fn ram_is_mirrored_three_times() {
    let mut b = bus();
    b.write32(0x0000_0200, 0x5566_7788);
    assert_eq!(b.read32(0x0020_0200), 0x5566_7788);
    assert_eq!(b.read32(0x0040_0200), 0x5566_7788);
    assert_eq!(b.read32(0x8060_0200), 0x5566_7788);
    b.write16(0xA060_0202, 0x1234);
    assert_eq!(b.read32(0x0000_0200), 0x1234_7788);
}

#[test]
fn scratchpad_write_reads_back() {
    let mut b = bus();
    b.write32(0x1F80_03FC, 0xCAFE_F00D);
    assert_eq!(b.read32(0x1F80_03FC), 0xCAFE_F00D);
    assert_eq!(b.read8(0x1F80_03FF), 0xCA);
}

#[test]
fn bios_is_read_only() {
    let mut b = SystemBus::new(bios_with(&[0xDEAD_BEEF]), Box::new(NullGpu), Box::new(NullSpu), Box::new(Released), Box::new(Released));
    assert_eq!(b.read32(0xBFC0_0000), 0xDEAD_BEEF);
    b.write32(0xBFC0_0000, 0);
    assert_eq!(b.read32(0xBFC0_0000), 0xDEAD_BEEF);
    assert_eq!(b.read16(0xBFC0_0002), 0xDEAD);
}

#[test]
fn fixed_hardware_registers() {
    let mut b = bus();
    assert_eq!(b.read32(0x1F80_1060), 0x0000_0B88);
    assert_eq!(b.read32(0x1F80_1000), 0x1F00_0000);
    assert_eq!(b.read32(0x1F80_1004), 0x1F80_2000);
    assert_eq!(b.read32(0x1F80_1020), 0x0003_1125);
    assert_eq!(b.read8(0x1F00_0000), 0xFF);
    assert_eq!(b.read32(0x1F80_1024 + 0x1000), 0);
}

#[test]
fn interrupt_registers_through_the_bus() {
    let mut b = bus();
    b.write32(0x1F80_1074, 0x0000_0005);
    assert_eq!(b.read32(0x1F80_1074), 5);
    b.interrupt_controller.stat = 0x0F;
    b.write32(0x1F80_1070, 0xFFFF_FFFA);
    assert_eq!(b.read32(0x1F80_1070), 0x0A);
    b.write16(0x1F80_1070, 0x0002);
    assert_eq!(b.read32(0x1F80_1070), 0x02);
}

#[test]
fn dma_and_timer_registers_through_the_bus() {
    let mut b = bus();
    b.write32(0x1F80_10A0, 0x0012_3456);
    assert_eq!(b.read32(0x1F80_10A0), 0x0012_3456);
    b.write32(0x1F80_10A4, 0x0010_0008);
    assert_eq!(b.read32(0x1F80_10A4), 0x0010_0008);
    b.write32(0x1F80_10F4, 0x0000_0000);
    assert_eq!(b.read32(0x1F80_10F4), 0);
    b.write16(0x1F80_1118, 0x1234);
    assert_eq!(b.read16(0x1F80_1118), 0x1234);
    b.write16(0x1F80_1110, 0x0042);
    assert_eq!(b.read32(0x1F80_1110), 0x0042);
    assert_eq!(b.read32(0x1F80_111C), 0);
}

#[test]
fn bus_refuses_accesses_that_would_fault() {
    assert!(!can_read(0x001F_FFFE, AccessWidth::Word));
    assert!(can_read(0x001F_FFFC, AccessWidth::Word));
    assert!(!can_read(0x1F80_1811, AccessWidth::Word));
    assert!(can_read(0x1F80_1814, AccessWidth::Word));
    assert!(!can_write(0x1F80_1812, AccessWidth::Half));
    assert!(can_write(0x1F80_1812, AccessWidth::Byte));
    assert!(!can_write(0x1F80_03FF, AccessWidth::Half));
}

#[test]
fn ordering_table_clear_dma() {
    let mut b = bus();
    b.write32(0x1F80_10F0, 0x0800_0000);
    b.write32(0x1F80_10E0, 0x0000_0100);
    b.write32(0x1F80_10E4, 4);
    b.write32(0x1F80_10E8, 0x1100_0002);
    assert_eq!(b.read32(0x0000_0100), 0x0000_00FC);
    assert_eq!(b.read32(0x0000_00FC), 0x0000_00F8);
    assert_eq!(b.read32(0x0000_00F8), 0x0000_00F4);
    assert_eq!(b.read32(0x0000_00F4), 0x00FF_FFFF);
    assert_eq!(b.read32(0x0000_00F0), 0);
    assert_eq!(b.read32(0x1F80_10E8), 0x0000_0002);
}

#[test]
fn tick_raises_vblank() {
    let mut b = bus();
    for _ in 0..(564480 / 64) {
        b.tick(64);
    }
    assert_eq!(b.interrupt_controller.stat & 1, 1);
    assert_eq!(b.scheduler.current_cycle, 564480);
}

fn run_op(op: IrOp, cpu: &mut Cpu, b: &mut SystemBus) -> Result<(), ExecError> {
    Interpreter::new().execute(op, cpu, b)
}

#[test]
fn addu_wraps_and_add_traps_on_carry() {
    let mut b = bus();
    let mut cpu = Cpu::new();
    cpu.registers[1] = 0xFFFF_FFFF;
    cpu.registers[2] = 2;
    assert_eq!(run_op(IrOp::Addu { dst: r(3), lhs: r(1), rhs: r(2) }, &mut cpu, &mut b), Ok(()));
    assert_eq!(cpu.registers[3], 1);
    assert_eq!(run_op(IrOp::Add { dst: r(4), lhs: r(1), rhs: r(2) }, &mut cpu, &mut b), Err(ExecError::Overflow));
    assert_eq!(cpu.registers[4], 0);
    assert_eq!(run_op(IrOp::Sub { dst: r(4), lhs: r(2), rhs: r(1) }, &mut cpu, &mut b), Err(ExecError::Overflow));
    assert_eq!(run_op(IrOp::Subu { dst: r(4), lhs: r(2), rhs: r(1) }, &mut cpu, &mut b), Ok(()));
    assert_eq!(cpu.registers[4], 3);
}

#[test]
fn register_zero_ignores_writes() {
    let mut b = bus();
    let mut cpu = Cpu::new();
    cpu.registers[1] = 7;
    run_op(IrOp::Addiu { dst: r(0), src: r(1), imm: 5 }, &mut cpu, &mut b).unwrap();
    assert_eq!(cpu.registers[0], 0);
    run_op(IrOp::Addiu { dst: r(5), src: r(1), imm: -8 }, &mut cpu, &mut b).unwrap();
    assert_eq!(cpu.registers[5], 0xFFFF_FFFF);
}

#[test]
fn comparisons_signed_and_unsigned() {
    let mut b = bus();
    let mut cpu = Cpu::new();
    cpu.registers[1] = 0xFFFF_FFFF;
    cpu.registers[2] = 1;
    run_op(IrOp::Slt { dst: r(3), lhs: r(1), rhs: r(2) }, &mut cpu, &mut b).unwrap();
    assert_eq!(cpu.registers[3], 1);
    run_op(IrOp::Sltu { dst: r(3), lhs: r(1), rhs: r(2) }, &mut cpu, &mut b).unwrap();
    assert_eq!(cpu.registers[3], 0);
    run_op(IrOp::Slti { dst: r(3), src: r(1), imm: 0 }, &mut cpu, &mut b).unwrap();
    assert_eq!(cpu.registers[3], 1);
    run_op(IrOp::Sltiu { dst: r(3), src: r(2), imm: -1 }, &mut cpu, &mut b).unwrap();
    assert_eq!(cpu.registers[3], 1);
}

#[test]
fn logic_and_shifts() {
    let mut b = bus();
    let mut cpu = Cpu::new();
    cpu.registers[1] = 0x8000_00F0;
    cpu.registers[2] = 0x0000_0FF0;
    cpu.registers[6] = 36;
    run_op(IrOp::Nor { dst: r(3), lhs: r(1), rhs: r(2) }, &mut cpu, &mut b).unwrap();
    assert_eq!(cpu.registers[3], 0x7FFF_F00F);
    run_op(IrOp::Sra { dst: r(3), src: r(1), shamt: 4 }, &mut cpu, &mut b).unwrap();
    assert_eq!(cpu.registers[3], 0xF800_000F);
    run_op(IrOp::Srl { dst: r(3), src: r(1), shamt: 4 }, &mut cpu, &mut b).unwrap();
    assert_eq!(cpu.registers[3], 0x0800_000F);
    run_op(IrOp::Sllv { dst: r(3), src: r(2), shift: r(6) }, &mut cpu, &mut b).unwrap();
    assert_eq!(cpu.registers[3], 0x0000_FF00);
    run_op(IrOp::Lui { dst: r(3), imm: 0x1F80 }, &mut cpu, &mut b).unwrap();
    assert_eq!(cpu.registers[3], 0x1F80_0000);
    run_op(IrOp::Xori { dst: r(3), src: r(2), imm: 0xFFFF }, &mut cpu, &mut b).unwrap();
    assert_eq!(cpu.registers[3], 0x0000_F00F);
}

#[test]
fn multiply_and_divide() {
    let mut b = bus();
    let mut cpu = Cpu::new();
    cpu.registers[1] = (-2i32) as u32;
    cpu.registers[2] = 3;
    run_op(IrOp::Mult { lhs: r(1), rhs: r(2) }, &mut cpu, &mut b).unwrap();
    assert_eq!((cpu.hi, cpu.lo), (0xFFFF_FFFF, 0xFFFF_FFFA));
    cpu.registers[3] = 0xFFFF_FFFF;
    cpu.registers[4] = 2;
    run_op(IrOp::Multu { lhs: r(3), rhs: r(4) }, &mut cpu, &mut b).unwrap();
    assert_eq!((cpu.hi, cpu.lo), (1, 0xFFFF_FFFE));
    cpu.registers[5] = (-7i32) as u32;
    run_op(IrOp::Div { lhs: r(5), rhs: r(4) }, &mut cpu, &mut b).unwrap();
    assert_eq!((cpu.hi, cpu.lo), ((-1i32) as u32, (-3i32) as u32));
    run_op(IrOp::Div { lhs: r(5), rhs: r(0) }, &mut cpu, &mut b).unwrap();
    assert_eq!((cpu.hi, cpu.lo), ((-7i32) as u32, 0xFFFF_FFFF));
    cpu.registers[6] = 0x8000_0000;
    run_op(IrOp::Div { lhs: r(6), rhs: r(3) }, &mut cpu, &mut b).unwrap();
    assert_eq!((cpu.hi, cpu.lo), (0, 0x8000_0000));
    run_op(IrOp::Divu { lhs: r(6), rhs: r(0) }, &mut cpu, &mut b).unwrap();
    assert_eq!((cpu.hi, cpu.lo), (0x8000_0000, 1));
    run_op(IrOp::Divu { lhs: r(2), rhs: r(0) }, &mut cpu, &mut b).unwrap();
    assert_eq!((cpu.hi, cpu.lo), (3, 0xFFFF_FFFF));
    cpu.registers[7] = 0x7FFF_FFFF;
    run_op(IrOp::Divu { lhs: r(6), rhs: r(7) }, &mut cpu, &mut b).unwrap();
    assert_eq!((cpu.hi, cpu.lo), (1, 1));
    cpu.registers[11] = 0xFFFF_FFFF;
    run_op(IrOp::Divu { lhs: r(11), rhs: r(7) }, &mut cpu, &mut b).unwrap();
    assert_eq!((cpu.hi, cpu.lo), (1, 2));
    cpu.registers[8] = 17;
    cpu.registers[9] = 5;
    run_op(IrOp::Divu { lhs: r(8), rhs: r(9) }, &mut cpu, &mut b).unwrap();
    assert_eq!((cpu.hi, cpu.lo), (2, 3));
    run_op(IrOp::Mfhi { dst: r(10) }, &mut cpu, &mut b).unwrap();
    assert_eq!(cpu.registers[10], 2);
}

#[test]
fn branches_and_jumps() {
    let mut b = bus();
    let mut cpu = Cpu::new();
    cpu.pc = 0x8001_0004;
    cpu.next_pc = 0x8001_0008;
    cpu.registers[1] = 5;
    cpu.registers[2] = 5;
    run_op(IrOp::Beq { lhs: r(1), rhs: r(2), offset: -2 }, &mut cpu, &mut b).unwrap();
    assert_eq!(cpu.next_pc, 0x8001_0000);
    assert!(cpu.in_delay_slot);
    cpu.next_pc = 0x8001_0008;
    cpu.in_delay_slot = false;
    run_op(IrOp::Bne { lhs: r(1), rhs: r(2), offset: 4 }, &mut cpu, &mut b).unwrap();
    assert_eq!(cpu.next_pc, 0x8001_0008);
    assert!(!cpu.in_delay_slot);
    run_op(IrOp::Bgezal { src: r(1), offset: 1 }, &mut cpu, &mut b).unwrap();
    assert_eq!(cpu.next_pc, 0x8001_000C);
    assert_eq!(cpu.registers[31], 0x8001_000C);
    run_op(IrOp::J { target: 0x0000_0040 }, &mut cpu, &mut b).unwrap();
    assert_eq!(cpu.next_pc, 0x8000_0100);
    cpu.next_pc = 0x8001_0008;
    run_op(IrOp::Jalr { dst: r(4), src: r(1) }, &mut cpu, &mut b).unwrap();
    assert_eq!(cpu.next_pc, 5);
    // The JALR at 8001_0000h (pc and next_pc already advanced) links 8001_0008h.
    assert_eq!(cpu.registers[4], 0x8001_0008);
}

#[test]
fn coprocessor0_registers() {
    let mut b = bus();
    let mut cpu = Cpu::new();
    cpu.registers[1] = 0x0001_0000;
    run_op(IrOp::Mtc0 { src: r(1), cop_reg: Cop0Register(12) }, &mut cpu, &mut b).unwrap();
    run_op(IrOp::Mfc0 { dst: r(2), cop_reg: Cop0Register(12) }, &mut cpu, &mut b).unwrap();
    assert_eq!(cpu.registers[2], 0x0001_0000);
    assert_eq!(run_op(IrOp::Mfc0 { dst: r(2), cop_reg: Cop0Register(3) }, &mut cpu, &mut b), Err(ExecError::InvalidCop0Register(3)));
    assert_eq!(run_op(IrOp::Syscall, &mut cpu, &mut b), Err(ExecError::Unimplemented));
    assert_eq!(run_op(IrOp::Cop2 { command: 0 }, &mut cpu, &mut b), Err(ExecError::Unimplemented));
}

#[test]
fn loads_are_delayed_and_extended() {
    let mut b = bus();
    let mut cpu = Cpu::new();
    b.write32(0x0000_0010, 0x0000_8080);
    cpu.registers[1] = 0x8000_0000;
    run_op(IrOp::Lb { dst: r(2), base: r(1), offset: 0x10 }, &mut cpu, &mut b).unwrap();
    assert_eq!(cpu.registers[2], 0);
    assert_eq!(cpu.next_load_delay.map(|(reg, v)| (reg.0, v)), Some((2, 0xFFFF_FF80)));
    run_op(IrOp::Lhu { dst: r(3), base: r(1), offset: 0x10 }, &mut cpu, &mut b).unwrap();
    assert_eq!(cpu.next_load_delay.map(|(reg, v)| (reg.0, v)), Some((3, 0x8080)));
    run_op(IrOp::Lh { dst: r(3), base: r(1), offset: 0x10 }, &mut cpu, &mut b).unwrap();
    assert_eq!(cpu.next_load_delay.map(|(reg, v)| (reg.0, v)), Some((3, 0xFFFF_8080)));
    cpu.commit_load_delay();
    cpu.commit_load_delay();
    assert_eq!(cpu.registers[3], 0xFFFF_8080);
}

#[test]
fn faulting_access_reports_the_address() {
    let mut b = bus();
    let mut cpu = Cpu::new();
    cpu.registers[1] = 0x001F_FFFE;
    assert_eq!(run_op(IrOp::Lw { dst: r(2), base: r(1), offset: 0 }, &mut cpu, &mut b), Err(ExecError::BusFault(0x001F_FFFE)));
    assert_eq!(run_op(IrOp::Sw { src: r(2), base: r(1), offset: 0 }, &mut cpu, &mut b), Err(ExecError::BusFault(0x001F_FFFE)));
}

#[test]
fn stores_are_dropped_while_the_cache_is_isolated() {
    let mut b = bus();
    let mut cpu = Cpu::new();
    cpu.registers[1] = 0x1234_5678;
    cpu.cop0.sr = 0x0001_0000;
    run_op(IrOp::Sw { src: r(1), base: r(0), offset: 0x40 }, &mut cpu, &mut b).unwrap();
    assert_eq!(b.read32(0x40), 0);
    cpu.cop0.sr = 0;
    run_op(IrOp::Sh { src: r(1), base: r(0), offset: 0x40 }, &mut cpu, &mut b).unwrap();
    assert_eq!(b.read32(0x40), 0x0000_5678);
}

#[test]
fn step_fetches_from_the_bios() {
    // addiu $1, $0, 5 ; ori $2, $1, 0x10
    let mut b = SystemBus::new(bios_with(&[0x2401_0005, 0x3422_0010]), Box::new(NullGpu), Box::new(NullSpu), Box::new(Released), Box::new(Released));
    let mut cpu = Cpu::new();
    let mut interp = Interpreter::new();
    interp.step(&mut cpu, &mut b).unwrap();
    assert_eq!(cpu.registers[1], 5);
    assert_eq!(cpu.pc, 0xBFC0_0004);
    interp.step(&mut cpu, &mut b).unwrap();
    assert_eq!(cpu.registers[2], 0x15);
}

fn exe_image(pc: u32, load_addr: u32, code: &[u32]) -> Vec<u8> {
    let mut d = vec![0u8; 0x800 + code.len() * 4];
    d[0..8].copy_from_slice(b"PS-X EXE");
    d[0x10..0x14].copy_from_slice(&pc.to_le_bytes());
    d[0x14..0x18].copy_from_slice(&0x1234u32.to_le_bytes());
    d[0x18..0x1C].copy_from_slice(&load_addr.to_le_bytes());
    d[0x1C..0x20].copy_from_slice(&((code.len() * 4) as u32).to_le_bytes());
    d[0x30..0x34].copy_from_slice(&0x801F_FF00u32.to_le_bytes());
    d[0x34..0x38].copy_from_slice(&0xF0u32.to_le_bytes());
    for (i, w) in code.iter().enumerate() {
        d[0x800 + i * 4..0x800 + i * 4 + 4].copy_from_slice(&w.to_le_bytes());
    }
    d
}

fn machine() -> Ps1<Interpreter> {
    Ps1::new(bios_with(&[]), Interpreter::new(), Box::new(NullGpu), Box::new(NullSpu), Box::new(Released), Box::new(Released))
}

#[test]
fn check_exe_refuses_bad_images() {
    assert_eq!(check_exe(b"PS-X"), Err(ExeError::Truncated));
    assert_eq!(check_exe(&[0u8; 0x900]), Err(ExeError::BadMagic));
    let mut short = exe_image(0x8001_0000, 0x8001_0000, &[0, 0]);
    short.truncate(0x804);
    assert_eq!(check_exe(&short), Err(ExeError::Truncated));
    assert_eq!(check_exe(&exe_image(0x8001_0000, 0x8001_0000, &[0, 0])), Ok(()));
}

#[test]
fn load_exe_sets_up_and_runs() {
    let mut ps1 = machine();
    // addiu $8, $0, 42 ; j 0x80010000 ; nop
    let img = exe_image(0x8001_0000, 0x8001_0000, &[0x2408_002A, 0x0800_4000, 0]);
    assert_eq!(check_exe(&img), Ok(()));
    ps1.load_exe(&img);
    assert_eq!(ps1.cpu.pc, 0x8001_0000);
    assert_eq!(ps1.cpu.next_pc, 0x8001_0004);
    assert_eq!(ps1.cpu.registers[28], 0x1234);
    assert_eq!(ps1.cpu.registers[29], 0x801F_FFF0);
    assert_eq!(ps1.cpu.registers[30], 0x801F_FFF0);
    assert_eq!(ps1.bus.read32(0x0001_0000), 0x2408_002A);
    assert_eq!(ps1.run_until_pc(0x8001_0008, 10), Ok(true));
    assert_eq!(ps1.cpu.registers[8], 42);
    assert_eq!(ps1.run(8), Ok(()));
    assert_eq!(ps1.bus.scheduler.current_cycle, 8);
}

#[test]
fn zero_cycles_or_steps_do_nothing() {
    let mut ps1 = machine();
    assert_eq!(ps1.run(0), Ok(()));
    assert_eq!(ps1.cpu.pc, 0xBFC0_0000);
    assert_eq!(ps1.bus.scheduler.current_cycle, 0);
    assert_eq!(ps1.run_until_pc(0x8000_0000, 0), Ok(false));
    assert_eq!(ps1.cpu.pc, 0xBFC0_0000);
}

#[test]
fn run_steps_once_per_two_cycles() {
    let mut ps1 = machine();
    // The BIOS is all zero words (NOP): each step moves PC by four.
    assert_eq!(ps1.run(5), Ok(()));
    assert_eq!(ps1.bus.scheduler.current_cycle, 6);
    assert_eq!(ps1.cpu.pc, 0xBFC0_000C);
}
