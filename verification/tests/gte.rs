use parastation_core::cpu::gte::{Gte, GteRegister};
use parastation_core::cpu::gte_div::gte_divide;

fn gte_with(data: &[(u8, u32)], control: &[(u8, u32)]) -> Gte {
    let mut gte = Gte::new();
    for &(r, v) in data {
        gte.write_register(GteRegister(r), v);
    }
    for &(r, v) in control {
        gte.write_register(GteRegister(32 + r), v);
    }
    gte
}

fn read(gte: &Gte, r: u8) -> u32 {
    gte.read_register(GteRegister(r))
}

#[test]
fn gte_divide_equal_operands_is_one() {
    assert_eq!(gte_divide(1000, 1000), (0x10000, false));
    assert_eq!(gte_divide(0x200, 0), (0x1FFFF, true));
    assert_eq!(gte_divide(2000, 1000), (0x1FFFF, true));
}

#[test]
fn gte_rtps_projects_vertex() {
    // RT = identity (1.0 = 1000h), TR = 0, OF = 0, H = 1000, DQA = DQB = 0.
    let mut gte = gte_with(
        &[(0, (50 << 16) | 100), (1, 1000)],
        &[(0, 0x1000), (2, 0x1000), (4, 0x1000), (26, 1000)],
    );
    gte.execute_command(0x0008_0001); // RTPS, sf = 1
    assert_eq!(read(&gte, 25), 100);
    assert_eq!(read(&gte, 26), 50);
    assert_eq!(read(&gte, 27), 1000);
    assert_eq!(read(&gte, 9), 100);
    assert_eq!(read(&gte, 10), 50);
    assert_eq!(read(&gte, 11), 1000);
    assert_eq!(read(&gte, 19), 1000);
    assert_eq!(read(&gte, 14), (50 << 16) | 100);
    assert_eq!(read(&gte, 24), 0);
    assert_eq!(read(&gte, 8), 0);
    assert_eq!(read(&gte, 63), 0);
}

#[test]
fn gte_nclip_signed_area() {
    let mut gte = gte_with(&[(12, 0), (13, 10), (14, 10 << 16)], &[]);
    gte.execute_command(0x06);
    assert_eq!(read(&gte, 24), 100);
}

#[test]
fn gte_sqr_squares_ir() {
    let mut gte = gte_with(&[(9, 3), (10, (-4i32) as u32), (11, 5)], &[]);
    gte.execute_command(0x28);
    assert_eq!(read(&gte, 25), 9);
    assert_eq!(read(&gte, 26), 16);
    assert_eq!(read(&gte, 27), 25);
    assert_eq!(read(&gte, 9), 9);
    assert_eq!(read(&gte, 10), 16);
    assert_eq!(read(&gte, 11), 25);
}

#[test]
fn gte_avsz3_average_depth() {
    let mut gte = gte_with(&[(17, 100), (18, 200), (19, 300)], &[(29, 0x155)]);
    gte.execute_command(0x2D);
    assert_eq!(read(&gte, 24), 204_600);
    assert_eq!(read(&gte, 7), 49);
}

#[test]
fn gte_unknown_command_only_clears_flag() {
    let mut gte = gte_with(&[(9, 7)], &[(31, 0xFFFF_F000)]);
    gte.execute_command(0x3C);
    assert_eq!(read(&gte, 9), 7);
    assert_eq!(read(&gte, 63), 0);
}

#[test]
fn gte_rtps_divide_overflow_sets_flag() {
    // All registers zero: SZ3 becomes 0 and the division overflows.
    let mut gte = Gte::new();
    gte.execute_command(0x0018_0001);
    let f = read(&gte, 63);
    assert_ne!(f & (1 << 17), 0);
    assert_eq!(f >> 31, 1);
    assert_eq!(read(&gte, 19), 0);
}

#[test]
fn gte_rtpt_divide_overflow_in_any_vertex() {
    // H = 1000; V0 at Z = 100 overflows (H >= 2*SZ), V1 and V2 at Z = 1000 do not.
    let mut gte = gte_with(
        &[(1, 100), (3, 1000), (5, 1000)],
        &[(0, 0x1000), (2, 0x1000), (4, 0x1000), (26, 1000)],
    );
    gte.execute_command(0x0008_0030);
    assert_eq!(read(&gte, 17), 100);
    assert_ne!(read(&gte, 63) & (1 << 17), 0);
}

#[test]
fn gte_sqr_saturation_flags() {
    let mut gte = gte_with(&[(9, 0x200), (10, 2), (11, 0)], &[]);
    gte.execute_command(0x0000_0028); // SQR, sf = 0
    assert_eq!(read(&gte, 25), 0x4_0000);
    assert_eq!(read(&gte, 9), 0x7FFF);
    assert_eq!(read(&gte, 10), 4);
    assert_eq!(read(&gte, 63), 0x8100_0000);
}

#[test]
fn gte_avsz3_overflow_flags() {
    let mut gte = gte_with(&[(17, 0xFFFF), (18, 0xFFFF), (19, 0xFFFF)], &[(29, 0x7FFF)]);
    gte.execute_command(0x0000_002D);
    assert_eq!(read(&gte, 7), 0xFFFF);
    assert_eq!(read(&gte, 63), 0x8005_0000);
}
