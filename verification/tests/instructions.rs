//! Arithmetic, logic, shift and multiply/divide instructions, executed on a
//! booted machine and checked against hand-computed results.

use rv32ima::bus::{Bus, RAM_START};
use rv32ima::clint::Clint;
use rv32ima::cpu::Cpu;
use rv32ima::uart::Uart;

fn boot(image: &[u32]) -> Cpu {
    let mut ram = vec![0u8; 64 * 1024];
    for (i, w) in image.iter().enumerate() {
        ram[i * 4..i * 4 + 4].copy_from_slice(&w.to_le_bytes());
    }
    let bus = Bus::new(ram, Clint::new(), Uart::new());
    let mut cpu = Cpu::new(bus);
    cpu.pc(RAM_START);
    cpu
}

fn run(cpu: &mut Cpu, steps: usize) {
    for _ in 0..steps {
        cpu.step(0);
    }
}

#[test]
fn shifts_respect_signedness() {
    // x1 = -3; srai x2, x1, 1; srli x3, x1, 1; slli x4, x1, 4
    let image = [0xFFD00093, 0x4010D113, 0x0010D193, 0x00409213];
    let mut cpu = boot(&image);
    run(&mut cpu, 4);
    assert_eq!(cpu.reg(2), 0xFFFF_FFFE); // -3 >> 1 arithmetic = -2
    assert_eq!(cpu.reg(3), 0x7FFF_FFFE); // logical shift
    assert_eq!(cpu.reg(4), 0xFFFF_FFD0); // -3 << 4 = -48
}

#[test]
fn set_less_than_signed_and_unsigned() {
    // x1 = -3; slt x4, x1, x0; sltu x5, x1, x0
    let image = [0xFFD00093, 0x0000A233, 0x0000B2B3];
    let mut cpu = boot(&image);
    run(&mut cpu, 3);
    assert_eq!(cpu.reg(4), 1); // -3 < 0 signed
    assert_eq!(cpu.reg(5), 0); // 0xFFFFFFFD < 0 is false unsigned
}

#[test]
fn logic_ops() {
    // x1 = 0x0F0F; x2 = 0x3344; and, or, xor
    let image = [
        0x70F00093, // addi x1, x0, 0x70F
        0x33400113, // addi x2, x0, 0x334
        0x0020F1B3, // and x3, x1, x2
        0x0020E233, // or x4, x1, x2
        0x0020C2B3, // xor x5, x1, x2
    ];
    let mut cpu = boot(&image);
    run(&mut cpu, 5);
    assert_eq!(cpu.reg(3), 0x70F & 0x334);
    assert_eq!(cpu.reg(4), 0x70F | 0x334);
    assert_eq!(cpu.reg(5), 0x70F ^ 0x334);
}

#[test]
fn sub_and_auipc() {
    // x1 = 5; x2 = 12; sub x3, x1, x2; auipc x4, 1
    let image = [0x00500093, 0x00C00113, 0x402081B3, 0x00001217];
    let mut cpu = boot(&image);
    run(&mut cpu, 4);
    assert_eq!(cpu.reg(3), 0xFFFF_FFF9); // 5 - 12 = -7
    assert_eq!(cpu.reg(4), 0x8000_100C); // pc of auipc + (1 << 12)
}

#[test]
fn multiply_variants() {
    // x1 = -3; x2 = 7; mul, mulh, mulhu, mulhsu
    let image = [
        0xFFD00093, // addi x1, x0, -3
        0x00700113, // addi x2, x0, 7
        0x022081B3, // mul x3, x1, x2
        0x02209233, // mulh x4, x1, x2
        0x0220B2B3, // mulhu x5, x1, x2
        0x0220A333, // mulhsu x6, x1, x2
    ];
    let mut cpu = boot(&image);
    run(&mut cpu, 6);
    assert_eq!(cpu.reg(3), (-21i32) as u32);
    assert_eq!(cpu.reg(4), 0xFFFF_FFFF); // high word of -21
    assert_eq!(cpu.reg(5), 6); // high word of (2^32 - 3) * 7
    assert_eq!(cpu.reg(6), 0xFFFF_FFFF); // high word of -3 * 7 (unsigned rhs)
}

#[test]
fn divide_variants() {
    // x1 = -3; x2 = 7; div, rem, divu, remu
    let image = [
        0xFFD00093, // addi x1, x0, -3
        0x00700113, // addi x2, x0, 7
        0x0220C1B3, // div x3, x1, x2
        0x0220E233, // rem x4, x1, x2
        0x0220D2B3, // divu x5, x1, x2
        0x0220F333, // remu x6, x1, x2
    ];
    let mut cpu = boot(&image);
    run(&mut cpu, 6);
    assert_eq!(cpu.reg(3), 0); // -3 / 7 rounds toward zero
    assert_eq!(cpu.reg(4), (-3i32) as u32);
    assert_eq!(cpu.reg(5), 0xFFFF_FFFD / 7);
    assert_eq!(cpu.reg(6), 0xFFFF_FFFD % 7);
}

#[test]
fn divide_by_zero_through_the_cpu() {
    // x1 = 9; div x3, x1, x0; rem x4, x1, x0; divu x5, x1, x0; remu x6, x1, x0
    let image = [
        0x00900093, // addi x1, x0, 9
        0x0200C1B3, // div x3, x1, x0
        0x0200E233, // rem x4, x1, x0
        0x0200D2B3, // divu x5, x1, x0
        0x0200F333, // remu x6, x1, x0
    ];
    let mut cpu = boot(&image);
    run(&mut cpu, 5);
    assert_eq!(cpu.reg(3), 0xFFFF_FFFF);
    assert_eq!(cpu.reg(4), 9);
    assert_eq!(cpu.reg(5), 0xFFFF_FFFF);
    assert_eq!(cpu.reg(6), 9);
}

#[test]
fn div_overflow_wraps_to_int_min() {
    // x1 = INT_MIN; x2 = -1; div x3, x1, x2; rem x4, x1, x2
    let image = [
        0x800000B7, // lui x1, 0x80000
        0xFFF00113, // addi x2, x0, -1
        0x0220C1B3, // div x3, x1, x2
        0x0220E233, // rem x4, x1, x2
    ];
    let mut cpu = boot(&image);
    run(&mut cpu, 4);
    assert_eq!(cpu.reg(3), 0x8000_0000);
    assert_eq!(cpu.reg(4), 0);
}

#[test]
fn lh_sign_extends_and_lhu_does_not() {
    // store 0xFF80 half-word, then lh / lhu
    let image: [u32; 3] = [
        0x800010B7, // lui x1, 0x80001
        0x00009103, // lh x2, 0(x1)
        0x0000D183, // lhu x3, 0(x1)
    ];
    let mut cpu = {
        let mut ram = vec![0u8; 64 * 1024];
        for (i, w) in image.iter().enumerate() {
            ram[i * 4..i * 4 + 4].copy_from_slice(&w.to_le_bytes());
        }
        ram[0x1000..0x1002].copy_from_slice(&0xFF80u16.to_le_bytes());
        let bus = Bus::new(ram, Clint::new(), Uart::new());
        let mut cpu = Cpu::new(bus);
        cpu.pc(RAM_START);
        cpu
    };
    run(&mut cpu, 3);
    assert_eq!(cpu.reg(2), 0xFFFF_FF80);
    assert_eq!(cpu.reg(3), 0x0000_FF80);
}

#[test]
fn store_widths_leave_neighbours_alone() {
    // x1 = 0x80001000; x2 = 0x11223344; sw, then sb of 0x99 at offset 1
    let image = [
        0x800010B7, // lui x1, 0x80001
        0x11223137, // lui x2, 0x11223
        0x34410113, // addi x2, x2, 0x344
        0x0020A023, // sw x2, 0(x1)
        0x09900193, // addi x3, x0, 0x99
        0x003080A3, // sb x3, 1(x1)
    ];
    let mut cpu = boot(&image);
    run(&mut cpu, 6);
    assert_eq!(&cpu.bus().ram[0x1000..0x1004], &[0x44, 0x99, 0x22, 0x11]);
}

#[test]
fn amoswap_and_amomax() {
    // memory holds -5; x4 = 3; amomax.w x2, x4, (x1); then amoswap back
    let image: [u32; 4] = [
        0x800010B7, // lui x1, 0x80001
        0x00300213, // addi x4, x0, 3
        0xA040A12F, // amomax.w x2, x4, (x1)
        0x0840A2AF, // amoswap.w x5, x4, (x1)
    ];
    let mut cpu = {
        let mut ram = vec![0u8; 64 * 1024];
        for (i, w) in image.iter().enumerate() {
            ram[i * 4..i * 4 + 4].copy_from_slice(&w.to_le_bytes());
        }
        ram[0x1000..0x1004].copy_from_slice(&(-5i32 as u32).to_le_bytes());
        let bus = Bus::new(ram, Clint::new(), Uart::new());
        let mut cpu = Cpu::new(bus);
        cpu.pc(RAM_START);
        cpu
    };
    run(&mut cpu, 4);
    assert_eq!(cpu.reg(2), -5i32 as u32); // amomax returns the old value
    assert_eq!(cpu.reg(5), 3); // the max of -5 and 3 was stored
    assert_eq!(&cpu.bus().ram[0x1000..0x1004], &3u32.to_le_bytes());
}

#[test]
fn fence_is_a_no_op() {
    let image = [0x0FF0000F, 0x00500093]; // fence; addi x1, x0, 5
    let mut cpu = boot(&image);
    run(&mut cpu, 2);
    assert_eq!(cpu.reg(1), 5);
    assert_eq!(cpu.get_pc(), 0x8000_0008);
}
