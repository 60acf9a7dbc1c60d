//! End-to-end scenarios: whole instructions executed on a booted machine.

use rv32ima::bus::{Bus, RAM_START};
use rv32ima::clint::Clint;
use rv32ima::cpu::{Cpu, CpuState};
use rv32ima::uart::Uart;

fn load_image(image: &[u32], ram_size: usize) -> Vec<u8> {
    let mut ram = vec![0u8; ram_size];
    for (i, w) in image.iter().enumerate() {
        ram[i * 4..i * 4 + 4].copy_from_slice(&w.to_le_bytes());
    }
    ram
}

fn boot(image: &[u32]) -> Cpu {
    boot_with(image, Clint::new(), Uart::new())
}

fn boot_with(image: &[u32], clint: Clint, uart: Uart) -> Cpu {
    let ram = load_image(image, 64 * 1024);
    let bus = Bus::new(ram, clint, uart);
    let mut cpu = Cpu::new(bus);
    cpu.a0(0);
    cpu.a1(0);
    cpu.pc(RAM_START);
    cpu
}

fn run(cpu: &mut Cpu, steps: usize) {
    for _ in 0..steps {
        cpu.step(0);
    }
}

#[test]
fn addi_add_ecall() {
    // li x1,5; li x2,10; add x3,x1,x2; ecall
    let mut cpu = boot(&[0x00500093, 0x00a00113, 0x002081B3, 0x00000073]);
    run(&mut cpu, 4);
    assert_eq!(cpu.reg(1), 5);
    assert_eq!(cpu.reg(2), 10);
    assert_eq!(cpu.reg(3), 15);
    assert_eq!(cpu.get_mcause(), 11);
    assert_eq!(cpu.get_mepc(), 0x8000_000C);
    assert_eq!(cpu.get_mstatus() & 8, 0); // MIE cleared on trap entry
    assert_eq!((cpu.get_mstatus() >> 11) & 3, 3); // MPP holds the pre-trap mode
}

#[test]
fn misaligned_fetch_traps_as_instruction_address_misaligned() {
    // x1 = 0x80000002; jalr x0, 0(x1); the fetch at the odd word then traps
    let mut cpu = boot(&[0x800000B7, 0x00208093, 0x00008067]);
    run(&mut cpu, 4);
    assert_eq!(cpu.get_mcause(), 0);
    assert_eq!(cpu.get_mepc(), 0x8000_0002);
    assert_eq!(cpu.get_mtval(), 0x8000_0002);
    assert_eq!(cpu.get_pc(), 0); // mtvec was never set
}

#[test]
fn blt_taken_on_signed_compare() {
    // x1 = -1; x2 = 1; blt x1, x2, +8
    let mut cpu = boot(&[0xFFF00093, 0x00100113, 0x0020C463]);
    run(&mut cpu, 3);
    assert_eq!(cpu.get_pc(), 0x8000_0010);
}

#[test]
fn blt_not_taken_on_signed_compare() {
    // x1 = 1; x2 = -1; blt x1, x2, +8
    let mut cpu = boot(&[0x00100093, 0xFFF00113, 0x0020C463]);
    run(&mut cpu, 3);
    assert_eq!(cpu.get_pc(), 0x8000_000C);
}

#[test]
fn lb_sign_extends_and_lbu_does_not() {
    // x1 = 0x80001000; lb x2, 0(x1); lbu x3, 0(x1)
    let mut ram = load_image(&[0x800010B7, 0x00008103, 0x0000C183], 8 * 1024);
    ram[0x1000] = 0xFF;
    let bus = Bus::new(ram, Clint::new(), Uart::new());
    let mut cpu = Cpu::new(bus);
    cpu.pc(RAM_START);
    run(&mut cpu, 3);
    assert_eq!(cpu.reg(2), 0xFFFF_FFFF);
    assert_eq!(cpu.reg(3), 0x0000_00FF);
}

#[test]
fn misaligned_lw_traps_with_address() {
    // x1 = 0x80000001; lw x2, 0(x1)
    let mut cpu = boot(&[0x800000B7, 0x00108093, 0x0000A103]);
    run(&mut cpu, 3);
    assert_eq!(cpu.get_mcause(), 4);
    assert_eq!(cpu.get_mtval(), 0x8000_0001);
    assert_eq!(cpu.get_mepc(), 0x8000_0008);
    assert_eq!(cpu.get_pc(), 0); // mtvec was never set
}

#[test]
fn timer_interrupt_is_delivered() {
    // mie.MTIE = 1; mtvec = 0x80000100; mstatus.MIE = 1; then time passes.
    let image = [
        0x08000093, // addi x1, x0, 0x80
        0x30409073, // csrrw x0, mie, x1
        0x80000137, // lui x2, 0x80000
        0x10010113, // addi x2, x2, 0x100
        0x30511073, // csrrw x0, mtvec, x2
        0x30046073, // csrrsi x0, mstatus, 8
        0x00000013, // nop
    ];
    let mut clint = Clint::new();
    clint.mtimecmp = 1;
    clint.msip = 1;
    let mut cpu = boot_with(&image, clint, Uart::new());
    run(&mut cpu, 6);
    let state = cpu.step(10);
    assert_eq!(state, CpuState::Active);
    assert_eq!(cpu.get_mcause(), 0x8000_0007);
    assert_eq!(cpu.get_mtval(), 0);
    assert_eq!(cpu.get_pc(), 0x8000_0100);
    assert_eq!(cpu.get_mepc(), 0x8000_0018);
}

#[test]
fn wfi_idles_until_timer_pending() {
    let mut clint = Clint::new();
    clint.mtimecmp = 1;
    clint.msip = 1;
    let mut cpu = boot_with(&[0x10500073, 0x00000013], clint, Uart::new());
    assert_eq!(cpu.step(0), CpuState::Idle);
    assert!(cpu.is_waiting());
    assert_eq!(cpu.get_pc(), 0x8000_0004);
    assert_eq!(cpu.get_mstatus() & 8, 8); // WFI sets mstatus.MIE
    assert_eq!(cpu.step(0), CpuState::Idle); // no time passed: still waiting
    assert_eq!(cpu.step(5), CpuState::Active); // MTIP clears the wait
    assert!(!cpu.is_waiting());
    assert_eq!(cpu.get_pc(), 0x8000_0008);
}

#[test]
fn mret_restores_mie_and_mode() {
    let image = [
        0x800000B7, // lui x1, 0x80000
        0x02008093, // addi x1, x1, 0x20
        0x34109073, // csrrw x0, mepc, x1
        0x08000113, // addi x2, x0, 0x80 (MPIE set, MPP = User)
        0x30011073, // csrrw x0, mstatus, x2
        0x30200073, // mret
    ];
    let mut cpu = boot(&image);
    run(&mut cpu, 6);
    assert_eq!(cpu.get_pc(), 0x8000_0020);
    let mstatus = cpu.get_mstatus();
    assert_eq!(mstatus & 8, 8); // MIE restored from MPIE
    assert_eq!(mstatus & 0x80, 0x80); // MPIE forced to 1
    assert_eq!((mstatus >> 11) & 3, 3); // MPP holds the mode MRET left
}

#[test]
fn ecall_from_user_mode_reports_umode_cause() {
    // Enter User mode by mret (MPP = User), then ecall at 0x80000020.
    let image = [
        0x800000B7, // lui x1, 0x80000
        0x02008093, // addi x1, x1, 0x20
        0x34109073, // csrrw x0, mepc, x1
        0x08000113, // addi x2, x0, 0x80
        0x30011073, // csrrw x0, mstatus, x2
        0x30200073, // mret
        0x00000013, // nop (padding)
        0x00000013, // nop (padding)
        0x00000073, // ecall, at 0x80000020
    ];
    let mut cpu = boot(&image);
    run(&mut cpu, 7);
    assert_eq!(cpu.get_mcause(), 8);
    assert_eq!(cpu.get_mepc(), 0x8000_0020);
}

#[test]
fn lr_sc_succeeds_when_memory_unchanged() {
    // x1 = 0x80001000; x4 = 42; lr.w x2,(x1); sc.w x3,x4,(x1)
    let image = [0x800010B7, 0x02A00213, 0x1000A12F, 0x1840A1AF];
    let mut cpu = boot(&image);
    run(&mut cpu, 4);
    assert_eq!(cpu.reg(3), 0); // success
    let word = &cpu.bus().ram[0x1000..0x1004];
    assert_eq!(word, &42u32.to_le_bytes());
}

#[test]
fn sc_fails_after_intervening_store() {
    // x1 = 0x80001000; x4 = 42; lr.w x2,(x1); sw x4,0(x1); sc.w x3,x4,(x1)
    let image = [0x800010B7, 0x02A00213, 0x1000A12F, 0x0040A023, 0x1840A1AF];
    let mut cpu = boot(&image);
    run(&mut cpu, 5);
    assert_eq!(cpu.reg(2), 0); // lr.w read the initial zero
    assert_eq!(cpu.reg(3), 1); // sc.w failed: the value changed
    let word = &cpu.bus().ram[0x1000..0x1004];
    assert_eq!(word, &42u32.to_le_bytes()); // the sw, not the sc, is visible
}

#[test]
fn sc_fails_without_reservation() {
    // x1 = 0x80001000; x4 = 42; sc.w x3,x4,(x1)
    let image = [0x800010B7, 0x02A00213, 0x1840A1AF];
    let mut cpu = boot(&image);
    run(&mut cpu, 3);
    assert_eq!(cpu.reg(3), 1);
    assert_eq!(&cpu.bus().ram[0x1000..0x1004], &[0, 0, 0, 0]);
}

#[test]
fn amoadd_returns_old_and_stores_sum() {
    // x1 = 0x80001000 (holds 10); x4 = 5; amoadd.w x2, x4, (x1)
    let mut ram = load_image(&[0x800010B7, 0x00500213, 0x0040A12F], 8 * 1024);
    ram[0x1000..0x1004].copy_from_slice(&10u32.to_le_bytes());
    let bus = Bus::new(ram, Clint::new(), Uart::new());
    let mut cpu = Cpu::new(bus);
    cpu.pc(RAM_START);
    run(&mut cpu, 3);
    assert_eq!(cpu.reg(2), 10);
    assert_eq!(&cpu.bus().ram[0x1000..0x1004], &15u32.to_le_bytes());
}

#[test]
fn syscon_power_off_by_guest_store() {
    // x1 = 0x11100000; x2 = 0x5555; sh x2, 0(x1)
    let image = [0x111000B7, 0x00005137, 0x55510113, 0x00209023];
    let mut cpu = boot(&image);
    run(&mut cpu, 4);
    assert!(cpu.bus().power_off);
    assert!(!cpu.bus().reboot);
}

#[test]
fn syscon_other_value_lands_in_msip() {
    // x1 = 0x11100000; x2 = 0x1234; sh x2, 0(x1)
    let image = [0x111000B7, 0x00001137, 0x23410113, 0x00209023];
    let mut cpu = boot(&image);
    run(&mut cpu, 4);
    assert!(!cpu.bus().power_off);
    assert!(!cpu.bus().reboot);
    assert_eq!(cpu.bus().clint.msip, 0x1234);
}

#[test]
fn uart_write_reaches_console_queue() {
    // x1 = 0x10000000; x2 = 65; sb x2, 0(x1)
    let image = [0x100000B7, 0x04100113, 0x00208023];
    let mut cpu = boot(&image);
    run(&mut cpu, 3);
    assert_eq!(cpu.bus().serial.output, vec![65]);
}

#[test]
fn uart_reads_line_status_and_consumes_input() {
    // x1 = 0x10000000; lb x3, 5(x1); lbu x4, 0(x1); lbu x5, 0(x1)
    let image = [0x100000B7, 0x00508183, 0x0000C203, 0x0000C283];
    let mut uart = Uart::new();
    uart.input.push(65);
    let mut cpu = boot_with(&image, Clint::new(), uart);
    run(&mut cpu, 4);
    assert_eq!(cpu.reg(3), 0x61); // line status: input available
    assert_eq!(cpu.reg(4), 65); // the pending byte
    assert_eq!(cpu.reg(5), 0); // queue now empty
}

#[test]
fn ebreak_raises_breakpoint() {
    let mut cpu = boot(&[0x00100073]);
    run(&mut cpu, 1);
    assert_eq!(cpu.get_mcause(), 3);
    assert_eq!(cpu.get_mepc(), 0x8000_0000);
}

#[test]
fn illegal_instruction_traps_with_the_word() {
    let mut cpu = boot(&[0xFFFF_FFFF]);
    run(&mut cpu, 1);
    assert_eq!(cpu.get_mcause(), 2);
    assert_eq!(cpu.get_mtval(), 0xFFFF_FFFF);
}

#[test]
fn csr_write_and_read_back() {
    // x1 = 0x55; csrrw x0, mscratch, x1; csrrs x2, mscratch, x0
    let image = [0x05500093, 0x34009073, 0x34002173];
    let mut cpu = boot(&image);
    run(&mut cpu, 3);
    assert_eq!(cpu.reg(2), 0x55);
}

#[test]
fn jal_links_and_jumps() {
    let mut cpu = boot(&[0x008000EF]);
    run(&mut cpu, 1);
    assert_eq!(cpu.reg(1), 0x8000_0004);
    assert_eq!(cpu.get_pc(), 0x8000_0008);
}

#[test]
fn jalr_clears_bit_zero() {
    // x1 = 0x80000011; jalr x2, 0(x1)
    let mut cpu = boot(&[0x800000B7, 0x01108093, 0x00008167]);
    run(&mut cpu, 3);
    assert_eq!(cpu.get_pc(), 0x8000_0010);
    assert_eq!(cpu.reg(2), 0x8000_000C);
}

#[test]
fn writes_to_x0_are_discarded() {
    // addi x0, x0, 5; lui x0, 1
    let mut cpu = boot(&[0x00500013, 0x00001037]);
    run(&mut cpu, 2);
    assert_eq!(cpu.reg(0), 0);
}

#[test]
fn mip_reads_back_the_pending_bit() {
    // mtime 0 >= mtimecmp 0 and msip != 0: MTIP is set at the first step.
    let image = [0x34402173]; // csrrs x2, mip, x0
    let mut clint = Clint::new();
    clint.msip = 1;
    let mut cpu = boot_with(&image, clint, Uart::new());
    run(&mut cpu, 1);
    assert_eq!(cpu.reg(2), 0x80);
}

#[test]
fn cycle_counter_reads_through_its_csr() {
    let image = [0xC0002173, 0xC00021F3]; // csrrs x2, cycle, x0; csrrs x3, ...
    let mut cpu = boot(&image);
    run(&mut cpu, 2);
    assert_eq!(cpu.reg(2), 1);
    assert_eq!(cpu.reg(3), 2);
    assert_eq!(cpu.get_cycle(), 2);
}

#[test]
fn csr_read_modify_write_operations() {
    let image = [
        0x05500093, // addi x1, x0, 0x55
        0x34009073, // csrrw x0, mscratch, x1
        0x3402F173, // csrrci x2, mscratch, 5
        0x340021F3, // csrrs x3, mscratch, x0
    ];
    let mut cpu = boot(&image);
    run(&mut cpu, 4);
    assert_eq!(cpu.reg(2), 0x55); // the old value is read out
    assert_eq!(cpu.reg(3), 0x50); // the immediate's bits were cleared
}

#[test]
fn unknown_csr_reads_zero_and_ignores_writes() {
    let image = [
        0x05500093, // addi x1, x0, 0x55
        0x7C009073, // csrrw x0, 0x7c0, x1
        0x7C002173, // csrrs x2, 0x7c0, x0
    ];
    let mut cpu = boot(&image);
    run(&mut cpu, 3);
    assert_eq!(cpu.reg(2), 0);
    assert_eq!(cpu.get_mcause(), 0); // no trap was taken
    assert_eq!(cpu.get_pc(), 0x8000_000C);
}
