//! The bus, CLINT, UART and timer exercised directly, and the word-level
//! arithmetic edge cases.

use rv32ima::bus::{Bus, RAM_START};
use rv32ima::bus_interface::BusException;
use rv32ima::clint::Clint;
use rv32ima::timer::Timer;
use rv32ima::uart::Uart;
use rv32ima::words::{div_signed, rem_signed};

fn fresh_bus(ram_size: usize) -> Bus {
    Bus::new(vec![0u8; ram_size], Clint::new(), Uart::new())
}

#[test]
fn ram_roundtrip_all_widths() {
    let mut bus = fresh_bus(4096);
    bus.write32(RAM_START + 8, 0xDEAD_BEEF).unwrap();
    assert_eq!(bus.read32(RAM_START + 8), Ok(0xDEAD_BEEF));
    bus.write16(RAM_START + 20, 0xABCD).unwrap();
    assert_eq!(bus.read16(RAM_START + 20), Ok(0xABCD));
    bus.write8(RAM_START + 33, 0x7F).unwrap();
    assert_eq!(bus.read8(RAM_START + 33), Ok(0x7F));
}

#[test]
fn ram_is_little_endian() {
    let mut bus = fresh_bus(4096);
    bus.write32(RAM_START, 0x0102_0304).unwrap();
    assert_eq!(bus.read8(RAM_START), Ok(0x04));
    assert_eq!(bus.read8(RAM_START + 1), Ok(0x03));
    assert_eq!(bus.read8(RAM_START + 2), Ok(0x02));
    assert_eq!(bus.read8(RAM_START + 3), Ok(0x01));
    assert_eq!(bus.read16(RAM_START), Ok(0x0304));
    assert_eq!(bus.read16(RAM_START + 2), Ok(0x0102));
}

#[test]
fn misaligned_accesses_are_refused() {
    let mut bus = fresh_bus(4096);
    assert_eq!(bus.read16(RAM_START + 1), Err(BusException::LoadAddressMisaligned));
    assert_eq!(bus.read32(RAM_START + 2), Err(BusException::LoadAddressMisaligned));
    assert_eq!(bus.write16(RAM_START + 1, 1), Err(BusException::StoreAddressMisaligned));
    assert_eq!(bus.write32(RAM_START + 2, 1), Err(BusException::StoreAddressMisaligned));
}

#[test]
fn out_of_range_ram_access_faults() {
    let mut bus = fresh_bus(4096);
    assert_eq!(bus.read8(RAM_START + 4096), Err(BusException::LoadAccessFault));
    assert_eq!(bus.read32(RAM_START + 4096), Err(BusException::LoadAccessFault));
    assert_eq!(bus.write8(RAM_START + 4096, 1), Err(BusException::StoreAccessFault));
    assert_eq!(bus.read8(0x0000_0010), Err(BusException::LoadAccessFault));
}

#[test]
fn syscon_magic_values_switch_power_state() {
    let mut bus = fresh_bus(64);
    bus.write16(0x1110_0000, 0x5555).unwrap();
    assert!(bus.power_off);
    let mut bus = fresh_bus(64);
    bus.write32(0x1110_0000, 0x7777).unwrap();
    assert!(bus.reboot);
    let mut bus = fresh_bus(64);
    bus.write16(0x1110_0000, 0x1234).unwrap();
    assert!(!bus.power_off);
    assert!(!bus.reboot);
    assert_eq!(bus.clint.msip, 0x1234);
}

#[test]
fn byte_store_to_syscon_never_powers_off() {
    let mut bus = fresh_bus(64);
    bus.write8(0x1110_0000, 0x55).unwrap();
    assert!(!bus.power_off);
    assert_eq!(bus.clint.msip, 0x55);
}

#[test]
fn mtimecmp_halves_read_and_write_through_the_bus() {
    let mut bus = fresh_bus(64);
    bus.write32(0x1100_4000, 0x89AB_CDEF).unwrap();
    bus.write32(0x1100_4004, 0x0123_4567).unwrap();
    assert_eq!(bus.clint.mtimecmp, 0x0123_4567_89AB_CDEF);
    assert_eq!(bus.read32(0x1100_4000), Ok(0x89AB_CDEF));
    assert_eq!(bus.read32(0x1100_4004), Ok(0x0123_4567));
}

#[test]
fn mtime_reads_through_the_bus() {
    let mut bus = fresh_bus(64);
    let mut mip: u32 = 0;
    bus.step(0x1_0000_0005, &mut mip);
    assert_eq!(bus.read32(0x1100_BFF8), Ok(5));
    assert_eq!(bus.read32(0x1100_BFFC), Ok(1));
}

#[test]
fn bus_step_maintains_mtip() {
    let mut bus = fresh_bus(64);
    bus.clint.mtimecmp = 10;
    bus.clint.msip = 1;
    let mut mip: u32 = 0;
    bus.step(4, &mut mip);
    assert_eq!(mip & 0x80, 0); // mtime 4 < 10
    bus.step(6, &mut mip);
    assert_eq!(mip & 0x80, 0x80); // mtime 10 >= 10 and msip != 0
    bus.clint.msip = 0;
    bus.step(1, &mut mip);
    assert_eq!(mip & 0x80, 0); // cleared again: msip is zero
}

#[test]
fn clint_registers_by_offset() {
    let mut clint = Clint::new();
    clint.write(0x4000, 5);
    assert!(!clint.step(3)); // mtime 3 < mtimecmp 5
    clint.write(0, 1); // msip
    assert!(clint.step(2)); // mtime 5 >= 5 and msip != 0
    assert_eq!(clint.read(0xBFF8), 5);
    assert_eq!(clint.read(0xBFFC), 0);
    assert_eq!(clint.read(0x4000), 5);
}

#[test]
fn uart_data_and_line_status() {
    let mut uart = Uart::new();
    assert_eq!(uart.read(5), 0x60);
    assert_eq!(uart.read(0), 0);
    uart.input.push(b'h');
    uart.input.push(b'i');
    assert_eq!(uart.read(5), 0x61);
    assert_eq!(uart.read(0), b'h');
    assert_eq!(uart.read(0), b'i');
    assert_eq!(uart.read(0), 0);
    uart.write(0, 65);
    uart.write(3, 99); // not the data register: dropped
    assert_eq!(uart.output, vec![65]);
}

#[test]
fn timer_reports_deltas() {
    let mut t = Timer::new();
    assert_eq!(t.as_micros(100), 100);
    assert_eq!(t.as_micros(150), 50);
    assert_eq!(t.as_micros(100), 0); // a reading that went backwards
    assert_eq!(t.as_micros(160), 60);
}

#[test]
fn signed_division_edge_cases() {
    assert_eq!(div_signed(5, 0), 0xFFFF_FFFF);
    assert_eq!(rem_signed(5, 0), 5);
    assert_eq!(div_signed(0x8000_0000, 0xFFFF_FFFF), 0x8000_0000); // INT_MIN / -1
    assert_eq!(rem_signed(0x8000_0000, 0xFFFF_FFFF), 0);
    assert_eq!(div_signed(0xFFFF_FFFD, 7), 0); // -3 / 7 rounds toward zero
    assert_eq!(rem_signed(0xFFFF_FFFD, 7), 0xFFFF_FFFD); // remainder -3
    assert_eq!(div_signed(21, 0xFFFF_FFFE), 0xFFFF_FFF6); // 21 / -2 = -10
    assert_eq!(rem_signed(21, 0xFFFF_FFFE), 1);
}
