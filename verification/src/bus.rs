//! The memory-mapped bus: address decoding over RAM, the CLINT registers,
//! the serial window and the syscon power register, with endian-correct RAM
//! access at widths 8, 16 and 32.

use vstd::prelude::*;

use crate::bus_interface::{BusController, BusException, BusReader, BusWriter};
use crate::clint::{clint_after_write, clint_pending, clint_read_val, Clint, ClintView};
use crate::uart::{uart_after_read, uart_after_write, uart_read_val, Uart, UartView};
use crate::words::{byte32, byte_of32, clip32, clip64, le16, le32, word_from_le16, word_from_le32, wsub};

verus! {

/// Base physical address of RAM.
pub const RAM_START: u32 = 0x8000_0000;

/// Physical address of the low half of `mtimecmp`.
pub const MTIMECMP_LO_ADDR: u32 = 0x1100_4000;

/// Physical address of the high half of `mtimecmp`.
pub const MTIMECMP_HI_ADDR: u32 = 0x1100_4004;

/// Physical address of the low half of `mtime`.
pub const MTIME_LO_ADDR: u32 = 0x1100_bff8;

/// Physical address of the high half of `mtime`.
pub const MTIME_HI_ADDR: u32 = 0x1100_bffc;

/// Physical address of the dual-purpose syscon / `msip` register.
pub const SYSCON_ADDR: u32 = 0x1110_0000;

/// Value whose 16- or 32-bit store to syscon requests power-off.
pub const SYSCON_POWER_OFF: u32 = 0x5555;

/// Value whose 16- or 32-bit store to syscon requests reboot.
pub const SYSCON_REBOOT: u32 = 0x7777;

/// The mathematical state of the bus and the devices it owns.
pub ghost struct BusView {
    pub ram: Seq<u8>,
    pub clint: ClintView,
    pub uart: UartView,
    pub power_off: bool,
    pub reboot: bool,
}

/// The four addresses at which the CLINT's 64-bit registers are read.
pub open spec fn is_clint_addr(addr: u32) -> bool {
    addr == MTIME_LO_ADDR || addr == MTIME_HI_ADDR || addr == MTIMECMP_LO_ADDR || addr
        == MTIMECMP_HI_ADDR
}

/// The serial MMIO window; its low 16 address bits select a UART register.
pub open spec fn in_serial_window(addr: u32) -> bool {
    0x1000_0000 <= addr && addr <= 0x11ff_ffff
}

/// The RAM offset an address decodes to (reduced modulo 2^32, so an address
/// below `RAM_START` lands beyond any RAM of size below 2 GiB).
pub open spec fn ram_off(addr: u32) -> int {
    clip32(addr - RAM_START) as int
}

/// What an 8-bit read at `addr` returns.
pub open spec fn bus_read8_val(b: BusView, addr: u32) -> Result<u8, BusException> {
    if is_clint_addr(addr) {
        Ok((clint_read_val(b.clint, addr % 0x1_0000) % 0x100) as u8)
    } else if in_serial_window(addr) {
        Ok(uart_read_val(b.uart, addr % 0x1_0000))
    } else if ram_off(addr) + 1 <= b.ram.len() {
        Ok(b.ram[ram_off(addr)])
    } else {
        Err(BusException::LoadAccessFault)
    }
}

/// What a 16-bit read at `addr` returns.
pub open spec fn bus_read16_val(b: BusView, addr: u32) -> Result<u16, BusException> {
    if addr % 2 != 0 {
        Err(BusException::LoadAddressMisaligned)
    } else if is_clint_addr(addr) {
        Ok((clint_read_val(b.clint, addr % 0x1_0000) % 0x1_0000) as u16)
    } else if in_serial_window(addr) {
        Ok(uart_read_val(b.uart, addr % 0x1_0000) as u16)
    } else if ram_off(addr) + 2 <= b.ram.len() {
        Ok(le16(b.ram[ram_off(addr)], b.ram[ram_off(addr) + 1]))
    } else {
        Err(BusException::LoadAccessFault)
    }
}

/// What a 32-bit read at `addr` returns.
pub open spec fn bus_read32_val(b: BusView, addr: u32) -> Result<u32, BusException> {
    if addr % 4 != 0 {
        Err(BusException::LoadAddressMisaligned)
    } else if is_clint_addr(addr) {
        Ok(clint_read_val(b.clint, addr % 0x1_0000))
    } else if in_serial_window(addr) {
        Ok(uart_read_val(b.uart, addr % 0x1_0000) as u32)
    } else if ram_off(addr) + 4 <= b.ram.len() {
        Ok(
            le32(
                b.ram[ram_off(addr)],
                b.ram[ram_off(addr) + 1],
                b.ram[ram_off(addr) + 2],
                b.ram[ram_off(addr) + 3],
            ),
        )
    } else {
        Err(BusException::LoadAccessFault)
    }
}

/// The bus state after an aligned read reached the devices: only a read in
/// the serial window changes anything, by consuming a pending input byte.
pub open spec fn bus_after_read_hit(b: BusView, addr: u32) -> BusView {
    if !is_clint_addr(addr) && in_serial_window(addr) {
        BusView { uart: uart_after_read(b.uart, addr % 0x1_0000), ..b }
    } else {
        b
    }
}

pub open spec fn bus_after_read8(b: BusView, addr: u32) -> BusView {
    bus_after_read_hit(b, addr)
}

pub open spec fn bus_after_read16(b: BusView, addr: u32) -> BusView {
    if addr % 2 != 0 {
        b
    } else {
        bus_after_read_hit(b, addr)
    }
}

pub open spec fn bus_after_read32(b: BusView, addr: u32) -> BusView {
    if addr % 4 != 0 {
        b
    } else {
        bus_after_read_hit(b, addr)
    }
}

/// Whether an 8-bit write at `addr` succeeds (it never reaches syscon).
pub open spec fn bus_write8_res(b: BusView, addr: u32) -> Result<(), BusException> {
    if addr == SYSCON_ADDR || is_clint_addr(addr) || in_serial_window(addr) {
        Ok(())
    } else if ram_off(addr) + 1 <= b.ram.len() {
        Ok(())
    } else {
        Err(BusException::StoreAccessFault)
    }
}

/// The bus state after an 8-bit write of `v` at `addr`.
pub open spec fn bus_after_write8(b: BusView, addr: u32, v: u8) -> BusView {
    if addr == SYSCON_ADDR || is_clint_addr(addr) {
        BusView { clint: clint_after_write(b.clint, addr % 0x1_0000, v as u32), ..b }
    } else if in_serial_window(addr) {
        BusView { uart: uart_after_write(b.uart, addr % 0x1_0000, v as u32), ..b }
    } else if ram_off(addr) + 1 <= b.ram.len() {
        BusView { ram: b.ram.update(ram_off(addr), v), ..b }
    } else {
        b
    }
}

/// Whether a 16-bit write at `addr` succeeds.
pub open spec fn bus_write16_res(b: BusView, addr: u32) -> Result<(), BusException> {
    if addr % 2 != 0 {
        Err(BusException::StoreAddressMisaligned)
    } else if addr == SYSCON_ADDR || is_clint_addr(addr) || in_serial_window(addr) {
        Ok(())
    } else if ram_off(addr) + 2 <= b.ram.len() {
        Ok(())
    } else {
        Err(BusException::StoreAccessFault)
    }
}

/// The state after a write of `v` reached the syscon register: the two magic
/// values request power-off or reboot; anything else lands in `msip`.
pub open spec fn bus_after_syscon(b: BusView, v: u32) -> BusView {
    if v == SYSCON_POWER_OFF {
        BusView { power_off: true, ..b }
    } else if v == SYSCON_REBOOT {
        BusView { reboot: true, ..b }
    } else {
        BusView { clint: clint_after_write(b.clint, 0, v), ..b }
    }
}

/// The bus state after a 16-bit write of `v` at `addr`.
pub open spec fn bus_after_write16(b: BusView, addr: u32, v: u16) -> BusView {
    if addr % 2 != 0 {
        b
    } else if addr == SYSCON_ADDR {
        bus_after_syscon(b, v as u32)
    } else if is_clint_addr(addr) {
        BusView { clint: clint_after_write(b.clint, addr % 0x1_0000, v as u32), ..b }
    } else if in_serial_window(addr) {
        BusView { uart: uart_after_write(b.uart, addr % 0x1_0000, v as u32), ..b }
    } else if ram_off(addr) + 2 <= b.ram.len() {
        BusView {
            ram: b.ram.update(ram_off(addr), byte32(v as u32, 0)).update(
                ram_off(addr) + 1,
                byte32(v as u32, 1),
            ),
            ..b
        }
    } else {
        b
    }
}

/// Whether a 32-bit write at `addr` succeeds.
pub open spec fn bus_write32_res(b: BusView, addr: u32) -> Result<(), BusException> {
    if addr % 4 != 0 {
        Err(BusException::StoreAddressMisaligned)
    } else if addr == SYSCON_ADDR || is_clint_addr(addr) || in_serial_window(addr) {
        Ok(())
    } else if ram_off(addr) + 4 <= b.ram.len() {
        Ok(())
    } else {
        Err(BusException::StoreAccessFault)
    }
}

/// The bus state after a 32-bit write of `v` at `addr`.
pub open spec fn bus_after_write32(b: BusView, addr: u32, v: u32) -> BusView {
    if addr % 4 != 0 {
        b
    } else if addr == SYSCON_ADDR {
        bus_after_syscon(b, v)
    } else if is_clint_addr(addr) {
        BusView { clint: clint_after_write(b.clint, addr % 0x1_0000, v), ..b }
    } else if in_serial_window(addr) {
        BusView { uart: uart_after_write(b.uart, addr % 0x1_0000, v), ..b }
    } else if ram_off(addr) + 4 <= b.ram.len() {
        BusView {
            ram: b.ram.update(ram_off(addr), byte32(v, 0)).update(
                ram_off(addr) + 1,
                byte32(v, 1),
            ).update(ram_off(addr) + 2, byte32(v, 2)).update(ram_off(addr) + 3, byte32(v, 3)),
            ..b
        }
    } else {
        b
    }
}

/// The bus state after one step: `mtime` has advanced by the elapsed
/// microseconds.
pub open spec fn bus_after_step(b: BusView, delta_us: u64) -> BusView {
    BusView { clint: ClintView { mtime: clip64(b.clint.mtime + delta_us), ..b.clint }, ..b }
}

/// The `mip` CSR after a bus step: bit 7 (MTIP) is set while the CLINT
/// asserts the timer interrupt and cleared otherwise; other bits keep.
pub open spec fn mip_after_step(b: BusView, delta_us: u64, mip: u32) -> u32 {
    if clint_pending(bus_after_step(b, delta_us).clint) {
        mip | 0x80
    } else {
        mip & 0xffff_ff7f
    }
}

pub struct Bus {
    pub ram: Vec<u8>,
    pub clint: Clint,
    pub serial: Uart,
    pub power_off: bool,
    pub reboot: bool,
}

impl View for Bus {
    type V = BusView;

    open spec fn view(&self) -> BusView {
        BusView {
            ram: self.ram@,
            clint: self.clint@,
            uart: self.serial@,
            power_off: self.power_off,
            reboot: self.reboot,
        }
    }
}

impl Bus {
    pub fn new(ram: Vec<u8>, clint: Clint, serial: Uart) -> (b: Bus)
        ensures
            b@ == (BusView {
                ram: ram@,
                clint: clint@,
                uart: serial@,
                power_off: false,
                reboot: false,
            }),
    {
        Bus { ram, clint, serial, power_off: false, reboot: false }
    }

    pub fn clint(&self) -> (c: &Clint)
        ensures
            c@ == self@.clint,
    {
        &self.clint
    }

    /// Swap in a fresh RAM image, returning the old one.
    pub fn replace_ram(&mut self, ram: Vec<u8>) -> (out: Vec<u8>)
        ensures
            final(self)@ == (BusView { ram: ram@, ..old(self)@ }),
            out@ == old(self)@.ram,
    {
        let mut out = ram;
        core::mem::swap(&mut self.ram, &mut out);
        out
    }

    /// Advance the devices by the elapsed microseconds, maintaining the
    /// timer-interrupt bit in the CPU's `mip` shadow.
    pub fn step(&mut self, delta_us: u64, mip: &mut u32)
        ensures
            final(self)@ == bus_after_step(old(self)@, delta_us),
            *final(mip) == mip_after_step(old(self)@, delta_us, *old(mip)),
    {
        let pending = self.clint.step(delta_us);
        if pending {
            *mip = *mip | 0x80;
        } else {
            *mip = *mip & 0xffff_ff7f;
        }
    }

    /// 8-bit read at `addr`.
    pub fn read8(&mut self, addr: u32) -> (r: Result<u8, BusException>)
        ensures
            r == bus_read8_val(old(self)@, addr),
            final(self)@ == bus_after_read8(old(self)@, addr),
    {
        if addr == MTIME_LO_ADDR || addr == MTIME_HI_ADDR || addr == MTIMECMP_LO_ADDR || addr
            == MTIMECMP_HI_ADDR {
            Ok((self.clint.read(addr % 0x1_0000) % 0x100) as u8)
        } else if addr >= 0x1000_0000 && addr <= 0x11ff_ffff {
            Ok(self.serial.read(addr % 0x1_0000))
        } else {
            let off = wsub(addr, RAM_START);
            if (off as usize) < self.ram.len() {
                Ok(self.ram[off as usize])
            } else {
                Err(BusException::LoadAccessFault)
            }
        }
    }

    /// 16-bit read at `addr`, which must be 2-byte aligned.
    pub fn read16(&mut self, addr: u32) -> (r: Result<u16, BusException>)
        ensures
            r == bus_read16_val(old(self)@, addr),
            final(self)@ == bus_after_read16(old(self)@, addr),
    {
        if addr % 2 != 0 {
            return Err(BusException::LoadAddressMisaligned);
        }
        if addr == MTIME_LO_ADDR || addr == MTIME_HI_ADDR || addr == MTIMECMP_LO_ADDR || addr
            == MTIMECMP_HI_ADDR {
            Ok((self.clint.read(addr % 0x1_0000) % 0x1_0000) as u16)
        } else if addr >= 0x1000_0000 && addr <= 0x11ff_ffff {
            Ok(self.serial.read(addr % 0x1_0000) as u16)
        } else {
            let off = wsub(addr, RAM_START);
            let len = self.ram.len();
            if len >= 2 && (off as usize) <= len - 2 {
                let idx = off as usize;
                Ok(word_from_le16(self.ram[idx], self.ram[idx + 1]))
            } else {
                Err(BusException::LoadAccessFault)
            }
        }
    }

    /// 32-bit read at `addr`, which must be 4-byte aligned.
    pub fn read32(&mut self, addr: u32) -> (r: Result<u32, BusException>)
        ensures
            r == bus_read32_val(old(self)@, addr),
            final(self)@ == bus_after_read32(old(self)@, addr),
    {
        if addr % 4 != 0 {
            return Err(BusException::LoadAddressMisaligned);
        }
        if addr == MTIME_LO_ADDR || addr == MTIME_HI_ADDR || addr == MTIMECMP_LO_ADDR || addr
            == MTIMECMP_HI_ADDR {
            Ok(self.clint.read(addr % 0x1_0000))
        } else if addr >= 0x1000_0000 && addr <= 0x11ff_ffff {
            Ok(self.serial.read(addr % 0x1_0000) as u32)
        } else {
            let off = wsub(addr, RAM_START);
            let len = self.ram.len();
            if len >= 4 && (off as usize) <= len - 4 {
                let idx = off as usize;
                Ok(
                    word_from_le32(
                        self.ram[idx],
                        self.ram[idx + 1],
                        self.ram[idx + 2],
                        self.ram[idx + 3],
                    ),
                )
            } else {
                Err(BusException::LoadAccessFault)
            }
        }
    }

    /// 8-bit write at `addr`; a byte store never reaches syscon, so a byte
    /// store of a magic power value lands in `msip` instead.
    pub fn write8(&mut self, addr: u32, v: u8) -> (r: Result<(), BusException>)
        ensures
            r == bus_write8_res(old(self)@, addr),
            final(self)@ == bus_after_write8(old(self)@, addr, v),
    {
        if addr == SYSCON_ADDR || addr == MTIME_LO_ADDR || addr == MTIME_HI_ADDR || addr
            == MTIMECMP_LO_ADDR || addr == MTIMECMP_HI_ADDR {
            self.clint.write(addr % 0x1_0000, v as u32);
            Ok(())
        } else if addr >= 0x1000_0000 && addr <= 0x11ff_ffff {
            self.serial.write(addr % 0x1_0000, v as u32);
            Ok(())
        } else {
            let off = wsub(addr, RAM_START);
            if (off as usize) < self.ram.len() {
                self.ram.set(off as usize, v);
                Ok(())
            } else {
                Err(BusException::StoreAccessFault)
            }
        }
    }

    /// 16-bit write at `addr`, which must be 2-byte aligned.
    pub fn write16(&mut self, addr: u32, v: u16) -> (r: Result<(), BusException>)
        ensures
            r == bus_write16_res(old(self)@, addr),
            final(self)@ == bus_after_write16(old(self)@, addr, v),
    {
        if addr % 2 != 0 {
            return Err(BusException::StoreAddressMisaligned);
        }
        if addr == SYSCON_ADDR {
            self.syscon(v as u32);
            Ok(())
        } else if addr == MTIME_LO_ADDR || addr == MTIME_HI_ADDR || addr == MTIMECMP_LO_ADDR
            || addr == MTIMECMP_HI_ADDR {
            self.clint.write(addr % 0x1_0000, v as u32);
            Ok(())
        } else if addr >= 0x1000_0000 && addr <= 0x11ff_ffff {
            self.serial.write(addr % 0x1_0000, v as u32);
            Ok(())
        } else {
            let off = wsub(addr, RAM_START);
            let len = self.ram.len();
            if len >= 2 && (off as usize) <= len - 2 {
                let idx = off as usize;
                self.ram.set(idx, byte_of32(v as u32, 0));
                self.ram.set(idx + 1, byte_of32(v as u32, 1));
                Ok(())
            } else {
                Err(BusException::StoreAccessFault)
            }
        }
    }

    /// 32-bit write at `addr`, which must be 4-byte aligned.
    pub fn write32(&mut self, addr: u32, v: u32) -> (r: Result<(), BusException>)
        ensures
            r == bus_write32_res(old(self)@, addr),
            final(self)@ == bus_after_write32(old(self)@, addr, v),
    {
        if addr % 4 != 0 {
            return Err(BusException::StoreAddressMisaligned);
        }
        if addr == SYSCON_ADDR {
            self.syscon(v);
            Ok(())
        } else if addr == MTIME_LO_ADDR || addr == MTIME_HI_ADDR || addr == MTIMECMP_LO_ADDR
            || addr == MTIMECMP_HI_ADDR {
            self.clint.write(addr % 0x1_0000, v);
            Ok(())
        } else if addr >= 0x1000_0000 && addr <= 0x11ff_ffff {
            self.serial.write(addr % 0x1_0000, v);
            Ok(())
        } else {
            let off = wsub(addr, RAM_START);
            let len = self.ram.len();
            if len >= 4 && (off as usize) <= len - 4 {
                let idx = off as usize;
                self.ram.set(idx, byte_of32(v, 0));
                self.ram.set(idx + 1, byte_of32(v, 1));
                self.ram.set(idx + 2, byte_of32(v, 2));
                self.ram.set(idx + 3, byte_of32(v, 3));
                Ok(())
            } else {
                Err(BusException::StoreAccessFault)
            }
        }
    }

    /// A wide write that reached the syscon register.
    fn syscon(&mut self, v: u32)
        ensures
            final(self)@ == bus_after_syscon(old(self)@, v),
    {
        if v == SYSCON_POWER_OFF {
            self.power_off = true;
        } else if v == SYSCON_REBOOT {
            self.reboot = true;
        } else {
            self.clint.write(0, v);
        }
    }
}

impl BusController for Bus {
    fn step(&mut self, delta_us: u64, mip: &mut u32) {
        Bus::step(self, delta_us, mip)
    }

    fn power_off(&self) -> bool {
        self.power_off
    }

    fn reboot(&self) -> bool {
        self.reboot
    }
}

impl BusReader for Bus {
    fn read8(&mut self, addr: u32) -> Result<u8, BusException> {
        Bus::read8(self, addr)
    }

    fn read16(&mut self, addr: u32) -> Result<u16, BusException> {
        Bus::read16(self, addr)
    }

    fn read32(&mut self, addr: u32) -> Result<u32, BusException> {
        Bus::read32(self, addr)
    }
}

impl BusWriter for Bus {
    fn write8(&mut self, addr: u32, v: u8) -> Result<(), BusException> {
        Bus::write8(self, addr, v)
    }

    fn write16(&mut self, addr: u32, v: u16) -> Result<(), BusException> {
        Bus::write16(self, addr, v)
    }

    fn write32(&mut self, addr: u32, v: u32) -> Result<(), BusException> {
        Bus::write32(self, addr, v)
    }
}

} // verus!
