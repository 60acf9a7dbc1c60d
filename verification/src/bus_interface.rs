//! The bus capability surface the CPU consumes: widths 8, 16 and 32 of
//! reading and writing, the step that drives the timer, and the power
//! signals, together with the exception codes a bus access can raise.

use vstd::prelude::*;

verus! {

/// The ways a bus access can fail; each maps to an architectural trap.
#[derive(Debug, Clone, Copy, PartialEq, Eq, Structural)]
pub enum BusException {
    LoadAddressMisaligned,
    LoadAccessFault,
    StoreAddressMisaligned,
    StoreAccessFault,
}

/// Control capabilities of a bus: advancing its devices by the elapsed
/// microseconds (maintaining the timer-interrupt bit in `mip`), and the
/// power-off and reboot signals raised through syscon.
pub trait BusController {
    fn step(&mut self, delta_us: u64, mip: &mut u32);

    fn power_off(&self) -> bool;

    fn reboot(&self) -> bool;
}

/// Read capabilities of a bus, at each access width.
pub trait BusReader {
    fn read8(&mut self, addr: u32) -> Result<u8, BusException>;

    fn read16(&mut self, addr: u32) -> Result<u16, BusException>;

    fn read32(&mut self, addr: u32) -> Result<u32, BusException>;
}

/// Write capabilities of a bus, at each access width.
pub trait BusWriter {
    fn write8(&mut self, addr: u32, v: u8) -> Result<(), BusException>;

    fn write16(&mut self, addr: u32, v: u16) -> Result<(), BusException>;

    fn write32(&mut self, addr: u32, v: u32) -> Result<(), BusException>;
}

} // verus!
