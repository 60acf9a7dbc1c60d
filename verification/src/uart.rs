//! The serial console endpoint, modelled as a pair of byte queues. The host
//! feeds keyboard bytes into `input` between steps and drains `output` to its
//! terminal; the guest reaches both through the two UART registers.

use vstd::prelude::*;

verus! {

/// Offset of the UART data register in the serial window.
pub const UART_DATA: u32 = 0x000;

/// Offset of the UART line-status register in the serial window.
pub const UART_LINE_STATUS: u32 = 0x005;

/// The mathematical state of the console: bytes not yet read by the guest,
/// and words the guest has written.
pub ghost struct UartView {
    pub input: Seq<u8>,
    pub output: Seq<u32>,
}

/// What a read of UART register `addr` returns: the line-status register
/// reports `0x60` with its low bit signalling input available; the data
/// register yields the next pending byte, or 0 when none is pending.
pub open spec fn uart_read_val(u: UartView, addr: u32) -> u8 {
    if addr == UART_LINE_STATUS {
        if u.input.len() > 0 {
            0x61
        } else {
            0x60
        }
    } else if addr == UART_DATA {
        if u.input.len() > 0 {
            u.input[0]
        } else {
            0
        }
    } else {
        0
    }
}

/// The console state after a read: a read of the data register consumes the
/// pending byte; every other read leaves the state unchanged.
pub open spec fn uart_after_read(u: UartView, addr: u32) -> UartView {
    if addr == UART_DATA && u.input.len() > 0 {
        UartView { input: u.input.drop_first(), output: u.output }
    } else {
        u
    }
}

/// The console state after a write: a write to the data register appends the
/// word to the output; every other write is discarded.
pub open spec fn uart_after_write(u: UartView, addr: u32, v: u32) -> UartView {
    if addr == UART_DATA {
        UartView { input: u.input, output: u.output.push(v) }
    } else {
        u
    }
}

/// The capability set a serial endpoint offers the bus: byte-granular reads
/// and word writes at 16-bit register offsets.
pub trait SerialInterface {
    fn read(&mut self, addr: u32) -> u8;

    fn write(&mut self, addr: u32, v: u32);
}

pub struct Uart {
    pub input: Vec<u8>,
    pub output: Vec<u32>,
}

impl View for Uart {
    type V = UartView;

    open spec fn view(&self) -> UartView {
        UartView { input: self.input@, output: self.output@ }
    }
}

impl Uart {
    pub fn new() -> (u: Uart)
        ensures
            u@.input.len() == 0,
            u@.output.len() == 0,
    {
        Uart { input: Vec::new(), output: Vec::new() }
    }

    /// Read UART register `addr`, consuming a pending input byte when the
    /// data register is read.
    pub fn read(&mut self, addr: u32) -> (r: u8)
        ensures
            r == uart_read_val(old(self)@, addr),
            final(self)@ == uart_after_read(old(self)@, addr),
    {
        if addr == UART_LINE_STATUS {
            if self.input.len() > 0 {
                0x61
            } else {
                0x60
            }
        } else if addr == UART_DATA {
            if self.input.len() > 0 {
                let b = self.input.remove(0);
                proof {
                    assert(self.input@ =~= old(self).input@.drop_first());
                }
                b
            } else {
                0
            }
        } else {
            0
        }
    }

    /// Write UART register `addr`: a write of the data register queues the
    /// word for the host console.
    pub fn write(&mut self, addr: u32, v: u32)
        ensures
            final(self)@ == uart_after_write(old(self)@, addr, v),
    {
        if addr == UART_DATA {
            self.output.push(v);
        }
    }
}

impl SerialInterface for Uart {
    fn read(&mut self, addr: u32) -> u8 {
        Uart::read(self, addr)
    }

    fn write(&mut self, addr: u32, v: u32) {
        Uart::write(self, addr, v)
    }
}

} // verus!
