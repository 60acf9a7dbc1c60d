//! The core-local interruptor: a 64-bit monotonic `mtime`, a 64-bit
//! `mtimecmp` compare register and an `msip` word. A timer interrupt is
//! pending while `msip` is non-zero and `mtime` has reached `mtimecmp`.

use vstd::prelude::*;

use crate::words::{
    clip64, hi32, lo32, set_hi32, set_lo32, half_hi, half_lo, wadd64, with_hi, with_lo,
};

verus! {

/// 16-bit offset of the low half of `mtimecmp`.
pub const CLINT_MTIMECMP_LO: u32 = 0x4000;

/// 16-bit offset of the high half of `mtimecmp`.
pub const CLINT_MTIMECMP_HI: u32 = 0x4004;

/// 16-bit offset of the low half of `mtime`.
pub const CLINT_MTIME_LO: u32 = 0xbff8;

/// 16-bit offset of the high half of `mtime`.
pub const CLINT_MTIME_HI: u32 = 0xbffc;

/// 16-bit offset of the `msip` software-interrupt word.
pub const CLINT_MSIP: u32 = 0x0000;

pub ghost struct ClintView {
    pub mtime: u64,
    pub mtimecmp: u64,
    pub msip: u32,
}

/// Whether the CLINT asserts the machine timer interrupt.
pub open spec fn clint_pending(c: ClintView) -> bool {
    c.msip != 0 && c.mtime >= c.mtimecmp
}

/// The 32-bit register the CLINT exposes at 16-bit offset `off`; any other
/// offset reads as zero.
pub open spec fn clint_read_val(c: ClintView, off: u32) -> u32 {
    if off == CLINT_MTIME_LO {
        lo32(c.mtime)
    } else if off == CLINT_MTIME_HI {
        hi32(c.mtime)
    } else if off == CLINT_MTIMECMP_LO {
        lo32(c.mtimecmp)
    } else if off == CLINT_MTIMECMP_HI {
        hi32(c.mtimecmp)
    } else if off == CLINT_MSIP {
        c.msip
    } else {
        0
    }
}

/// The CLINT state after a 32-bit write of `v` at 16-bit offset `off`; any
/// other offset ignores the write.
pub open spec fn clint_after_write(c: ClintView, off: u32, v: u32) -> ClintView {
    if off == CLINT_MTIME_LO {
        ClintView { mtime: set_lo32(c.mtime, v), ..c }
    } else if off == CLINT_MTIME_HI {
        ClintView { mtime: set_hi32(c.mtime, v), ..c }
    } else if off == CLINT_MTIMECMP_LO {
        ClintView { mtimecmp: set_lo32(c.mtimecmp, v), ..c }
    } else if off == CLINT_MTIMECMP_HI {
        ClintView { mtimecmp: set_hi32(c.mtimecmp, v), ..c }
    } else if off == CLINT_MSIP {
        ClintView { msip: v, ..c }
    } else {
        c
    }
}

pub struct Clint {
    pub mtime: u64,
    pub mtimecmp: u64,
    pub msip: u32,
}

impl View for Clint {
    type V = ClintView;

    open spec fn view(&self) -> ClintView {
        ClintView { mtime: self.mtime, mtimecmp: self.mtimecmp, msip: self.msip }
    }
}

impl Clint {
    pub fn new() -> (c: Clint)
        ensures
            c@ == (ClintView { mtime: 0u64, mtimecmp: 0u64, msip: 0u32 }),
    {
        Clint { mtime: 0, mtimecmp: 0, msip: 0 }
    }

    /// Advance `mtime` by the elapsed microseconds and report whether the
    /// timer interrupt is pending afterwards.
    pub fn step(&mut self, delta_us: u64) -> (pending: bool)
        ensures
            final(self)@ == (ClintView { mtime: clip64(old(self)@.mtime + delta_us), ..old(self)@ }),
            pending == clint_pending(final(self)@),
    {
        self.mtime = wadd64(self.mtime, delta_us);
        self.msip != 0 && self.mtime >= self.mtimecmp
    }

    /// Read the register at 16-bit offset `off`.
    pub fn read(&self, off: u32) -> (r: u32)
        ensures
            r == clint_read_val(self@, off),
    {
        if off == CLINT_MTIME_LO {
            half_lo(self.mtime)
        } else if off == CLINT_MTIME_HI {
            half_hi(self.mtime)
        } else if off == CLINT_MTIMECMP_LO {
            half_lo(self.mtimecmp)
        } else if off == CLINT_MTIMECMP_HI {
            half_hi(self.mtimecmp)
        } else if off == CLINT_MSIP {
            self.msip
        } else {
            0
        }
    }

    /// Write `v` to the register at 16-bit offset `off`.
    pub fn write(&mut self, off: u32, v: u32)
        ensures
            final(self)@ == clint_after_write(old(self)@, off, v),
    {
        if off == CLINT_MTIME_LO {
            self.mtime = with_lo(self.mtime, v);
        } else if off == CLINT_MTIME_HI {
            self.mtime = with_hi(self.mtime, v);
        } else if off == CLINT_MTIMECMP_LO {
            self.mtimecmp = with_lo(self.mtimecmp, v);
        } else if off == CLINT_MTIMECMP_HI {
            self.mtimecmp = with_hi(self.mtimecmp, v);
        } else if off == CLINT_MSIP {
            self.msip = v;
        }
    }
}

} // verus!
