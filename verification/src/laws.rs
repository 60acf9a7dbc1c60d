//! The architectural invariants of the machine, stated and proved over the
//! step model: the zero register, the plain pc advance, trap entry, MRET,
//! the RAM round trip, the store-conditional success condition and the
//! division edge cases.

use vstd::prelude::*;

use crate::bus::{
    bus_after_step, bus_after_write8, bus_after_write16, bus_after_write32, bus_read8_val,
    bus_read16_val, bus_read32_val, bus_write32_res, in_serial_window, is_clint_addr,
    mip_after_step, ram_off, BusView,
};
use crate::cpu::{
    atomic_v, cpu_wf, csr_of, exec_instr, funct3_of, funct5_of, mode_code, mode_from_code, mret_v,
    opcode_of, rd_of, rs1_of, rs2_of, spec_step, trap_v, CpuState, CpuView, PrivilegeMode,
};
use crate::words::{
    clip32, div_rv, divu_rv, lemma_clip32_add, lemma_clip32_id, lemma_le16_roundtrip,
    lemma_le32_roundtrip, rem_rv, remu_rv,
};

verus! {

/// The zero register stays zero: a well-formed machine is well-formed after
/// every step, and well-formedness pins x0 to 0.
pub proof fn lemma_step_preserves_x0(m: CpuView, delta_us: u64)
    requires
        cpu_wf(m),
    ensures
        cpu_wf(spec_step(m, delta_us).0),
        spec_step(m, delta_us).0.x[0] == 0,
{
}

/// A step that delivers no interrupt, whose fetch succeeds, whose
/// instruction is not a jump, a branch or MRET, and which raises no trap,
/// advances pc by exactly 4 (modulo 2^32).
pub proof fn lemma_plain_step_advances_pc(m: CpuView, delta_us: u64)
    requires
        cpu_wf(m),
        ({
            let mip1 = mip_after_step(m.bus, delta_us, m.mip);
            let bus1 = bus_after_step(m.bus, delta_us);
            let fetched = bus_read32_val(bus1, m.pc);
            &&& !(mip1 & 0x80 == 0 && m.wfi)
            &&& !(mip1 & 0x80 != 0 && m.mie & 0x80 != 0 && m.mstatus & 8 != 0)
            &&& fetched is Ok
            &&& ({
                let ir = fetched->Ok_0;
                let m4 = CpuView {
                    bus: crate::bus::bus_after_read32(bus1, m.pc),
                    mip: mip1,
                    wfi: false,
                    cycle: crate::words::clip64(m.cycle + 1),
                    ..m
                };
                &&& opcode_of(ir) != 0x6f
                &&& opcode_of(ir) != 0x67
                &&& opcode_of(ir) != 0x63
                &&& !(opcode_of(ir) == 0x73 && funct3_of(ir) == 0 && csr_of(ir) % 0x100 == 0x02)
                &&& exec_instr(m4, ir).exception == 0
            })
        }),
    ensures
        spec_step(m, delta_us).0.pc == clip32(m.pc + 4),
{
}

/// A pending and enabled timer interrupt is delivered at the step boundary:
/// the step stays active, takes cause 0x8000_0007 with mtval 0, jumps to
/// mtvec, records the interrupted pc in mepc, and clears any wait state.
pub proof fn lemma_timer_interrupt_delivery(m: CpuView, delta_us: u64)
    requires
        cpu_wf(m),
        mip_after_step(m.bus, delta_us, m.mip) & 0x80 != 0,
        m.mie & 0x80 != 0,
        m.mstatus & 8 != 0,
    ensures
        spec_step(m, delta_us).1 == CpuState::Active,
        spec_step(m, delta_us).0.mcause == 0x8000_0007,
        spec_step(m, delta_us).0.mtval == 0,
        spec_step(m, delta_us).0.pc == m.mtvec,
        spec_step(m, delta_us).0.mepc == m.pc,
        !spec_step(m, delta_us).0.wfi,
{
}

/// While the hart waits for an interrupt and none is pending, a step is
/// idle: no instruction runs, and neither pc nor the registers nor the
/// cycle counter move; only the timer advances.
pub proof fn lemma_wfi_step_idles(m: CpuView, delta_us: u64)
    requires
        cpu_wf(m),
        m.wfi,
        mip_after_step(m.bus, delta_us, m.mip) & 0x80 == 0,
    ensures
        spec_step(m, delta_us).1 == CpuState::Idle,
        spec_step(m, delta_us).0.pc == m.pc,
        spec_step(m, delta_us).0.x == m.x,
        spec_step(m, delta_us).0.cycle == m.cycle,
        spec_step(m, delta_us).0.wfi,
        spec_step(m, delta_us).0.bus == bus_after_step(m.bus, delta_us),
{
}

/// Trap entry: mepc takes the pc observed at entry, the mode becomes
/// Machine, mstatus.MIE is cleared with the old MIE saved into MPIE, and
/// mstatus.MPP encodes the mode being left; pc jumps to mtvec and mcause
/// takes the pending code.
pub proof fn lemma_trap_entry(m: CpuView)
    ensures
        trap_v(m).mepc == m.pc,
        trap_v(m).previous_mode == PrivilegeMode::Machine,
        trap_v(m).mstatus & 0x8 == 0,
        (trap_v(m).mstatus >> 11) & 3 == mode_code(m.previous_mode),
        (trap_v(m).mstatus >> 7) & 1 == (m.mstatus >> 3) & 1,
        trap_v(m).pc == m.mtvec,
        trap_v(m).mcause == m.exception,
{
    let s = m.mstatus;
    let p = mode_code(m.previous_mode);
    assert(p <= 3) by {
        match m.previous_mode {
            PrivilegeMode::User => {},
            PrivilegeMode::SuperVisor => {},
            PrivilegeMode::Reserved => {},
            PrivilegeMode::Machine => {},
        }
    }
    assert((((s & 0x08) << 4) | (p << 11)) & 0x8 == 0 && ((((s & 0x08) << 4) | (p << 11)) >> 11)
        & 3 == p && ((((s & 0x08) << 4) | (p << 11)) >> 7) & 1 == (s >> 3) & 1) by (bit_vector)
        requires
            p <= 3,
    ;
}

/// MRET: mstatus.MIE is restored from the pre-trap MPIE, MPIE is forced to
/// 1, the privilege mode returns to the one mstatus.MPP encoded, and (after
/// the step's common advance of 4) pc returns to mepc.
pub proof fn lemma_mret(m: CpuView, ir: u32)
    ensures
        (mret_v(m, ir).mstatus >> 3) & 1 == (m.mstatus >> 7) & 1,
        (mret_v(m, ir).mstatus >> 7) & 1 == 1,
        mret_v(m, ir).previous_mode == mode_from_code((m.mstatus >> 11) % 4),
        clip32(mret_v(m, ir).pc + 4) == m.mepc,
{
    let s = m.mstatus;
    let p = mode_code(m.previous_mode);
    assert(p <= 3) by {
        match m.previous_mode {
            PrivilegeMode::User => {},
            PrivilegeMode::SuperVisor => {},
            PrivilegeMode::Reserved => {},
            PrivilegeMode::Machine => {},
        }
    }
    assert(((((s & 0x80) >> 4) | (p << 11) | 0x80) >> 3) & 1 == (s >> 7) & 1 && ((((s & 0x80)
        >> 4) | (p << 11) | 0x80) >> 7) & 1 == 1) by (bit_vector)
        requires
            p <= 3,
    ;
    lemma_clip32_add(m.mepc - 4, 4);
    lemma_clip32_id(m.mepc as int);
}

/// RAM round trip, width 1: a byte written to a RAM address reads back.
pub proof fn lemma_ram_roundtrip8(b: BusView, addr: u32, v: u8)
    requires
        !is_clint_addr(addr),
        !in_serial_window(addr),
        ram_off(addr) + 1 <= b.ram.len(),
    ensures
        bus_read8_val(bus_after_write8(b, addr, v), addr) == Ok::<u8, crate::bus_interface::BusException>(v),
{
}

/// RAM round trip, width 2: an aligned half-word written to RAM reads back.
pub proof fn lemma_ram_roundtrip16(b: BusView, addr: u32, v: u16)
    requires
        addr % 2 == 0,
        !is_clint_addr(addr),
        !in_serial_window(addr),
        ram_off(addr) + 2 <= b.ram.len(),
    ensures
        bus_read16_val(bus_after_write16(b, addr, v), addr) == Ok::<u16, crate::bus_interface::BusException>(v),
{
    lemma_le16_roundtrip(v);
}

/// RAM round trip, width 4: an aligned word written to RAM reads back.
pub proof fn lemma_ram_roundtrip32(b: BusView, addr: u32, v: u32)
    requires
        addr % 4 == 0,
        !is_clint_addr(addr),
        !in_serial_window(addr),
        ram_off(addr) + 4 <= b.ram.len(),
    ensures
        bus_read32_val(bus_after_write32(b, addr, v), addr) == Ok::<u32, crate::bus_interface::BusException>(v),
{
    lemma_le32_roundtrip(v);
}

/// LR.W records the address it loaded from together with the loaded value.
pub proof fn lemma_lr_records(m: CpuView, ir: u32)
    requires
        cpu_wf(m),
        funct5_of(ir) == 2,
        bus_read32_val(m.bus, m.x[rs1_of(ir) as int]) is Ok,
    ensures
        atomic_v(m, ir).reservation == Some(
            (
                m.x[rs1_of(ir) as int],
                bus_read32_val(m.bus, m.x[rs1_of(ir) as int])->Ok_0,
            ),
        ),
{
}

/// SC.W writes rd = 0 exactly when the reservation matches the address and
/// the value loaded there still equals the reserved one; it consumes a
/// reservation for the address either way, so a second SC.W cannot succeed.
pub proof fn lemma_sc_conditional(m: CpuView, ir: u32)
    requires
        cpu_wf(m),
        funct5_of(ir) == 3,
        rd_of(ir) != 0,
        bus_read32_val(m.bus, m.x[rs1_of(ir) as int]) is Ok,
    ensures
        ({
            let a = m.x[rs1_of(ir) as int];
            let v = bus_read32_val(m.bus, a)->Ok_0;
            &&& (atomic_v(m, ir).x[rd_of(ir) as int] == 0 <==> m.reservation == Some((a, v)))
            &&& (m.reservation matches Some((ra, _)) && ra == a ==> atomic_v(m, ir).reservation
                is None)
        }),
{
    let a = m.x[rs1_of(ir) as int];
    let v = bus_read32_val(m.bus, a)->Ok_0;
    match m.reservation {
        Some((ra, rv)) => {
            if ra == a && rv == v {
                match bus_write32_res(crate::bus::bus_after_read32(m.bus, a), a) {
                    Ok(_) => {},
                    Err(_) => {},
                }
            }
        },
        None => {},
    }
}

/// The memory a successful SC.W leaves behind: when the reservation matches
/// and the word store succeeds, rd reads 0 and the stored word is rs2.
pub proof fn lemma_sc_success_stores(m: CpuView, ir: u32)
    requires
        cpu_wf(m),
        funct5_of(ir) == 3,
        rd_of(ir) != 0,
        bus_read32_val(m.bus, m.x[rs1_of(ir) as int]) is Ok,
        m.reservation == Some(
            (
                m.x[rs1_of(ir) as int],
                bus_read32_val(m.bus, m.x[rs1_of(ir) as int])->Ok_0,
            ),
        ),
        bus_write32_res(m.bus, m.x[rs1_of(ir) as int]) is Ok,
        !in_serial_window(m.x[rs1_of(ir) as int]),
    ensures
        atomic_v(m, ir).x[rd_of(ir) as int] == 0,
        atomic_v(m, ir).bus == bus_after_write32(
            m.bus,
            m.x[rs1_of(ir) as int],
            m.x[rs2_of(ir) as int],
        ),
{
}

/// The division edge cases: a zero divisor yields all-ones for DIV and
/// DIVU and the dividend for REM and REMU; the overflowing INT_MIN / -1
/// yields INT_MIN for DIV and 0 for REM.
pub proof fn lemma_division_edge_cases(x: u32)
    ensures
        div_rv(x, 0) == 0xffff_ffff,
        divu_rv(x, 0) == 0xffff_ffff,
        rem_rv(x, 0) == x,
        remu_rv(x, 0) == x,
        div_rv(0x8000_0000, 0xffff_ffff) == 0x8000_0000,
        rem_rv(0x8000_0000, 0xffff_ffff) == 0,
{
    lemma_clip32_id(0x8000_0000);
    lemma_clip32_id(0);
    assert(crate::words::s32(0x8000_0000) == -0x8000_0000);
    assert(crate::words::s32(0xffff_ffff) == -1);
    vstd::arithmetic::div_mod::lemma_div_basics(0x8000_0000);
    vstd::arithmetic::div_mod::lemma_fundamental_div_mod(0x8000_0000, 1);
    assert(crate::words::div_toward_zero(-0x8000_0000, -1) == 0x8000_0000);
    assert(crate::words::rem_toward_zero(-0x8000_0000, -1) == 0);
}

} // verus!
