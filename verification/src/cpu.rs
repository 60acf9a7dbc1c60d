//! The RV32IMA hart: fetch, decode and execute, CSRs, exceptions and
//! interrupts, and the LR/SC reservation. Every architectural effect of a
//! step is stated by `spec_step`, which `Cpu::step` is proved to implement.

use vstd::prelude::*;

use crate::bus::{
    bus_after_read8, bus_after_read16, bus_after_read32, bus_after_step, bus_after_write8,
    bus_after_write16, bus_after_write32, bus_read8_val, bus_read16_val, bus_read32_val,
    bus_write8_res, bus_write16_res, bus_write32_res, mip_after_step, Bus, BusView,
};
use crate::bus_interface::BusException;
use crate::words::{
    clip32, clip64, div_rv, div_signed, divu_rv, lo32, half_lo, mul_low, mul_low_exec,
    mulh_ss, mulh_su, mulh_uu, mulh_signed, mulh_signed_unsigned, mulh_unsigned, rem_rv,
    rem_signed, remu_rv, sext8, sext16, sign_extend8, sign_extend16, signed_lt, slt, sra32,
    shift_right_arithmetic, wadd, wadd64, wsub,
};

verus! {

// Exception codes, as they appear in the low half of mcause.
pub const EX_INSTRUCTION_ADDRESS_MISALIGNED: u32 = 0;
pub const EX_ILLEGAL_INSTRUCTION: u32 = 2;
pub const EX_BREAKPOINT: u32 = 3;
pub const EX_LOAD_ADDRESS_MISALIGNED: u32 = 4;
pub const EX_LOAD_ACCESS_FAULT: u32 = 5;
pub const EX_STORE_AMO_ADDRESS_MISALIGNED: u32 = 6;
pub const EX_STORE_AMO_ACCESS_FAULT: u32 = 7;
pub const EX_ENVIRONMENT_CALL_U: u32 = 8;
pub const EX_ENVIRONMENT_CALL_M: u32 = 11;

/// mcause value of the machine timer interrupt (interrupt bit plus code 7).
pub const INT_MACHINE_TIMER: u32 = 0x8000_0007;

/// The trap code a failed bus access raises.
pub open spec fn bus_ex_code(e: BusException) -> u32 {
    match e {
        BusException::LoadAddressMisaligned => EX_LOAD_ADDRESS_MISALIGNED,
        BusException::LoadAccessFault => EX_LOAD_ACCESS_FAULT,
        BusException::StoreAddressMisaligned => EX_STORE_AMO_ADDRESS_MISALIGNED,
        BusException::StoreAccessFault => EX_STORE_AMO_ACCESS_FAULT,
    }
}

pub fn bus_exception_code(e: BusException) -> (r: u32)
    ensures
        r == bus_ex_code(e),
{
    match e {
        BusException::LoadAddressMisaligned => EX_LOAD_ADDRESS_MISALIGNED,
        BusException::LoadAccessFault => EX_LOAD_ACCESS_FAULT,
        BusException::StoreAddressMisaligned => EX_STORE_AMO_ADDRESS_MISALIGNED,
        BusException::StoreAccessFault => EX_STORE_AMO_ACCESS_FAULT,
    }
}

#[derive(Debug, PartialEq, Eq, Structural, Clone, Copy)]
pub enum PrivilegeMode {
    User,
    SuperVisor,
    Reserved,
    Machine,
}

/// The two-bit encoding of a privilege mode, as stored in mstatus.MPP.
pub open spec fn mode_code(m: PrivilegeMode) -> u32 {
    match m {
        PrivilegeMode::User => 0,
        PrivilegeMode::SuperVisor => 1,
        PrivilegeMode::Reserved => 2,
        PrivilegeMode::Machine => 3,
    }
}

/// The privilege mode a two-bit encoding names.
pub open spec fn mode_from_code(v: u32) -> PrivilegeMode {
    if v == 0 {
        PrivilegeMode::User
    } else if v == 1 {
        PrivilegeMode::SuperVisor
    } else if v == 3 {
        PrivilegeMode::Machine
    } else {
        PrivilegeMode::Reserved
    }
}

pub fn mode_to_code(m: PrivilegeMode) -> (r: u32)
    ensures
        r == mode_code(m),
{
    match m {
        PrivilegeMode::User => 0,
        PrivilegeMode::SuperVisor => 1,
        PrivilegeMode::Reserved => 2,
        PrivilegeMode::Machine => 3,
    }
}

pub fn mode_of_code(v: u32) -> (r: PrivilegeMode)
    ensures
        r == mode_from_code(v),
{
    if v == 0 {
        PrivilegeMode::User
    } else if v == 1 {
        PrivilegeMode::SuperVisor
    } else if v == 3 {
        PrivilegeMode::Machine
    } else {
        PrivilegeMode::Reserved
    }
}

/// What a step reports: `Idle` while the hart waits for an interrupt,
/// `Active` otherwise.
#[derive(Debug, PartialEq, Eq, Structural, Clone, Copy)]
pub enum CpuState {
    Idle,
    Active,
}

// Instruction fields. Each field is the quoted bit range of the word.

/// Destination register: bits 7..12.
pub open spec fn rd_of(ir: u32) -> u32 {
    (ir >> 7) % 32
}

/// First source register: bits 15..20.
pub open spec fn rs1_of(ir: u32) -> u32 {
    (ir >> 15) % 32
}

/// Second source register: bits 20..25.
pub open spec fn rs2_of(ir: u32) -> u32 {
    (ir >> 20) % 32
}

/// Minor opcode: bits 12..15.
pub open spec fn funct3_of(ir: u32) -> u32 {
    (ir >> 12) % 8
}

/// Major opcode: bits 0..7.
pub open spec fn opcode_of(ir: u32) -> u32 {
    ir % 128
}

/// AMO function code: bits 27..32.
pub open spec fn funct5_of(ir: u32) -> u32 {
    ir >> 27
}

/// CSR address (or SYSTEM immediate): bits 20..32.
pub open spec fn csr_of(ir: u32) -> u32 {
    ir >> 20
}

/// Destination register index of `ir`.
pub fn rd(ir: u32) -> (r: usize)
    ensures
        r == rd_of(ir),
        r < 32,
{
    ((ir >> 7) % 32) as usize
}

/// First source register index of `ir`.
pub fn rs1(ir: u32) -> (r: usize)
    ensures
        r == rs1_of(ir),
        r < 32,
{
    ((ir >> 15) % 32) as usize
}

/// Second source register index of `ir`.
pub fn rs2(ir: u32) -> (r: usize)
    ensures
        r == rs2_of(ir),
        r < 32,
{
    ((ir >> 20) % 32) as usize
}

/// The sign-extended 12-bit I-type immediate.
pub open spec fn imm_i(ir: u32) -> u32 {
    if (ir >> 20) & 0x800 != 0 {
        (ir >> 20) | 0xffff_f000
    } else {
        ir >> 20
    }
}

pub fn imm_i_exec(ir: u32) -> (r: u32)
    ensures
        r == imm_i(ir),
{
    if (ir >> 20) & 0x800 != 0 {
        (ir >> 20) | 0xffff_f000
    } else {
        ir >> 20
    }
}

/// The sign-extended 12-bit S-type immediate (store offset).
pub open spec fn imm_s(ir: u32) -> u32 {
    let imm = ((ir >> 7) & 0x1f) | ((ir & 0xfe00_0000) >> 20);
    if imm & 0x800 != 0 {
        imm | 0xffff_f000
    } else {
        imm
    }
}

pub fn imm_s_exec(ir: u32) -> (r: u32)
    ensures
        r == imm_s(ir),
{
    let imm = ((ir >> 7) & 0x1f) | ((ir & 0xfe00_0000) >> 20);
    if imm & 0x800 != 0 {
        imm | 0xffff_f000
    } else {
        imm
    }
}

/// The sign-extended 13-bit B-type immediate (branch offset).
pub open spec fn imm_b(ir: u32) -> u32 {
    let imm = ((ir & 0xf00) >> 7) | ((ir & 0x7e00_0000) >> 20) | ((ir & 0x80) << 4) | ((ir >> 31)
        << 12);
    if imm & 0x1000 != 0 {
        imm | 0xffff_e000
    } else {
        imm
    }
}

pub fn imm_b_exec(ir: u32) -> (r: u32)
    ensures
        r == imm_b(ir),
{
    let imm = ((ir & 0xf00) >> 7) | ((ir & 0x7e00_0000) >> 20) | ((ir & 0x80) << 4) | ((ir >> 31)
        << 12);
    if imm & 0x1000 != 0 {
        imm | 0xffff_e000
    } else {
        imm
    }
}

/// The sign-extended 21-bit J-type immediate (jump offset).
pub open spec fn imm_j(ir: u32) -> u32 {
    let imm = ((ir & 0x8000_0000) >> 11) | ((ir & 0x7fe0_0000) >> 20) | ((ir & 0x0010_0000) >> 9)
        | (ir & 0x000f_f000);
    if imm & 0x0010_0000 != 0 {
        imm | 0xffe0_0000
    } else {
        imm
    }
}

pub fn imm_j_exec(ir: u32) -> (r: u32)
    ensures
        r == imm_j(ir),
{
    let imm = ((ir & 0x8000_0000) >> 11) | ((ir & 0x7fe0_0000) >> 20) | ((ir & 0x0010_0000) >> 9)
        | (ir & 0x000f_f000);
    if imm & 0x0010_0000 != 0 {
        imm | 0xffe0_0000
    } else {
        imm
    }
}

/// The mathematical state of the hart, bus included.
pub ghost struct CpuView {
    pub bus: BusView,
    pub x: Seq<u32>,
    pub pc: u32,
    pub mstatus: u32,
    pub cycle: u64,
    pub mscratch: u32,
    pub mtvec: u32,
    pub mie: u32,
    pub mip: u32,
    pub mepc: u32,
    pub mtval: u32,
    pub mcause: u32,
    pub exception: u32,
    pub cause: u32,
    pub wfi: bool,
    pub previous_mode: PrivilegeMode,
    pub reservation: Option<(u32, u32)>,
}

/// Well-formedness: 32 registers, with x0 hardwired to zero.
pub open spec fn cpu_wf(m: CpuView) -> bool {
    m.x.len() == 32 && m.x[0] == 0
}

/// The register file after a write-back: a write to x0 is discarded.
pub open spec fn upd_reg(x: Seq<u32>, rd: u32, v: u32) -> Seq<u32> {
    if rd == 0 {
        x
    } else {
        x.update(rd as int, v)
    }
}

// The per-instruction transition functions. Each takes the state after
// fetch (pc still at the instruction) and yields the state before the
// common trap check and pc advance of the step.

/// LUI: rd <- upper 20 bits of the instruction.
pub open spec fn lui_v(m: CpuView, ir: u32) -> CpuView {
    CpuView { x: upd_reg(m.x, rd_of(ir), ir & 0xffff_f000), ..m }
}

/// AUIPC: rd <- pc plus the upper 20 bits.
pub open spec fn auipc_v(m: CpuView, ir: u32) -> CpuView {
    CpuView { x: upd_reg(m.x, rd_of(ir), clip32(m.pc + (ir & 0xffff_f000))), ..m }
}

/// JAL: rd <- pc + 4, pc <- pc + offset (less the common advance of 4).
pub open spec fn jal_v(m: CpuView, ir: u32) -> CpuView {
    CpuView {
        x: upd_reg(m.x, rd_of(ir), clip32(m.pc + 4)),
        pc: clip32(m.pc + imm_j(ir) - 4),
        ..m
    }
}

/// JALR: rd <- pc + 4, pc <- (rs1 + offset) with bit 0 cleared.
pub open spec fn jalr_v(m: CpuView, ir: u32) -> CpuView {
    let t = clip32(m.x[rs1_of(ir) as int] + imm_i(ir));
    CpuView {
        x: upd_reg(m.x, rd_of(ir), clip32(m.pc + 4)),
        pc: clip32(t - (t % 2) - 4),
        ..m
    }
}

/// Whether the branch comparison selected by funct3 holds.
pub open spec fn branch_taken(f3: u32, a: u32, b: u32) -> bool {
    if f3 == 0 {
        a == b
    } else if f3 == 1 {
        a != b
    } else if f3 == 4 {
        slt(a, b)
    } else if f3 == 5 {
        !slt(a, b)
    } else if f3 == 6 {
        a < b
    } else {
        a >= b
    }
}

/// BRANCH: conditional pc change; funct3 2 and 3 are illegal.
pub open spec fn branch_v(m: CpuView, ir: u32) -> CpuView {
    let f3 = funct3_of(ir);
    if f3 == 2 || f3 == 3 {
        CpuView { exception: EX_ILLEGAL_INSTRUCTION, cause: ir, ..m }
    } else if branch_taken(f3, m.x[rs1_of(ir) as int], m.x[rs2_of(ir) as int]) {
        CpuView { pc: clip32(m.pc + imm_b(ir) - 4), ..m }
    } else {
        m
    }
}

/// LOAD: rd <- memory at rs1 + offset, extended per funct3; a bus error
/// records the corresponding trap with the faulting address.
pub open spec fn load_v(m: CpuView, ir: u32) -> CpuView {
    let a = clip32(m.x[rs1_of(ir) as int] + imm_i(ir));
    let f3 = funct3_of(ir);
    if f3 == 0 {
        match bus_read8_val(m.bus, a) {
            Ok(v) => CpuView {
                x: upd_reg(m.x, rd_of(ir), sext8(v)),
                bus: bus_after_read8(m.bus, a),
                ..m
            },
            Err(e) => CpuView { exception: bus_ex_code(e), cause: a, ..m },
        }
    } else if f3 == 1 {
        match bus_read16_val(m.bus, a) {
            Ok(v) => CpuView {
                x: upd_reg(m.x, rd_of(ir), sext16(v)),
                bus: bus_after_read16(m.bus, a),
                ..m
            },
            Err(e) => CpuView { exception: bus_ex_code(e), cause: a, ..m },
        }
    } else if f3 == 2 {
        match bus_read32_val(m.bus, a) {
            Ok(v) => CpuView {
                x: upd_reg(m.x, rd_of(ir), v),
                bus: bus_after_read32(m.bus, a),
                ..m
            },
            Err(e) => CpuView { exception: bus_ex_code(e), cause: a, ..m },
        }
    } else if f3 == 4 {
        match bus_read8_val(m.bus, a) {
            Ok(v) => CpuView {
                x: upd_reg(m.x, rd_of(ir), v as u32),
                bus: bus_after_read8(m.bus, a),
                ..m
            },
            Err(e) => CpuView { exception: bus_ex_code(e), cause: a, ..m },
        }
    } else if f3 == 5 {
        match bus_read16_val(m.bus, a) {
            Ok(v) => CpuView {
                x: upd_reg(m.x, rd_of(ir), v as u32),
                bus: bus_after_read16(m.bus, a),
                ..m
            },
            Err(e) => CpuView { exception: bus_ex_code(e), cause: a, ..m },
        }
    } else {
        CpuView { exception: EX_ILLEGAL_INSTRUCTION, cause: ir, ..m }
    }
}

/// STORE: memory at rs1 + offset <- low funct3-selected width of rs2.
pub open spec fn store_v(m: CpuView, ir: u32) -> CpuView {
    let a = clip32(imm_s(ir) + m.x[rs1_of(ir) as int]);
    let v = m.x[rs2_of(ir) as int];
    let f3 = funct3_of(ir);
    if f3 == 0 {
        match bus_write8_res(m.bus, a) {
            Ok(_) => CpuView { bus: bus_after_write8(m.bus, a, (v % 0x100) as u8), ..m },
            Err(e) => CpuView { exception: bus_ex_code(e), cause: a, ..m },
        }
    } else if f3 == 1 {
        match bus_write16_res(m.bus, a) {
            Ok(_) => CpuView { bus: bus_after_write16(m.bus, a, (v % 0x1_0000) as u16), ..m },
            Err(e) => CpuView { exception: bus_ex_code(e), cause: a, ..m },
        }
    } else if f3 == 2 {
        match bus_write32_res(m.bus, a) {
            Ok(_) => CpuView { bus: bus_after_write32(m.bus, a, v), ..m },
            Err(e) => CpuView { exception: bus_ex_code(e), cause: a, ..m },
        }
    } else {
        CpuView { exception: EX_ILLEGAL_INSTRUCTION, cause: ir, ..m }
    }
}

/// The value an OP or OP-IMM instruction computes from its two operands.
pub open spec fn op_val(ir: u32, a: u32, b: u32) -> u32 {
    let f3 = funct3_of(ir);
    let reg = ir & 0x20 != 0;
    if f3 == 0 {
        if reg && ir & 0x4000_0000 != 0 {
            clip32(a - b)
        } else {
            clip32(a + b)
        }
    } else if f3 == 1 {
        a << (b % 32)
    } else if f3 == 2 {
        if slt(a, b) {
            1u32
        } else {
            0u32
        }
    } else if f3 == 3 {
        if a < b {
            1u32
        } else {
            0u32
        }
    } else if f3 == 4 {
        a ^ b
    } else if f3 == 5 {
        if ir & 0x4000_0000 != 0 {
            sra32(a, b % 32)
        } else {
            a >> (b % 32)
        }
    } else if f3 == 6 {
        a | b
    } else {
        a & b
    }
}

/// OP / OP-IMM: rd <- the computed value; the second operand is a register
/// in the register form and the I-immediate otherwise.
pub open spec fn op_v(m: CpuView, ir: u32) -> CpuView {
    let a = m.x[rs1_of(ir) as int];
    let b = if ir & 0x20 != 0 {
        m.x[rs2_of(ir) as int]
    } else {
        imm_i(ir)
    };
    CpuView { x: upd_reg(m.x, rd_of(ir), op_val(ir, a, b)), ..m }
}

/// The value an RV32M instruction computes from its two register operands.
pub open spec fn m_val(f3: u32, a: u32, b: u32) -> u32 {
    if f3 == 0 {
        mul_low(a, b)
    } else if f3 == 1 {
        mulh_ss(a, b)
    } else if f3 == 2 {
        mulh_su(a, b)
    } else if f3 == 3 {
        mulh_uu(a, b)
    } else if f3 == 4 {
        div_rv(a, b)
    } else if f3 == 5 {
        divu_rv(a, b)
    } else if f3 == 6 {
        rem_rv(a, b)
    } else {
        remu_rv(a, b)
    }
}

/// RV32M: rd <- multiply or divide result.
pub open spec fn muldiv_v(m: CpuView, ir: u32) -> CpuView {
    CpuView {
        x: upd_reg(
            m.x,
            rd_of(ir),
            m_val(funct3_of(ir), m.x[rs1_of(ir) as int], m.x[rs2_of(ir) as int]),
        ),
        ..m
    }
}

/// The word an AMO writes back, computed from the loaded value `v` and rs2.
pub open spec fn amo_new(f5: u32, v: u32, b: u32) -> u32 {
    if f5 == 1 {
        b
    } else if f5 == 0 {
        clip32(b + v)
    } else if f5 == 4 {
        b ^ v
    } else if f5 == 12 {
        b & v
    } else if f5 == 8 {
        b | v
    } else if f5 == 16 {
        if slt(b, v) {
            b
        } else {
            v
        }
    } else if f5 == 20 {
        if slt(v, b) {
            b
        } else {
            v
        }
    } else if f5 == 24 {
        if b < v {
            b
        } else {
            v
        }
    } else {
        if b > v {
            b
        } else {
            v
        }
    }
}

/// Whether the AMO function code is one of the read-modify-write group.
pub open spec fn is_amo_op(f5: u32) -> bool {
    f5 == 0 || f5 == 1 || f5 == 4 || f5 == 8 || f5 == 12 || f5 == 16 || f5 == 20 || f5 == 24
        || f5 == 28
}

/// RV32A: every variant first loads the word at rs1. LR.W records the
/// reservation; SC.W succeeds (rd <- 0, memory written) exactly when the
/// reserved value still equals the loaded value, and consumes a reservation
/// for the address either way; the AMO group writes back a combined value
/// and yields the pre-value in rd.
pub open spec fn atomic_v(m: CpuView, ir: u32) -> CpuView {
    let a = m.x[rs1_of(ir) as int];
    let b = m.x[rs2_of(ir) as int];
    let f5 = funct5_of(ir);
    match bus_read32_val(m.bus, a) {
        Err(e) => CpuView { exception: bus_ex_code(e), cause: a, ..m },
        Ok(v) => {
            let m1 = CpuView { bus: bus_after_read32(m.bus, a), ..m };
            if f5 == 2 {
                CpuView {
                    x: upd_reg(m1.x, rd_of(ir), v),
                    reservation: Some((a, v)),
                    ..m1
                }
            } else if f5 == 3 {
                match m1.reservation {
                    Some((ra, rv)) => {
                        if ra == a {
                            let m2 = CpuView { reservation: None, ..m1 };
                            if rv == v {
                                match bus_write32_res(m2.bus, a) {
                                    Ok(_) => CpuView {
                                        x: upd_reg(m2.x, rd_of(ir), 0),
                                        bus: bus_after_write32(m2.bus, a, b),
                                        ..m2
                                    },
                                    Err(e) => CpuView {
                                        x: upd_reg(m2.x, rd_of(ir), 0),
                                        exception: bus_ex_code(e),
                                        cause: a,
                                        ..m2
                                    },
                                }
                            } else {
                                CpuView { x: upd_reg(m2.x, rd_of(ir), 1), ..m2 }
                            }
                        } else {
                            CpuView { x: upd_reg(m1.x, rd_of(ir), 1), ..m1 }
                        }
                    },
                    None => CpuView { x: upd_reg(m1.x, rd_of(ir), 1), ..m1 },
                }
            } else if is_amo_op(f5) {
                let w = amo_new(f5, v, b);
                match bus_write32_res(m1.bus, a) {
                    Ok(_) => CpuView {
                        x: upd_reg(m1.x, rd_of(ir), v),
                        bus: bus_after_write32(m1.bus, a, w),
                        ..m1
                    },
                    Err(e) => CpuView {
                        x: upd_reg(m1.x, rd_of(ir), v),
                        exception: bus_ex_code(e),
                        cause: a,
                        ..m1
                    },
                }
            } else {
                CpuView { exception: EX_ILLEGAL_INSTRUCTION, cause: ir, ..m1 }
            }
        },
    }
}

/// The CSR value read at `csr`: cycle reads its low half, mvendorid and misa
/// read zero, and an unrecognized CSR reads zero.
pub open spec fn csr_read_val(m: CpuView, csr: u32) -> u32 {
    if csr == 0x340 {
        m.mscratch
    } else if csr == 0x305 {
        m.mtvec
    } else if csr == 0x304 {
        m.mie
    } else if csr == 0xc00 {
        lo32(m.cycle)
    } else if csr == 0x341 {
        m.mepc
    } else if csr == 0x300 {
        m.mstatus
    } else if csr == 0x342 {
        m.mcause
    } else if csr == 0x343 {
        m.mtval
    } else if csr == 0x344 {
        m.mip
    } else {
        0
    }
}

/// The state after writing `val` to `csr`; an unrecognized or read-only CSR
/// is left unwritten.
pub open spec fn csr_after_write(m: CpuView, csr: u32, val: u32) -> CpuView {
    if csr == 0x340 {
        CpuView { mscratch: val, ..m }
    } else if csr == 0x305 {
        CpuView { mtvec: val, ..m }
    } else if csr == 0x304 {
        CpuView { mie: val, ..m }
    } else if csr == 0x344 {
        CpuView { mip: val, ..m }
    } else if csr == 0x341 {
        CpuView { mepc: val, ..m }
    } else if csr == 0x300 {
        CpuView { mstatus: val, ..m }
    } else if csr == 0x342 {
        CpuView { mcause: val, ..m }
    } else if csr == 0x343 {
        CpuView { mtval: val, ..m }
    } else {
        m
    }
}

/// The operand a CSR instruction combines with the old value: funct3 1-3
/// use the rs1 register, 5-7 the five-bit rs1 field itself.
pub open spec fn csr_operand(m: CpuView, ir: u32) -> u32 {
    if funct3_of(ir) >= 4 {
        rs1_of(ir)
    } else {
        m.x[rs1_of(ir) as int]
    }
}

/// The new CSR value: write, set-bits or clear-bits of the old value `v`.
pub open spec fn csr_new_val(f3: u32, v: u32, s: u32) -> u32 {
    if f3 == 1 || f3 == 5 {
        s
    } else if f3 == 2 || f3 == 6 {
        v | s
    } else {
        v & !s
    }
}

/// MRET: MIE is restored from MPIE, MPIE is forced to 1, MPP takes the
/// mode being left, the mode returns to the one MPP encoded, and pc goes
/// back to mepc (less the common advance of 4).
pub open spec fn mret_v(m: CpuView, ir: u32) -> CpuView {
    CpuView {
        mstatus: ((m.mstatus & 0x80) >> 4) | (mode_code(m.previous_mode) << 11) | 0x80,
        previous_mode: mode_from_code((m.mstatus >> 11) % 4),
        pc: clip32(m.mepc - 4),
        x: upd_reg(m.x, rd_of(ir), 0),
        ..m
    }
}

/// WFI: set mstatus.MIE, raise the wait flag, and advance pc here (the
/// step then reports Idle without the common advance).
pub open spec fn wfi_v(m: CpuView, ir: u32) -> CpuView {
    CpuView {
        mstatus: m.mstatus | 8,
        wfi: true,
        pc: clip32(m.pc + 4),
        x: upd_reg(m.x, rd_of(ir), 0),
        ..m
    }
}

/// SYSTEM: CSR read-modify-write for funct3 1-3 and 5-7; WFI, MRET, ECALL
/// and EBREAK for funct3 0, selected by the immediate field.
pub open spec fn zicsr_v(m: CpuView, ir: u32) -> CpuView {
    let f3 = funct3_of(ir);
    let csr = csr_of(ir);
    if f3 % 4 != 0 {
        let v = csr_read_val(m, csr);
        let m1 = csr_after_write(m, csr, csr_new_val(f3, v, csr_operand(m, ir)));
        CpuView { x: upd_reg(m1.x, rd_of(ir), v), ..m1 }
    } else if f3 == 0 {
        if csr == 0x105 {
            wfi_v(m, ir)
        } else if csr % 0x100 == 0x02 {
            mret_v(m, ir)
        } else if csr == 0 {
            let code = if m.previous_mode != PrivilegeMode::User {
                EX_ENVIRONMENT_CALL_M
            } else {
                EX_ENVIRONMENT_CALL_U
            };
            CpuView { exception: code, cause: 0, x: upd_reg(m.x, rd_of(ir), 0), ..m }
        } else if csr == 1 {
            CpuView {
                exception: EX_BREAKPOINT,
                cause: 0,
                x: upd_reg(m.x, rd_of(ir), 0),
                ..m
            }
        } else {
            CpuView {
                exception: EX_ILLEGAL_INSTRUCTION,
                cause: ir,
                x: upd_reg(m.x, rd_of(ir), 0),
                ..m
            }
        }
    } else {
        CpuView {
            exception: EX_ILLEGAL_INSTRUCTION,
            cause: ir,
            x: upd_reg(m.x, rd_of(ir), 0),
            ..m
        }
    }
}

/// One decoded instruction's transition, dispatched on the major opcode;
/// FENCE is a no-op and an unknown opcode is illegal.
pub open spec fn exec_instr(m: CpuView, ir: u32) -> CpuView {
    let op = opcode_of(ir);
    if op == 0x37 {
        lui_v(m, ir)
    } else if op == 0x17 {
        auipc_v(m, ir)
    } else if op == 0x6f {
        jal_v(m, ir)
    } else if op == 0x67 {
        jalr_v(m, ir)
    } else if op == 0x63 {
        branch_v(m, ir)
    } else if op == 0x03 {
        load_v(m, ir)
    } else if op == 0x23 {
        store_v(m, ir)
    } else if op == 0x33 && ir & 0x0200_0000 != 0 {
        muldiv_v(m, ir)
    } else if op == 0x13 || op == 0x33 {
        op_v(m, ir)
    } else if op == 0x0f {
        m
    } else if op == 0x73 {
        zicsr_v(m, ir)
    } else if op == 0x2f {
        atomic_v(m, ir)
    } else {
        CpuView { exception: EX_ILLEGAL_INSTRUCTION, cause: ir, ..m }
    }
}

/// Trap entry: mcause takes the pending code; mtval the recorded cause for
/// exceptions and 0 for interrupts; mepc the pc at trap time; mstatus keeps
/// only MIE (moved into MPIE) and the mode being left (into MPP); the mode
/// becomes Machine and pc jumps to mtvec.
pub open spec fn trap_v(m: CpuView) -> CpuView {
    CpuView {
        mcause: m.exception,
        mtval: if m.exception >= 0x8000_0000 {
            0
        } else {
            m.cause
        },
        mepc: m.pc,
        mstatus: ((m.mstatus & 0x08) << 4) | (mode_code(m.previous_mode) << 11),
        pc: m.mtvec,
        previous_mode: PrivilegeMode::Machine,
        exception: 0,
        ..m
    }
}

/// One full step of the hart, §4.4: drive the bus, deliver a pending and
/// enabled timer interrupt, stay idle under WFI, else fetch and execute one
/// instruction, take any raised trap, and otherwise advance pc by 4. A
/// fetch failure traps at once as InstructionAddressMisaligned with the pc
/// as trap value.
pub open spec fn spec_step(m: CpuView, delta_us: u64) -> (CpuView, CpuState) {
    let m1 = CpuView {
        bus: bus_after_step(m.bus, delta_us),
        mip: mip_after_step(m.bus, delta_us, m.mip),
        ..m
    };
    let m2 = if m1.mip & 0x80 != 0 {
        CpuView { wfi: false, ..m1 }
    } else {
        m1
    };
    if m2.mip & 0x80 == 0 && m2.wfi {
        (m2, CpuState::Idle)
    } else if m2.mip & 0x80 != 0 && m2.mie & 0x80 != 0 && m2.mstatus & 8 != 0 {
        (trap_v(CpuView { exception: INT_MACHINE_TIMER, ..m2 }), CpuState::Active)
    } else {
        let m3 = CpuView { cycle: clip64(m2.cycle + 1), ..m2 };
        match bus_read32_val(m3.bus, m3.pc) {
            Err(_) => (
                trap_v(
                    CpuView { exception: EX_INSTRUCTION_ADDRESS_MISALIGNED, cause: m3.pc, ..m3 },
                ),
                CpuState::Active,
            ),
            Ok(ir) => {
                let m4 = CpuView { bus: bus_after_read32(m3.bus, m3.pc), ..m3 };
                let m5 = exec_instr(m4, ir);
                if opcode_of(ir) == 0x73 && m5.wfi {
                    (m5, CpuState::Idle)
                } else if m5.exception != 0 {
                    (trap_v(m5), CpuState::Active)
                } else {
                    (CpuView { pc: clip32(m5.pc + 4), ..m5 }, CpuState::Active)
                }
            },
        }
    }
}

/// The architectural reset state: all registers zero, pc 0, mode Machine,
/// no reservation and no pending trap.
pub open spec fn initial_cpu(b: BusView) -> CpuView {
    CpuView {
        bus: b,
        x: Seq::new(32, |i: int| 0u32),
        pc: 0,
        mstatus: 0,
        cycle: 0,
        mscratch: 0,
        mtvec: 0,
        mie: 0,
        mip: 0,
        mepc: 0,
        mtval: 0,
        mcause: 0,
        exception: 0,
        cause: 0,
        wfi: false,
        previous_mode: PrivilegeMode::Machine,
        reservation: None,
    }
}

pub struct Cpu {
    bus: Bus,
    x: Vec<u32>,
    pc: u32,
    mstatus: u32,
    cycle: u64,
    mscratch: u32,
    mtvec: u32,
    mie: u32,
    mip: u32,
    mepc: u32,
    mtval: u32,
    mcause: u32,
    exception: u32,
    cause: u32,
    wait_for_interrupt: bool,
    previous_mode: PrivilegeMode,
    reservation: Option<(u32, u32)>,
}

impl View for Cpu {
    type V = CpuView;

    closed spec fn view(&self) -> CpuView {
        CpuView {
            bus: self.bus@,
            x: self.x@,
            pc: self.pc,
            mstatus: self.mstatus,
            cycle: self.cycle,
            mscratch: self.mscratch,
            mtvec: self.mtvec,
            mie: self.mie,
            mip: self.mip,
            mepc: self.mepc,
            mtval: self.mtval,
            mcause: self.mcause,
            exception: self.exception,
            cause: self.cause,
            wfi: self.wait_for_interrupt,
            previous_mode: self.previous_mode,
            reservation: self.reservation,
        }
    }
}

impl Cpu {
    /// Well-formedness: 32 registers with x0 reading zero.
    pub open spec fn wf(&self) -> bool {
        cpu_wf(self@)
    }

    pub fn new(bus: Bus) -> (c: Cpu)
        ensures
            c@ == initial_cpu(bus@),
            c.wf(),
    {
        let mut x: Vec<u32> = Vec::new();
        while x.len() < 32
            invariant
                x@.len() <= 32,
                forall|i: int| 0 <= i < x@.len() ==> x@[i] == 0u32,
            decreases 32 - x@.len(),
        {
            x.push(0);
        }
        proof {
            assert(x@ =~= Seq::new(32, |i: int| 0u32));
        }
        Cpu {
            bus,
            x,
            pc: 0,
            mstatus: 0,
            cycle: 0,
            mscratch: 0,
            mtvec: 0,
            mie: 0,
            mip: 0,
            mepc: 0,
            mtval: 0,
            mcause: 0,
            exception: 0,
            cause: 0,
            wait_for_interrupt: false,
            previous_mode: PrivilegeMode::Machine,
            reservation: None,
        }
    }

    /// Set boot register a0 (x10), the hart id.
    pub fn a0(&mut self, a0: u32)
        requires
            old(self).wf(),
        ensures
            final(self)@ == (CpuView { x: old(self)@.x.update(10, a0), ..old(self)@ }),
            final(self).wf(),
    {
        self.x.set(10, a0);
    }

    /// Set boot register a1 (x11), the device-tree address.
    pub fn a1(&mut self, a1: u32)
        requires
            old(self).wf(),
        ensures
            final(self)@ == (CpuView { x: old(self)@.x.update(11, a1), ..old(self)@ }),
            final(self).wf(),
    {
        self.x.set(11, a1);
    }

    /// Set the program counter.
    pub fn pc(&mut self, pc: u32)
        ensures
            final(self)@ == (CpuView { pc: pc, ..old(self)@ }),
    {
        self.pc = pc;
    }

    /// Credit `count` cycles to the free-running counter.
    pub fn add_cycles(&mut self, count: u32)
        ensures
            final(self)@ == (CpuView { cycle: clip64(old(self)@.cycle + count), ..old(self)@ }),
    {
        self.cycle = wadd64(self.cycle, count as u64);
    }

    pub fn bus(&self) -> (b: &Bus)
        ensures
            b@ == self@.bus,
    {
        &self.bus
    }

    /// Register `i` of the register file.
    pub fn reg(&self, i: usize) -> (r: u32)
        requires
            self.wf(),
            i < 32,
        ensures
            r == self@.x[i as int],
    {
        self.x[i]
    }

    pub fn get_pc(&self) -> (r: u32)
        ensures
            r == self@.pc,
    {
        self.pc
    }

    pub fn get_mstatus(&self) -> (r: u32)
        ensures
            r == self@.mstatus,
    {
        self.mstatus
    }

    pub fn get_mepc(&self) -> (r: u32)
        ensures
            r == self@.mepc,
    {
        self.mepc
    }

    pub fn get_mcause(&self) -> (r: u32)
        ensures
            r == self@.mcause,
    {
        self.mcause
    }

    pub fn get_mtval(&self) -> (r: u32)
        ensures
            r == self@.mtval,
    {
        self.mtval
    }

    pub fn get_mip(&self) -> (r: u32)
        ensures
            r == self@.mip,
    {
        self.mip
    }

    pub fn get_mie(&self) -> (r: u32)
        ensures
            r == self@.mie,
    {
        self.mie
    }

    pub fn get_mtvec(&self) -> (r: u32)
        ensures
            r == self@.mtvec,
    {
        self.mtvec
    }

    pub fn get_cycle(&self) -> (r: u64)
        ensures
            r == self@.cycle,
    {
        self.cycle
    }

    pub fn is_waiting(&self) -> (r: bool)
        ensures
            r == self@.wfi,
    {
        self.wait_for_interrupt
    }

    /// Write `v` to register `rd`; a write to x0 is discarded.
    fn write_back(&mut self, rd: usize, v: u32)
        requires
            old(self).wf(),
            rd < 32,
        ensures
            final(self)@ == (CpuView { x: upd_reg(old(self)@.x, rd as u32, v), ..old(self)@ }),
            final(self).wf(),
    {
        if rd != 0 {
            self.x.set(rd, v);
        }
    }

    /// Record a pending trap: the code and the value mtval will take.
    fn record_exception(&mut self, e: u32, cause: u32)
        ensures
            final(self)@ == (CpuView { exception: e, cause: cause, ..old(self)@ }),
    {
        self.exception = e;
        self.cause = cause;
    }

    /// Perform trap entry unconditionally (see `trap_v`).
    fn take_trap(&mut self)
        ensures
            final(self)@ == trap_v(old(self)@),
    {
        self.mcause = self.exception;
        self.mtval = if self.exception >= 0x8000_0000 {
            0
        } else {
            self.cause
        };
        self.mepc = self.pc;
        let prev = mode_to_code(self.previous_mode);
        self.mstatus = ((self.mstatus & 0x08) << 4) | (prev << 11);
        self.pc = self.mtvec;
        self.previous_mode = PrivilegeMode::Machine;
        self.exception = 0;
    }

    /// Take the pending trap, if one was recorded.
    fn process_exception(&mut self)
        ensures
            final(self)@ == (if old(self)@.exception != 0 {
                trap_v(old(self)@)
            } else {
                old(self)@
            }),
    {
        if self.exception != 0 {
            self.take_trap();
        }
    }

    /// JAL (see `jal_v`).
    fn jal(&mut self, ir: u32)
        requires
            old(self).wf(),
        ensures
            final(self)@ == jal_v(old(self)@, ir),
            final(self).wf(),
    {
        let r = rd(ir);
        let link = wadd(self.pc, 4);
        let target = wsub(wadd(self.pc, imm_j_exec(ir)), 4);
        proof {
            crate::words::lemma_clip32_sub(old(self)@.pc + imm_j(ir), 4);
        }
        self.pc = target;
        self.write_back(r, link);
    }

    /// JALR (see `jalr_v`).
    fn jalr(&mut self, ir: u32)
        requires
            old(self).wf(),
        ensures
            final(self)@ == jalr_v(old(self)@, ir),
            final(self).wf(),
    {
        let r = rd(ir);
        let link = wadd(self.pc, 4);
        let rs1v = self.x[rs1(ir)];
        let t = wadd(rs1v, imm_i_exec(ir));
        let even = t - (t % 2);
        self.pc = wsub(even, 4);
        self.write_back(r, link);
    }

    /// BRANCH (see `branch_v`).
    fn branch(&mut self, ir: u32)
        requires
            old(self).wf(),
        ensures
            final(self)@ == branch_v(old(self)@, ir),
            final(self).wf(),
    {
        let f3 = (ir >> 12) % 8;
        if f3 == 2 || f3 == 3 {
            self.record_exception(EX_ILLEGAL_INSTRUCTION, ir);
            return;
        }
        let a = self.x[rs1(ir)];
        let b = self.x[rs2(ir)];
        let taken = if f3 == 0 {
            a == b
        } else if f3 == 1 {
            a != b
        } else if f3 == 4 {
            signed_lt(a, b)
        } else if f3 == 5 {
            !signed_lt(a, b)
        } else if f3 == 6 {
            a < b
        } else {
            a >= b
        };
        if taken {
            let target = wsub(wadd(self.pc, imm_b_exec(ir)), 4);
            proof {
                crate::words::lemma_clip32_sub(old(self)@.pc + imm_b(ir), 4);
            }
            self.pc = target;
        }
    }

    /// LOAD (see `load_v`).
    fn load(&mut self, ir: u32)
        requires
            old(self).wf(),
        ensures
            final(self)@ == load_v(old(self)@, ir),
            final(self).wf(),
    {
        let r = rd(ir);
        let rs1v = self.x[rs1(ir)];
        let a = wadd(rs1v, imm_i_exec(ir));
        let f3 = (ir >> 12) % 8;
        if f3 == 0 {
            match self.bus.read8(a) {
                Ok(v) => {
                    let sv = sign_extend8(v);
                    self.write_back(r, sv);
                },
                Err(e) => {
                    let c = bus_exception_code(e);
                    self.record_exception(c, a);
                },
            }
        } else if f3 == 1 {
            match self.bus.read16(a) {
                Ok(v) => {
                    let sv = sign_extend16(v);
                    self.write_back(r, sv);
                },
                Err(e) => {
                    let c = bus_exception_code(e);
                    self.record_exception(c, a);
                },
            }
        } else if f3 == 2 {
            match self.bus.read32(a) {
                Ok(v) => {
                    self.write_back(r, v);
                },
                Err(e) => {
                    let c = bus_exception_code(e);
                    self.record_exception(c, a);
                },
            }
        } else if f3 == 4 {
            match self.bus.read8(a) {
                Ok(v) => {
                    self.write_back(r, v as u32);
                },
                Err(e) => {
                    let c = bus_exception_code(e);
                    self.record_exception(c, a);
                },
            }
        } else if f3 == 5 {
            match self.bus.read16(a) {
                Ok(v) => {
                    self.write_back(r, v as u32);
                },
                Err(e) => {
                    let c = bus_exception_code(e);
                    self.record_exception(c, a);
                },
            }
        } else {
            self.record_exception(EX_ILLEGAL_INSTRUCTION, ir);
        }
    }

    /// STORE (see `store_v`).
    fn store(&mut self, ir: u32)
        requires
            old(self).wf(),
        ensures
            final(self)@ == store_v(old(self)@, ir),
            final(self).wf(),
    {
        let rs1v = self.x[rs1(ir)];
        let rs2v = self.x[rs2(ir)];
        let a = wadd(imm_s_exec(ir), rs1v);
        let f3 = (ir >> 12) % 8;
        if f3 == 0 {
            match self.bus.write8(a, (rs2v % 0x100) as u8) {
                Ok(_) => {},
                Err(e) => {
                    let c = bus_exception_code(e);
                    self.record_exception(c, a);
                },
            }
        } else if f3 == 1 {
            match self.bus.write16(a, (rs2v % 0x1_0000) as u16) {
                Ok(_) => {},
                Err(e) => {
                    let c = bus_exception_code(e);
                    self.record_exception(c, a);
                },
            }
        } else if f3 == 2 {
            match self.bus.write32(a, rs2v) {
                Ok(_) => {},
                Err(e) => {
                    let c = bus_exception_code(e);
                    self.record_exception(c, a);
                },
            }
        } else {
            self.record_exception(EX_ILLEGAL_INSTRUCTION, ir);
        }
    }

    /// RV32A (see `atomic_v`).
    fn atomic(&mut self, ir: u32)
        requires
            old(self).wf(),
        ensures
            final(self)@ == atomic_v(old(self)@, ir),
            final(self).wf(),
    {
        let r = rd(ir);
        let a = self.x[rs1(ir)];
        let b = self.x[rs2(ir)];
        let f5 = ir >> 27;
        match self.bus.read32(a) {
            Err(e) => {
                let c = bus_exception_code(e);
                self.record_exception(c, a);
            },
            Ok(v) => {
                if f5 == 2 {
                    self.reservation = Some((a, v));
                    self.write_back(r, v);
                } else if f5 == 3 {
                    let resv = self.reservation;
                    match resv {
                        Some((ra, rv)) => {
                            if ra == a {
                                self.reservation = None;
                                if rv == v {
                                    match self.bus.write32(a, b) {
                                        Ok(_) => {},
                                        Err(e) => {
                                            let c = bus_exception_code(e);
                                            self.record_exception(c, a);
                                        },
                                    }
                                    self.write_back(r, 0);
                                } else {
                                    self.write_back(r, 1);
                                }
                            } else {
                                self.write_back(r, 1);
                            }
                        },
                        None => {
                            self.write_back(r, 1);
                        },
                    }
                } else if f5 == 0 || f5 == 1 || f5 == 4 || f5 == 8 || f5 == 12 || f5 == 16 || f5
                    == 20 || f5 == 24 || f5 == 28 {
                    let w = if f5 == 1 {
                        b
                    } else if f5 == 0 {
                        wadd(b, v)
                    } else if f5 == 4 {
                        b ^ v
                    } else if f5 == 12 {
                        b & v
                    } else if f5 == 8 {
                        b | v
                    } else if f5 == 16 {
                        if signed_lt(b, v) {
                            b
                        } else {
                            v
                        }
                    } else if f5 == 20 {
                        if signed_lt(v, b) {
                            b
                        } else {
                            v
                        }
                    } else if f5 == 24 {
                        if b < v {
                            b
                        } else {
                            v
                        }
                    } else {
                        if b > v {
                            b
                        } else {
                            v
                        }
                    };
                    match self.bus.write32(a, w) {
                        Ok(_) => {},
                        Err(e) => {
                            let c = bus_exception_code(e);
                            self.record_exception(c, a);
                        },
                    }
                    self.write_back(r, v);
                } else {
                    self.record_exception(EX_ILLEGAL_INSTRUCTION, ir);
                }
            },
        }
    }

    /// RV32M (see `muldiv_v`).
    fn multi_or_div(&mut self, ir: u32)
        requires
            old(self).wf(),
        ensures
            final(self)@ == muldiv_v(old(self)@, ir),
            final(self).wf(),
    {
        let r = rd(ir);
        let a = self.x[rs1(ir)];
        let b = self.x[rs2(ir)];
        let f3 = (ir >> 12) % 8;
        let v = if f3 == 0 {
            mul_low_exec(a, b)
        } else if f3 == 1 {
            mulh_signed(a, b)
        } else if f3 == 2 {
            mulh_signed_unsigned(a, b)
        } else if f3 == 3 {
            mulh_unsigned(a, b)
        } else if f3 == 4 {
            div_signed(a, b)
        } else if f3 == 5 {
            if b == 0 {
                0xffff_ffff
            } else {
                a / b
            }
        } else if f3 == 6 {
            rem_signed(a, b)
        } else {
            if b == 0 {
                a
            } else {
                a % b
            }
        };
        self.write_back(r, v);
    }

    /// OP and OP-IMM (see `op_v`).
    fn op(&mut self, ir: u32)
        requires
            old(self).wf(),
        ensures
            final(self)@ == op_v(old(self)@, ir),
            final(self).wf(),
    {
        let r = rd(ir);
        let a = self.x[rs1(ir)];
        let reg = ir & 0x20 != 0;
        let b = if reg {
            self.x[rs2(ir)]
        } else {
            imm_i_exec(ir)
        };
        let f3 = (ir >> 12) % 8;
        let v = if f3 == 0 {
            if reg && ir & 0x4000_0000 != 0 {
                wsub(a, b)
            } else {
                wadd(a, b)
            }
        } else if f3 == 1 {
            a << (b % 32)
        } else if f3 == 2 {
            if signed_lt(a, b) {
                1
            } else {
                0
            }
        } else if f3 == 3 {
            if a < b {
                1
            } else {
                0
            }
        } else if f3 == 4 {
            a ^ b
        } else if f3 == 5 {
            if ir & 0x4000_0000 != 0 {
                shift_right_arithmetic(a, b % 32)
            } else {
                a >> (b % 32)
            }
        } else if f3 == 6 {
            a | b
        } else {
            a & b
        };
        self.write_back(r, v);
    }

    fn csr_read(&self, csr: u32) -> (v: u32)
        ensures
            v == csr_read_val(self@, csr),
    {
        if csr == 0x340 {
            self.mscratch
        } else if csr == 0x305 {
            self.mtvec
        } else if csr == 0x304 {
            self.mie
        } else if csr == 0xc00 {
            half_lo(self.cycle)
        } else if csr == 0x341 {
            self.mepc
        } else if csr == 0x300 {
            self.mstatus
        } else if csr == 0x342 {
            self.mcause
        } else if csr == 0x343 {
            self.mtval
        } else if csr == 0x344 {
            self.mip
        } else {
            0
        }
    }

    fn csr_write(&mut self, csr: u32, val: u32)
        ensures
            final(self)@ == csr_after_write(old(self)@, csr, val),
    {
        if csr == 0x340 {
            self.mscratch = val;
        } else if csr == 0x305 {
            self.mtvec = val;
        } else if csr == 0x304 {
            self.mie = val;
        } else if csr == 0x344 {
            self.mip = val;
        } else if csr == 0x341 {
            self.mepc = val;
        } else if csr == 0x300 {
            self.mstatus = val;
        } else if csr == 0x342 {
            self.mcause = val;
        } else if csr == 0x343 {
            self.mtval = val;
        }
    }

    /// SYSTEM (see `zicsr_v`).
    fn zicsr(&mut self, ir: u32)
        requires
            old(self).wf(),
        ensures
            final(self)@ == zicsr_v(old(self)@, ir),
            final(self).wf(),
    {
        let r = rd(ir);
        let f3 = (ir >> 12) % 8;
        let csr = ir >> 20;
        if f3 % 4 != 0 {
            let rs1i = (ir >> 15) % 32;
            let rs1v = self.x[rs1i as usize];
            let s = if f3 >= 4 {
                rs1i
            } else {
                rs1v
            };
            let v = self.csr_read(csr);
            let nv = if f3 == 1 || f3 == 5 {
                s
            } else if f3 == 2 || f3 == 6 {
                v | s
            } else {
                v & !s
            };
            self.csr_write(csr, nv);
            self.write_back(r, v);
        } else if f3 == 0 {
            if csr == 0x105 {
                self.mstatus = self.mstatus | 8;
                self.wait_for_interrupt = true;
                self.pc = wadd(self.pc, 4);
                self.write_back(r, 0);
            } else if csr % 0x100 == 0x02 {
                let prev_mstatus = self.mstatus;
                let prev_code = mode_to_code(self.previous_mode);
                self.mstatus = ((prev_mstatus & 0x80) >> 4) | (prev_code << 11) | 0x80;
                self.previous_mode = mode_of_code((prev_mstatus >> 11) % 4);
                self.pc = wsub(self.mepc, 4);
                self.write_back(r, 0);
            } else if csr == 0 {
                let code = if self.previous_mode != PrivilegeMode::User {
                    EX_ENVIRONMENT_CALL_M
                } else {
                    EX_ENVIRONMENT_CALL_U
                };
                self.record_exception(code, 0);
                self.write_back(r, 0);
            } else if csr == 1 {
                self.record_exception(EX_BREAKPOINT, 0);
                self.write_back(r, 0);
            } else {
                self.record_exception(EX_ILLEGAL_INSTRUCTION, ir);
                self.write_back(r, 0);
            }
        } else {
            self.record_exception(EX_ILLEGAL_INSTRUCTION, ir);
            self.write_back(r, 0);
        }
    }


    /// Queue a keyboard byte for the guest's UART.
    pub fn feed_input(&mut self, byte: u8)
        ensures
            final(self)@ == (CpuView {
                bus: BusView {
                    uart: crate::uart::UartView {
                        input: old(self)@.bus.uart.input.push(byte),
                        output: old(self)@.bus.uart.output,
                    },
                    ..old(self)@.bus
                },
                ..old(self)@
            }),
    {
        self.bus.serial.input.push(byte);
    }

    /// Drain the words the guest wrote to its console.
    pub fn take_output(&mut self) -> (out: Vec<u32>)
        ensures
            out@ == old(self)@.bus.uart.output,
            final(self)@ == (CpuView {
                bus: BusView {
                    uart: crate::uart::UartView {
                        input: old(self)@.bus.uart.input,
                        output: Seq::<u32>::empty(),
                    },
                    ..old(self)@.bus
                },
                ..old(self)@
            }),
    {
        let mut out: Vec<u32> = Vec::new();
        core::mem::swap(&mut self.bus.serial.output, &mut out);
        out
    }

    /// Give the bus back, e.g. to reuse the RAM image across a reboot.
    pub fn into_bus(self) -> (b: Bus)
        ensures
            b@ == self@.bus,
    {
        self.bus
    }

    /// One step of the hart, exactly as `spec_step` states it: drive the
    /// bus, deliver a pending enabled timer interrupt, stay idle under WFI,
    /// else fetch and execute one instruction, take any raised trap, and
    /// otherwise advance pc by 4.
    #[verifier::rlimit(60)]
    pub fn step(&mut self, delta_us: u64) -> (state: CpuState)
        requires
            old(self).wf(),
        ensures
            final(self).wf(),
            ({
                let (m, st) = spec_step(old(self)@, delta_us);
                final(self)@ == m && state == st
            }),
    {
        self.bus.step(delta_us, &mut self.mip);
        if self.mip & 0x80 != 0 {
            self.wait_for_interrupt = false;
        } else if self.wait_for_interrupt {
            return CpuState::Idle;
        }
        if self.mip & 0x80 != 0 && self.mie & 0x80 != 0 && self.mstatus & 8 != 0 {
            self.exception = INT_MACHINE_TIMER;
            self.take_trap();
            return CpuState::Active;
        }
        self.cycle = wadd64(self.cycle, 1);
        match self.bus.read32(self.pc) {
            Err(_) => {
                self.record_exception(EX_INSTRUCTION_ADDRESS_MISALIGNED, self.pc);
                self.take_trap();
                CpuState::Active
            },
            Ok(ir) => {
                let op = ir % 128;
                if op == 0x37 {
                    let r = rd(ir);
                    self.write_back(r, ir & 0xffff_f000);
                } else if op == 0x17 {
                    let r = rd(ir);
                    let v = wadd(self.pc, ir & 0xffff_f000);
                    self.write_back(r, v);
                } else if op == 0x6f {
                    self.jal(ir);
                } else if op == 0x67 {
                    self.jalr(ir);
                } else if op == 0x63 {
                    self.branch(ir);
                } else if op == 0x03 {
                    self.load(ir);
                } else if op == 0x23 {
                    self.store(ir);
                } else if op == 0x33 && ir & 0x0200_0000 != 0 {
                    self.multi_or_div(ir);
                } else if op == 0x13 || op == 0x33 {
                    self.op(ir);
                } else if op == 0x0f {
                    // FENCE and FENCE.I take no action in this machine.
                } else if op == 0x73 {
                    self.zicsr(ir);
                    if self.wait_for_interrupt {
                        return CpuState::Idle;
                    }
                } else if op == 0x2f {
                    self.atomic(ir);
                } else {
                    self.record_exception(EX_ILLEGAL_INSTRUCTION, ir);
                }
                if self.exception != 0 {
                    self.process_exception();
                    return CpuState::Active;
                }
                self.pc = wadd(self.pc, 4);
                CpuState::Active
            },
        }
    }
}

} // verus!
