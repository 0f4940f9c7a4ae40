//! The executor of the base integer instruction set.
use super::alu::{as_word, less_signed, sext16, sext8, sign_extend_byte, sign_extend_half, signed, spec_sra, sra, to_word};
use crate::cpu::{CoreState, CpuCore, MemAccessType, TrapCause};
use crate::isa::RvInstr;
use crate::memory::{
    aligned, byte, byte_of, half_from_bytes, le16, le32, word_from_bytes, AccessSize, MemError,
    MemResult, Memory, Region,
};
use vstd::prelude::*;

verus! {

/// The effective address of a load or store.
pub open spec fn effective_addr(base: u32, offset: i32) -> u32 {
    base.wrapping_add(to_word(offset as int))
}

/// The half-word that a load at `addr` reads: by one access where `addr` is
/// even, else byte by byte.  The first refused access decides the error.
pub open spec fn load_half(m: Region, addr: u32) -> MemResult<u16> {
    if aligned(addr, AccessSize::Half) {
        m.load16(addr)
    } else {
        match m.load8(addr) {
            Err(e) => Err(e),
            Ok(b0) => match m.load8(addr.wrapping_add(1)) {
                Err(e) => Err(e),
                Ok(b1) => Ok(le16(b0, b1)),
            },
        }
    }
}

/// The word that a load at `addr` reads: by one access where `addr` is a
/// multiple of four, else byte by byte.  The first refused access decides
/// the error.
pub open spec fn load_word(m: Region, addr: u32) -> MemResult<u32> {
    if aligned(addr, AccessSize::Word) {
        m.load32(addr)
    } else {
        match m.load8(addr) {
            Err(e) => Err(e),
            Ok(b0) => match m.load8(addr.wrapping_add(1)) {
                Err(e) => Err(e),
                Ok(b1) => match m.load8(addr.wrapping_add(2)) {
                    Err(e) => Err(e),
                    Ok(b2) => match m.load8(addr.wrapping_add(3)) {
                        Err(e) => Err(e),
                        Ok(b3) => Ok(le32(b0, b1, b2, b3)),
                    },
                },
            },
        }
    }
}

/// The memory after the bytes `bytes[from..]` were stored one by one from
/// `addr + from` on, and the error of the first refused store, after which
/// no further byte is stored.
pub open spec fn store_bytes(m: Region, addr: u32, bytes: Seq<u8>, from: int) -> (
    Region,
    Option<MemError>,
)
    decreases bytes.len() - from,
{
    if from < 0 || from >= bytes.len() {
        (m, None)
    } else {
        match m.refusal(addr.wrapping_add(from as u32), AccessSize::Byte) {
            Some(e) => (m, Some(e)),
            None => store_bytes(
                m.store8(addr.wrapping_add(from as u32), bytes[from]),
                addr,
                bytes,
                from + 1,
            ),
        }
    }
}

/// The memory after a store of the half-word `value` at `addr`, by one
/// access where `addr` is even, else byte by byte; and the error, if any.
pub open spec fn store_half(m: Region, addr: u32, value: u16) -> (Region, Option<MemError>) {
    if aligned(addr, AccessSize::Half) {
        (m.store16(addr, value), m.refusal(addr, AccessSize::Half))
    } else {
        store_bytes(m, addr, seq![byte_of(value as u32, 0), byte_of(value as u32, 1)], 0)
    }
}

/// The memory after a store of the word `value` at `addr`, by one access
/// where `addr` is a multiple of four, else byte by byte; and the error, if
/// any.
pub open spec fn store_word(m: Region, addr: u32, value: u32) -> (Region, Option<MemError>) {
    if aligned(addr, AccessSize::Word) {
        (m.store32(addr, value), m.refusal(addr, AccessSize::Word))
    } else {
        store_bytes(
            m,
            addr,
            seq![byte_of(value, 0), byte_of(value, 1), byte_of(value, 2), byte_of(value, 3)],
            0,
        )
    }
}

/// The state after a load into `rd`: the value written, or the trap of the
/// refused access.
pub open spec fn loaded(s: CoreState, rd: u8, result: MemResult<u32>, current_pc: u32) -> CoreState {
    match result {
        Ok(value) => s.write_reg(rd, value),
        Err(e) => s.mem_fault(e, MemAccessType::Load, current_pc),
    }
}

/// The state after a store: unchanged, or the trap of the refused access.
pub open spec fn stored(s: CoreState, error: Option<MemError>, current_pc: u32) -> CoreState {
    match error {
        None => s,
        Some(e) => s.mem_fault(e, MemAccessType::Store, current_pc),
    }
}

/// The state after a branch of the instruction at `current_pc`.
pub open spec fn branched(s: CoreState, taken: bool, current_pc: u32, offset: i32) -> CoreState {
    if taken {
        s.set_pc(current_pc.wrapping_add(to_word(offset as int)))
    } else {
        s
    }
}

/// The word that is one where `b` holds, zero else.
pub open spec fn flag(b: bool) -> u32 {
    if b {
        1
    } else {
        0
    }
}

/// Whether `instr` belongs to the base integer instruction set.
pub open spec fn handles(instr: RvInstr) -> bool {
    match instr {
        RvInstr::Add { .. }
        | RvInstr::Sub { .. }
        | RvInstr::And { .. }
        | RvInstr::Or { .. }
        | RvInstr::Xor { .. }
        | RvInstr::Slt { .. }
        | RvInstr::Sltu { .. }
        | RvInstr::Sll { .. }
        | RvInstr::Srl { .. }
        | RvInstr::Sra { .. }
        | RvInstr::Addi { .. }
        | RvInstr::Andi { .. }
        | RvInstr::Ori { .. }
        | RvInstr::Xori { .. }
        | RvInstr::Slti { .. }
        | RvInstr::Sltiu { .. }
        | RvInstr::Slli { .. }
        | RvInstr::Srli { .. }
        | RvInstr::Srai { .. }
        | RvInstr::Lb { .. }
        | RvInstr::Lh { .. }
        | RvInstr::Lw { .. }
        | RvInstr::Lbu { .. }
        | RvInstr::Lhu { .. }
        | RvInstr::Sb { .. }
        | RvInstr::Sh { .. }
        | RvInstr::Sw { .. }
        | RvInstr::Lui { .. }
        | RvInstr::Auipc { .. }
        | RvInstr::Jal { .. }
        | RvInstr::Jalr { .. }
        | RvInstr::Beq { .. }
        | RvInstr::Bne { .. }
        | RvInstr::Blt { .. }
        | RvInstr::Bge { .. }
        | RvInstr::Bltu { .. }
        | RvInstr::Bgeu { .. }
        | RvInstr::Ecall
        | RvInstr::Ebreak
        | RvInstr::Fence { .. }
        | RvInstr::FenceI => true,
        _ => false,
    }
}

/// The core and the memory after the base integer instruction `instr`,
/// fetched at `current_pc`, was executed in a core whose program counter
/// already points behind it.  Any other instruction changes nothing.
pub open spec fn spec_execute(s: CoreState, m: Region, instr: RvInstr, current_pc: u32) -> (
    CoreState,
    Region,
) {
    match instr {
        RvInstr::Add { rd, rs1, rs2 } => (s.write_reg(rd, s.reg(rs1).wrapping_add(s.reg(rs2))), m),
        RvInstr::Sub { rd, rs1, rs2 } => (s.write_reg(rd, s.reg(rs1).wrapping_sub(s.reg(rs2))), m),
        RvInstr::And { rd, rs1, rs2 } => (s.write_reg(rd, s.reg(rs1) & s.reg(rs2)), m),
        RvInstr::Or { rd, rs1, rs2 } => (s.write_reg(rd, s.reg(rs1) | s.reg(rs2)), m),
        RvInstr::Xor { rd, rs1, rs2 } => (s.write_reg(rd, s.reg(rs1) ^ s.reg(rs2)), m),
        RvInstr::Slt { rd, rs1, rs2 } => (
            s.write_reg(rd, flag(signed(s.reg(rs1)) < signed(s.reg(rs2)))),
            m,
        ),
        RvInstr::Sltu { rd, rs1, rs2 } => (s.write_reg(rd, flag(s.reg(rs1) < s.reg(rs2))), m),
        RvInstr::Sll { rd, rs1, rs2 } => (s.write_reg(rd, s.reg(rs1) << (s.reg(rs2) & 0x1F)), m),
        RvInstr::Srl { rd, rs1, rs2 } => (s.write_reg(rd, s.reg(rs1) >> (s.reg(rs2) & 0x1F)), m),
        RvInstr::Sra { rd, rs1, rs2 } => (
            s.write_reg(rd, spec_sra(s.reg(rs1), s.reg(rs2) & 0x1F)),
            m,
        ),
        RvInstr::Addi { rd, rs1, imm } => (
            s.write_reg(rd, s.reg(rs1).wrapping_add(to_word(imm as int))),
            m,
        ),
        RvInstr::Andi { rd, rs1, imm } => (s.write_reg(rd, s.reg(rs1) & to_word(imm as int)), m),
        RvInstr::Ori { rd, rs1, imm } => (s.write_reg(rd, s.reg(rs1) | to_word(imm as int)), m),
        RvInstr::Xori { rd, rs1, imm } => (s.write_reg(rd, s.reg(rs1) ^ to_word(imm as int)), m),
        RvInstr::Slti { rd, rs1, imm } => (s.write_reg(rd, flag(signed(s.reg(rs1)) < imm)), m),
        RvInstr::Sltiu { rd, rs1, imm } => (
            s.write_reg(rd, flag(s.reg(rs1) < to_word(imm as int))),
            m,
        ),
        RvInstr::Slli { rd, rs1, shamt } => (s.write_reg(rd, s.reg(rs1) << shamt), m),
        RvInstr::Srli { rd, rs1, shamt } => (s.write_reg(rd, s.reg(rs1) >> shamt), m),
        RvInstr::Srai { rd, rs1, shamt } => (s.write_reg(rd, spec_sra(s.reg(rs1), shamt as u32)), m),
        RvInstr::Lb { rd, rs1, offset } => (
            loaded(
                s,
                rd,
                match m.load8(effective_addr(s.reg(rs1), offset)) {
                    Ok(v) => Ok(sext8(v)),
                    Err(e) => Err(e),
                },
                current_pc,
            ),
            m,
        ),
        RvInstr::Lbu { rd, rs1, offset } => (
            loaded(
                s,
                rd,
                match m.load8(effective_addr(s.reg(rs1), offset)) {
                    Ok(v) => Ok(v as u32),
                    Err(e) => Err(e),
                },
                current_pc,
            ),
            m,
        ),
        RvInstr::Lh { rd, rs1, offset } => (
            loaded(
                s,
                rd,
                match load_half(m, effective_addr(s.reg(rs1), offset)) {
                    Ok(v) => Ok(sext16(v)),
                    Err(e) => Err(e),
                },
                current_pc,
            ),
            m,
        ),
        RvInstr::Lhu { rd, rs1, offset } => (
            loaded(
                s,
                rd,
                match load_half(m, effective_addr(s.reg(rs1), offset)) {
                    Ok(v) => Ok(v as u32),
                    Err(e) => Err(e),
                },
                current_pc,
            ),
            m,
        ),
        RvInstr::Lw { rd, rs1, offset } => (
            loaded(s, rd, load_word(m, effective_addr(s.reg(rs1), offset)), current_pc),
            m,
        ),
        RvInstr::Sb { rs1, rs2, offset } => {
            let addr = effective_addr(s.reg(rs1), offset);
            (
                stored(s, m.refusal(addr, AccessSize::Byte), current_pc),
                m.store8(addr, byte_of(s.reg(rs2), 0)),
            )
        },
        RvInstr::Sh { rs1, rs2, offset } => {
            let after = store_half(
                m,
                effective_addr(s.reg(rs1), offset),
                (s.reg(rs2) % 0x1_0000) as u16,
            );
            (stored(s, after.1, current_pc), after.0)
        },
        RvInstr::Sw { rs1, rs2, offset } => {
            let after = store_word(m, effective_addr(s.reg(rs1), offset), s.reg(rs2));
            (stored(s, after.1, current_pc), after.0)
        },
        RvInstr::Lui { rd, imm } => (s.write_reg(rd, to_word(imm as int)), m),
        RvInstr::Auipc { rd, imm } => (
            s.write_reg(rd, current_pc.wrapping_add(to_word(imm as int))),
            m,
        ),
        RvInstr::Jal { rd, offset } => (
            s.write_reg(rd, s.pc).set_pc(current_pc.wrapping_add(to_word(offset as int))),
            m,
        ),
        RvInstr::Jalr { rd, rs1, offset } => (
            s.write_reg(rd, s.pc).set_pc(effective_addr(s.reg(rs1), offset) & !1u32),
            m,
        ),
        RvInstr::Beq { rs1, rs2, offset } => (
            branched(s, s.reg(rs1) == s.reg(rs2), current_pc, offset),
            m,
        ),
        RvInstr::Bne { rs1, rs2, offset } => (
            branched(s, s.reg(rs1) != s.reg(rs2), current_pc, offset),
            m,
        ),
        RvInstr::Blt { rs1, rs2, offset } => (
            branched(s, signed(s.reg(rs1)) < signed(s.reg(rs2)), current_pc, offset),
            m,
        ),
        RvInstr::Bge { rs1, rs2, offset } => (
            branched(s, signed(s.reg(rs1)) >= signed(s.reg(rs2)), current_pc, offset),
            m,
        ),
        RvInstr::Bltu { rs1, rs2, offset } => (
            branched(s, s.reg(rs1) < s.reg(rs2), current_pc, offset),
            m,
        ),
        RvInstr::Bgeu { rs1, rs2, offset } => (
            branched(s, s.reg(rs1) >= s.reg(rs2), current_pc, offset),
            m,
        ),
        RvInstr::Ecall => (
            s.take_trap_at(TrapCause::spec_ecall_from(s.arch.privilege), 0, current_pc),
            m,
        ),
        RvInstr::Ebreak => (s.take_trap_at(TrapCause::Breakpoint, current_pc, current_pc), m),
        _ => (s, m),
    }
}

/// Executes `instr` where it belongs to the base integer instruction set;
/// returns whether it does.
pub fn execute<M: Memory>(cpu: &mut CpuCore, mem: &mut M, instr: RvInstr, current_pc: u32) -> (handled:
    bool)
    requires
        old(cpu).wf(),
        instr.wf(),
    ensures
        final(cpu).wf(),
        final(cpu).decoders() == old(cpu).decoders(),
        handled == handles(instr),
        (final(cpu)@, final(mem)@) == spec_execute(old(cpu)@, old(mem)@, instr, current_pc),
{
    proof {
        old(cpu).lemma_wf();
    }
    match instr {
        RvInstr::Add { rd, rs1, rs2 } => {
            let result = cpu.read_reg(rs1).wrapping_add(cpu.read_reg(rs2));
            cpu.write_reg(rd, result);
        },
        RvInstr::Sub { rd, rs1, rs2 } => {
            let result = cpu.read_reg(rs1).wrapping_sub(cpu.read_reg(rs2));
            cpu.write_reg(rd, result);
        },
        RvInstr::And { rd, rs1, rs2 } => {
            let result = cpu.read_reg(rs1) & cpu.read_reg(rs2);
            cpu.write_reg(rd, result);
        },
        RvInstr::Or { rd, rs1, rs2 } => {
            let result = cpu.read_reg(rs1) | cpu.read_reg(rs2);
            cpu.write_reg(rd, result);
        },
        RvInstr::Xor { rd, rs1, rs2 } => {
            let result = cpu.read_reg(rs1) ^ cpu.read_reg(rs2);
            cpu.write_reg(rd, result);
        },
        RvInstr::Slt { rd, rs1, rs2 } => {
            let result: u32 = if less_signed(cpu.read_reg(rs1), cpu.read_reg(rs2)) {
                1
            } else {
                0
            };
            cpu.write_reg(rd, result);
        },
        RvInstr::Sltu { rd, rs1, rs2 } => {
            let result: u32 = if cpu.read_reg(rs1) < cpu.read_reg(rs2) {
                1
            } else {
                0
            };
            cpu.write_reg(rd, result);
        },
        RvInstr::Sll { rd, rs1, rs2 } => {
            let shamt = shift_amount(cpu.read_reg(rs2));
            let result = cpu.read_reg(rs1) << shamt;
            cpu.write_reg(rd, result);
        },
        RvInstr::Srl { rd, rs1, rs2 } => {
            let shamt = shift_amount(cpu.read_reg(rs2));
            let result = cpu.read_reg(rs1) >> shamt;
            cpu.write_reg(rd, result);
        },
        RvInstr::Sra { rd, rs1, rs2 } => {
            let shamt = shift_amount(cpu.read_reg(rs2));
            let result = sra(cpu.read_reg(rs1), shamt);
            cpu.write_reg(rd, result);
        },
        RvInstr::Addi { rd, rs1, imm } => {
            let result = cpu.read_reg(rs1).wrapping_add(as_word(imm));
            cpu.write_reg(rd, result);
        },
        RvInstr::Andi { rd, rs1, imm } => {
            let result = cpu.read_reg(rs1) & as_word(imm);
            cpu.write_reg(rd, result);
        },
        RvInstr::Ori { rd, rs1, imm } => {
            let result = cpu.read_reg(rs1) | as_word(imm);
            cpu.write_reg(rd, result);
        },
        RvInstr::Xori { rd, rs1, imm } => {
            let result = cpu.read_reg(rs1) ^ as_word(imm);
            cpu.write_reg(rd, result);
        },
        RvInstr::Slti { rd, rs1, imm } => {
            let result: u32 = if less_signed(cpu.read_reg(rs1), as_word(imm)) {
                1
            } else {
                0
            };
            cpu.write_reg(rd, result);
        },
        RvInstr::Sltiu { rd, rs1, imm } => {
            let result: u32 = if cpu.read_reg(rs1) < as_word(imm) {
                1
            } else {
                0
            };
            cpu.write_reg(rd, result);
        },
        RvInstr::Slli { rd, rs1, shamt } => {
            let result = cpu.read_reg(rs1) << shamt;
            cpu.write_reg(rd, result);
        },
        RvInstr::Srli { rd, rs1, shamt } => {
            let result = cpu.read_reg(rs1) >> shamt;
            cpu.write_reg(rd, result);
        },
        RvInstr::Srai { rd, rs1, shamt } => {
            let result = sra(cpu.read_reg(rs1), shamt as u32);
            cpu.write_reg(rd, result);
        },
        RvInstr::Lb { rd, rs1, offset } => {
            let addr = cpu.read_reg(rs1).wrapping_add(as_word(offset));
            match cpu.mem_result(mem.load8(addr), MemAccessType::Load, current_pc) {
                Some(v) => cpu.write_reg(rd, sign_extend_byte(v)),
                None => {},
            }
        },
        RvInstr::Lh { rd, rs1, offset } => {
            let addr = cpu.read_reg(rs1).wrapping_add(as_word(offset));
            match load_halfword(cpu, mem, addr, true, current_pc) {
                Some(v) => cpu.write_reg(rd, v),
                None => {},
            }
        },
        RvInstr::Lw { rd, rs1, offset } => {
            let addr = cpu.read_reg(rs1).wrapping_add(as_word(offset));
            match load_word_at(cpu, mem, addr, current_pc) {
                Some(v) => cpu.write_reg(rd, v),
                None => {},
            }
        },
        RvInstr::Lbu { rd, rs1, offset } => {
            let addr = cpu.read_reg(rs1).wrapping_add(as_word(offset));
            match cpu.mem_result(mem.load8(addr), MemAccessType::Load, current_pc) {
                Some(v) => cpu.write_reg(rd, v as u32),
                None => {},
            }
        },
        RvInstr::Lhu { rd, rs1, offset } => {
            let addr = cpu.read_reg(rs1).wrapping_add(as_word(offset));
            match load_halfword(cpu, mem, addr, false, current_pc) {
                Some(v) => cpu.write_reg(rd, v),
                None => {},
            }
        },
        RvInstr::Sb { rs1, rs2, offset } => {
            let addr = cpu.read_reg(rs1).wrapping_add(as_word(offset));
            let value = byte(cpu.read_reg(rs2), 0);
            let _ = cpu.mem_result_unit(mem.store8(addr, value), MemAccessType::Store, current_pc);
        },
        RvInstr::Sh { rs1, rs2, offset } => {
            let addr = cpu.read_reg(rs1).wrapping_add(as_word(offset));
            let value = low_half(cpu.read_reg(rs2));
            let _ = store_halfword(cpu, mem, addr, value, current_pc);
        },
        RvInstr::Sw { rs1, rs2, offset } => {
            let addr = cpu.read_reg(rs1).wrapping_add(as_word(offset));
            let value = cpu.read_reg(rs2);
            let _ = store_word_at(cpu, mem, addr, value, current_pc);
        },
        RvInstr::Lui { rd, imm } => {
            cpu.write_reg(rd, as_word(imm));
        },
        RvInstr::Auipc { rd, imm } => {
            let result = current_pc.wrapping_add(as_word(imm));
            cpu.write_reg(rd, result);
        },
        RvInstr::Jal { rd, offset } => {
            let return_addr = cpu.pc();
            cpu.write_reg(rd, return_addr);
            cpu.set_pc(current_pc.wrapping_add(as_word(offset)));
        },
        RvInstr::Jalr { rd, rs1, offset } => {
            let return_addr = cpu.pc();
            let target = cpu.read_reg(rs1).wrapping_add(as_word(offset)) & !1u32;
            cpu.write_reg(rd, return_addr);
            cpu.set_pc(target);
        },
        RvInstr::Beq { rs1, rs2, offset } => {
            if cpu.read_reg(rs1) == cpu.read_reg(rs2) {
                cpu.set_pc(current_pc.wrapping_add(as_word(offset)));
            }
        },
        RvInstr::Bne { rs1, rs2, offset } => {
            if cpu.read_reg(rs1) != cpu.read_reg(rs2) {
                cpu.set_pc(current_pc.wrapping_add(as_word(offset)));
            }
        },
        RvInstr::Blt { rs1, rs2, offset } => {
            if less_signed(cpu.read_reg(rs1), cpu.read_reg(rs2)) {
                cpu.set_pc(current_pc.wrapping_add(as_word(offset)));
            }
        },
        RvInstr::Bge { rs1, rs2, offset } => {
            if !less_signed(cpu.read_reg(rs1), cpu.read_reg(rs2)) {
                cpu.set_pc(current_pc.wrapping_add(as_word(offset)));
            }
        },
        RvInstr::Bltu { rs1, rs2, offset } => {
            if cpu.read_reg(rs1) < cpu.read_reg(rs2) {
                cpu.set_pc(current_pc.wrapping_add(as_word(offset)));
            }
        },
        RvInstr::Bgeu { rs1, rs2, offset } => {
            if cpu.read_reg(rs1) >= cpu.read_reg(rs2) {
                cpu.set_pc(current_pc.wrapping_add(as_word(offset)));
            }
        },
        RvInstr::Ecall => {
            let cause = TrapCause::ecall_from(cpu.privilege());
            cpu.take_trap_at(cause, 0, current_pc);
        },
        RvInstr::Ebreak => {
            cpu.take_trap_at(TrapCause::Breakpoint, current_pc, current_pc);
        },
        RvInstr::Fence { .. } => {},
        RvInstr::FenceI => {},
        _ => {
            return false;
        },
    }
    true
}

/// The low five bits of `value`.
fn shift_amount(value: u32) -> (r: u32)
    ensures
        r == value & 0x1F,
        r < 32,
{
    assert(value & 0x1F < 32) by (bit_vector);
    value & 0x1F
}

/// The low half of `value`.
fn low_half(value: u32) -> (r: u16)
    ensures
        r == (value % 0x1_0000) as u16,
{
    assert(value & 0xFFFF == value % 0x1_0000) by (bit_vector);
    (value & 0xFFFF) as u16
}

/// Loads a half-word for the instruction at `current_pc`, extended to a
/// word; takes the trap of a refused access.
pub fn load_halfword<M: Memory>(
    cpu: &mut CpuCore,
    mem: &M,
    addr: u32,
    signed: bool,
    current_pc: u32,
) -> (r: Option<u32>)
    requires
        old(cpu).wf(),
    ensures
        final(cpu).wf(),
        final(cpu).decoders() == old(cpu).decoders(),
        match load_half(mem@, addr) {
            Ok(v) => final(cpu)@ == old(cpu)@ && r == Some(
                if signed {
                    sext16(v)
                } else {
                    v as u32
                },
            ),
            Err(e) => r.is_none() && final(cpu)@ == old(cpu)@.mem_fault(
                e,
                MemAccessType::Load,
                current_pc,
            ),
        },
{
    let raw = if addr % 2 == 0 {
        match cpu.mem_result(mem.load16(addr), MemAccessType::Load, current_pc) {
            Some(raw) => raw,
            None => {
                return None;
            },
        }
    } else {
        let b0 = match cpu.mem_result(mem.load8(addr), MemAccessType::Load, current_pc) {
            Some(b) => b,
            None => {
                return None;
            },
        };
        let b1 = match cpu.mem_result(
            mem.load8(addr.wrapping_add(1)),
            MemAccessType::Load,
            current_pc,
        ) {
            Some(b) => b,
            None => {
                return None;
            },
        };
        half_from_bytes(b0, b1)
    };
    Some(
        if signed {
            sign_extend_half(raw)
        } else {
            raw as u32
        },
    )
}

/// Loads a word for the instruction at `current_pc`; takes the trap of a
/// refused access.
pub fn load_word_at<M: Memory>(cpu: &mut CpuCore, mem: &M, addr: u32, current_pc: u32) -> (r: Option<
    u32,
>)
    requires
        old(cpu).wf(),
    ensures
        final(cpu).wf(),
        final(cpu).decoders() == old(cpu).decoders(),
        match load_word(mem@, addr) {
            Ok(v) => final(cpu)@ == old(cpu)@ && r == Some(v),
            Err(e) => r.is_none() && final(cpu)@ == old(cpu)@.mem_fault(
                e,
                MemAccessType::Load,
                current_pc,
            ),
        },
{
    if addr % 4 == 0 {
        return cpu.mem_result(mem.load32(addr), MemAccessType::Load, current_pc);
    }
    let b0 = match cpu.mem_result(mem.load8(addr), MemAccessType::Load, current_pc) {
        Some(b) => b,
        None => {
            return None;
        },
    };
    let b1 = match cpu.mem_result(mem.load8(addr.wrapping_add(1)), MemAccessType::Load, current_pc) {
        Some(b) => b,
        None => {
            return None;
        },
    };
    let b2 = match cpu.mem_result(mem.load8(addr.wrapping_add(2)), MemAccessType::Load, current_pc) {
        Some(b) => b,
        None => {
            return None;
        },
    };
    let b3 = match cpu.mem_result(mem.load8(addr.wrapping_add(3)), MemAccessType::Load, current_pc) {
        Some(b) => b,
        None => {
            return None;
        },
    };
    Some(word_from_bytes(b0, b1, b2, b3))
}

/// Stores the first `count` bytes of `value` one by one from `addr` on;
/// takes the trap of the first refused store and stops there.
fn store_split<M: Memory>(
    cpu: &mut CpuCore,
    mem: &mut M,
    addr: u32,
    value: u32,
    count: usize,
    current_pc: u32,
) -> (r: bool)
    requires
        old(cpu).wf(),
        count == 2 || count == 4,
    ensures
        final(cpu).wf(),
        final(cpu).decoders() == old(cpu).decoders(),
        ({
            let after = store_bytes(
                old(mem)@,
                addr,
                Seq::new(count as nat, |i: int| byte_of(value, i as nat)),
                0,
            );
            &&& final(mem)@ == after.0
            &&& r == after.1.is_none()
            &&& final(cpu)@ == stored(old(cpu)@, after.1, current_pc)
        }),
{
    let ghost bytes = Seq::new(count as nat, |i: int| byte_of(value, i as nat));
    let mut i: usize = 0;
    while i < count
        invariant
            i <= count <= 4,
            cpu.wf(),
            cpu.decoders() == old(cpu).decoders(),
            cpu@ == old(cpu)@,
            bytes == Seq::new(count as nat, |i: int| byte_of(value, i as nat)),
            store_bytes(old(mem)@, addr, bytes, 0) == store_bytes(mem@, addr, bytes, i as int),
        decreases count - i,
    {
        let result = mem.store8(addr.wrapping_add(i as u32), byte(value, i));
        if !cpu.mem_result_unit(result, MemAccessType::Store, current_pc) {
            return false;
        }
        i += 1;
    }
    true
}

/// Stores a half-word for the instruction at `current_pc`; takes the trap
/// of a refused access.
pub fn store_halfword<M: Memory>(
    cpu: &mut CpuCore,
    mem: &mut M,
    addr: u32,
    value: u16,
    current_pc: u32,
) -> (r: bool)
    requires
        old(cpu).wf(),
    ensures
        final(cpu).wf(),
        final(cpu).decoders() == old(cpu).decoders(),
        final(mem)@ == store_half(old(mem)@, addr, value).0,
        r == store_half(old(mem)@, addr, value).1.is_none(),
        final(cpu)@ == stored(old(cpu)@, store_half(old(mem)@, addr, value).1, current_pc),
{
    if addr % 2 == 0 {
        return cpu.mem_result_unit(mem.store16(addr, value), MemAccessType::Store, current_pc);
    }
    assert(Seq::new(2, |i: int| byte_of(value as u32, i as nat)) =~= seq![
        byte_of(value as u32, 0),
        byte_of(value as u32, 1),
    ]);
    store_split(cpu, mem, addr, value as u32, 2, current_pc)
}

/// Stores a word for the instruction at `current_pc`; takes the trap of a
/// refused access.
pub fn store_word_at<M: Memory>(
    cpu: &mut CpuCore,
    mem: &mut M,
    addr: u32,
    value: u32,
    current_pc: u32,
) -> (r: bool)
    requires
        old(cpu).wf(),
    ensures
        final(cpu).wf(),
        final(cpu).decoders() == old(cpu).decoders(),
        final(mem)@ == store_word(old(mem)@, addr, value).0,
        r == store_word(old(mem)@, addr, value).1.is_none(),
        final(cpu)@ == stored(old(cpu)@, store_word(old(mem)@, addr, value).1, current_pc),
{
    if addr % 4 == 0 {
        return cpu.mem_result_unit(mem.store32(addr, value), MemAccessType::Store, current_pc);
    }
    assert(Seq::new(4, |i: int| byte_of(value, i as nat)) =~= seq![
        byte_of(value, 0),
        byte_of(value, 1),
        byte_of(value, 2),
        byte_of(value, 3),
    ]);
    store_split(cpu, mem, addr, value, 4, current_pc)
}

} // verus!
