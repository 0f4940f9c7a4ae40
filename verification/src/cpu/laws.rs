//! What holds of every state of a core.
use super::csr_def::{CSR_MCAUSE, CSR_MEPC, CSR_MSTATUS, CSR_MTVAL, CSR_MTVEC};
use super::exu;
use super::exu::alu::{sext16, sext8, to_word};
use super::exu::rv32i::effective_addr;
use super::trap::mstatus::{
    lemma_trap_entry, lemma_trap_return, spec_read_mie, spec_read_mpie, spec_read_mpp,
    MACHINE_TRAP_FIELDS,
};
use super::trap::{lemma_trap_pc_aligned, spec_trap_pc, PrivilegeMode, TrapCause};
use super::{spec_dispatch, spec_step, steps, CoreState, CpuState};
use crate::isa::decoder::registry_decode;
use crate::isa::instr_def::TableDrivenDecoder;
use crate::isa::laws::lemma_decoded_wf;
use crate::isa::{DecodedInstr, RvInstr};
use crate::memory::{aligned, byte_of, lemma_le_bytes, AccessSize, Region};
use vstd::prelude::*;

verus! {

/// Trap entry keeps `x0` at zero.
pub proof fn lemma_trap_keeps_wf(s: CoreState, cause: TrapCause, tval: u32, epc: u32)
    requires
        s.wf(),
    ensures
        s.take_trap_at(cause, tval, epc).wf(),
{
}

/// The base integer executor keeps `x0` at zero.
pub proof fn lemma_base_keeps_wf(s: CoreState, m: Region, instr: RvInstr, current_pc: u32)
    requires
        s.wf(),
        instr.wf(),
    ensures
        exu::rv32i::spec_execute(s, m, instr, current_pc).0.wf(),
{
    let t = exu::rv32i::spec_execute(s, m, instr, current_pc).0;
    match instr {
        RvInstr::Lb { rd, .. }
        | RvInstr::Lh { rd, .. }
        | RvInstr::Lw { rd, .. }
        | RvInstr::Lbu { rd, .. }
        | RvInstr::Lhu { rd, .. } => {
            assert(t.wf()) by {
                assert(forall|v: u32| #[trigger] s.write_reg(rd, v).wf());
                assert(forall|c: TrapCause, tval: u32|
                    #[trigger] s.take_trap_at(c, tval, current_pc).wf());
            }
        },
        RvInstr::Sb { .. } | RvInstr::Sh { .. } | RvInstr::Sw { .. } => {
            assert(t.wf()) by {
                assert(forall|c: TrapCause, tval: u32|
                    #[trigger] s.take_trap_at(c, tval, current_pc).wf());
            }
        },
        RvInstr::Ecall | RvInstr::Ebreak => {
            assert(t.wf()) by {
                assert(forall|c: TrapCause, tval: u32|
                    #[trigger] s.take_trap_at(c, tval, current_pc).wf());
            }
        },
        RvInstr::Add { rd, .. }
        | RvInstr::Sub { rd, .. }
        | RvInstr::And { rd, .. }
        | RvInstr::Or { rd, .. }
        | RvInstr::Xor { rd, .. }
        | RvInstr::Slt { rd, .. }
        | RvInstr::Sltu { rd, .. }
        | RvInstr::Sll { rd, .. }
        | RvInstr::Srl { rd, .. }
        | RvInstr::Sra { rd, .. }
        | RvInstr::Addi { rd, .. }
        | RvInstr::Andi { rd, .. }
        | RvInstr::Ori { rd, .. }
        | RvInstr::Xori { rd, .. }
        | RvInstr::Slti { rd, .. }
        | RvInstr::Sltiu { rd, .. }
        | RvInstr::Slli { rd, .. }
        | RvInstr::Srli { rd, .. }
        | RvInstr::Srai { rd, .. }
        | RvInstr::Lui { rd, .. }
        | RvInstr::Auipc { rd, .. }
        | RvInstr::Jal { rd, .. }
        | RvInstr::Jalr { rd, .. } => {
            assert(t.wf()) by {
                assert(forall|v: u32| #[trigger] s.write_reg(rd, v).wf());
            }
        },
        _ => {},
    }
}

/// The multiply and divide executor keeps `x0` at zero.
pub proof fn lemma_muldiv_keeps_wf(s: CoreState, instr: RvInstr)
    requires
        s.wf(),
        instr.wf(),
    ensures
        exu::rv32m::spec_execute(s, instr).wf(),
{
}

/// The floating-point executor keeps `x0` at zero.
pub proof fn lemma_float_keeps_wf(s: CoreState, m: Region, instr: RvInstr, current_pc: u32)
    requires
        s.wf(),
        instr.wf(),
    ensures
        exu::rv32f::spec_execute(s, m, instr, current_pc).0.wf(),
{
    let t = exu::rv32f::spec_execute(s, m, instr, current_pc).0;
    match instr {
        RvInstr::Flw { frd, .. } => {
            assert(t.wf()) by {
                assert(forall|v: u32| #[trigger] s.write_fp(frd, v).wf());
                assert(forall|c: TrapCause, tval: u32|
                    #[trigger] s.take_trap_at(c, tval, current_pc).wf());
            }
        },
        RvInstr::Fsw { .. } => {
            assert(t.wf()) by {
                assert(forall|c: TrapCause, tval: u32|
                    #[trigger] s.take_trap_at(c, tval, current_pc).wf());
            }
        },
        _ => {},
    }
}

/// The CSR executor keeps `x0` at zero.
pub proof fn lemma_csr_keeps_wf(s: CoreState, instr: RvInstr)
    requires
        s.wf(),
        instr.wf(),
    ensures
        exu::zicsr::spec_execute(s, instr).wf(),
{
}

/// The privileged executor keeps `x0` at zero.
pub proof fn lemma_privileged_keeps_wf(s: CoreState, instr: RvInstr)
    requires
        s.wf(),
    ensures
        exu::priv_instr::spec_execute(s, instr).wf(),
{
}

/// Whatever instruction is dispatched, `x0` reads as zero afterwards and the
/// register files keep their 32 registers.
pub proof fn lemma_dispatch_keeps_wf(s: CoreState, m: Region, decoded: DecodedInstr, current_pc: u32)
    requires
        s.wf(),
        decoded.instr.wf(),
    ensures
        spec_dispatch(s, m, decoded, current_pc).0.wf(),
        spec_dispatch(s, m, decoded, current_pc).0.reg(0) == 0,
{
    let instr = decoded.instr;
    lemma_base_keeps_wf(s, m, instr, current_pc);
    lemma_muldiv_keeps_wf(s, instr);
    lemma_float_keeps_wf(s, m, instr, current_pc);
    lemma_csr_keeps_wf(s, instr);
    lemma_privileged_keeps_wf(s, instr);
}

/// After every step `x0` reads as zero.
pub proof fn lemma_step_keeps_wf(s: CoreState, m: Region, decoders: Seq<TableDrivenDecoder>)
    requires
        s.wf(),
    ensures
        spec_step(s, m, decoders).0.wf(),
        spec_step(s, m, decoders).0.reg(0) == 0,
{
    reveal(spec_step);
    if steps(s) {
        match m.load32(s.pc) {
            Ok(word) => {
                lemma_decoded_wf(decoders, word);
                lemma_dispatch_keeps_wf(
                    s.set_pc(s.pc.wrapping_add(4)),
                    m,
                    registry_decode(decoders, word),
                    s.pc,
                );
            },
            Err(_) => {},
        }
    }
}

/// After the outcome of a floating-point operation was handed to the core,
/// `x0` reads as zero.
pub proof fn lemma_complete_keeps_wf(s: CoreState, outcome: super::fpu::FpOutcome)
    requires
        s.wf(),
        s.pending matches Some(pending) ==> pending.instr.wf(),
    ensures
        exu::rv32f::spec_complete(s, outcome).wf(),
        exu::rv32f::spec_complete(s, outcome).reg(0) == 0,
{
}

/// An instruction is executed only where the program counter is a multiple
/// of four: a step from any other address takes an instruction access fault
/// at that address, and the handler that it enters lies at a multiple of
/// four.
pub proof fn lemma_fetch_is_aligned(s: CoreState, m: Region, decoders: Seq<TableDrivenDecoder>)
    requires
        steps(s),
    ensures
        m.load32(s.pc).is_ok() ==> s.pc % 4 == 0,
        s.pc % 4 != 0 ==> {
            &&& spec_step(s, m, decoders) == (
                s.take_trap_at(TrapCause::InstructionAccessFault, s.pc, s.pc),
                m,
            )
            &&& spec_step(s, m, decoders).0.pc % 4 == 0
        },
{
    reveal(spec_step);
    let trapped = s.take_trap_at(TrapCause::InstructionAccessFault, s.pc, s.pc);
    lemma_trap_pc_aligned(trapped.csr(CSR_MTVEC), TrapCause::InstructionAccessFault);
}

/// After a trap, `MPP` holds the encoding of the privilege mode before the
/// trap, `MPIE` the value that `MIE` had, and `MIE` is clear; no other bit
/// of `mstatus` has changed; `mepc`, `mcause` and `mtval` hold what the
/// trap was taken with; the core is in machine mode at the handler.
pub proof fn lemma_trap_entry_state(s: CoreState, cause: TrapCause, tval: u32, epc: u32)
    ensures
        ({
            let t = s.take_trap_at(cause, tval, epc);
            &&& spec_read_mpp(t.csr(CSR_MSTATUS)) == s.arch.privilege.spec_to_bits()
            &&& spec_read_mpie(t.csr(CSR_MSTATUS)) == spec_read_mie(s.csr(CSR_MSTATUS))
            &&& !spec_read_mie(t.csr(CSR_MSTATUS))
            &&& t.csr(CSR_MSTATUS) & !MACHINE_TRAP_FIELDS == s.csr(CSR_MSTATUS)
                & !MACHINE_TRAP_FIELDS
            &&& t.csr(CSR_MEPC) == epc
            &&& t.csr(CSR_MCAUSE) == cause.spec_cause_value()
            &&& t.csr(CSR_MTVAL) == tval
            &&& t.arch.privilege == PrivilegeMode::Machine
            &&& t.pc == spec_trap_pc(s.csr(CSR_MTVEC), cause)
            &&& forall|addr: u16|
                addr != CSR_MSTATUS && addr != CSR_MEPC && addr != CSR_MCAUSE && addr != CSR_MTVAL
                    ==> t.csr(addr) == s.csr(addr)
            &&& t.arch.regs == s.arch.regs
            &&& t.arch.fp == s.arch.fp
            &&& t.state == s.state
        }),
{
    lemma_trap_entry(s.csr(CSR_MSTATUS), s.arch.privilege.spec_to_bits());
}

/// After `MRET`, `MIE` holds the value that `MPIE` had, `MPIE` is set and
/// `MPP` is zero; no other bit of `mstatus` has changed; the core is in the
/// mode that `MPP` named, the reserved encoding standing for machine mode,
/// at the address that `mepc` holds.
pub proof fn lemma_mret_state(s: CoreState)
    ensures
        ({
            let t = exu::priv_instr::spec_mret(s);
            &&& spec_read_mie(t.csr(CSR_MSTATUS)) == spec_read_mpie(s.csr(CSR_MSTATUS))
            &&& spec_read_mpie(t.csr(CSR_MSTATUS))
            &&& spec_read_mpp(t.csr(CSR_MSTATUS)) == 0
            &&& t.csr(CSR_MSTATUS) & !MACHINE_TRAP_FIELDS == s.csr(CSR_MSTATUS)
                & !MACHINE_TRAP_FIELDS
            &&& t.arch.privilege == PrivilegeMode::spec_from_bits(
                spec_read_mpp(s.csr(CSR_MSTATUS)),
            )
            &&& spec_read_mpp(s.csr(CSR_MSTATUS)) != 2 ==> t.arch.privilege.spec_to_bits()
                == spec_read_mpp(s.csr(CSR_MSTATUS))
            &&& t.pc == s.csr(CSR_MEPC)
        }),
{
    let mstatus = s.csr(CSR_MSTATUS);
    lemma_trap_return(mstatus);
    assert(((mstatus >> 11) & 0x3) < 4 && ((((mstatus >> 11) & 0x3) as u8) & 0x3) as u32 == (mstatus
        >> 11) & 0x3) by (bit_vector);
}

/// A trap from machine mode followed by `MRET` in the handler restores the
/// privilege mode, the program counter and `MIE`.
pub proof fn lemma_trap_then_mret(s: CoreState, cause: TrapCause, tval: u32)
    requires
        s.arch.privilege != PrivilegeMode::_Reserved,
    ensures
        ({
            let t = exu::priv_instr::spec_mret(s.take_trap_at(cause, tval, s.pc));
            &&& t.pc == s.pc
            &&& t.arch.privilege == s.arch.privilege
            &&& spec_read_mie(t.csr(CSR_MSTATUS)) == spec_read_mie(s.csr(CSR_MSTATUS))
        }),
{
    lemma_trap_entry_state(s, cause, tval, s.pc);
    lemma_mret_state(s.take_trap_at(cause, tval, s.pc));
    super::trap::lemma_privilege_round_trip(s.arch.privilege);
}

/// `FMV.W.X` followed by `FMV.X.W` through the same floating-point register
/// hands the bit pattern on unchanged, whatever it is.
pub proof fn lemma_fmv_round_trip(s: CoreState, m: Region, rs1: u8, frd: u8, rd: u8, current_pc: u32)
    requires
        s.wf(),
        s.arch.fp.is_some(),
        rs1 < 32,
        frd < 32,
        0 < rd < 32,
    ensures
        ({
            let moved = exu::rv32f::spec_execute(s, m, RvInstr::FmvWX { frd, rs1 }, current_pc);
            let back = exu::rv32f::spec_execute(
                moved.0,
                moved.1,
                RvInstr::FmvXW { rd, frs1: frd },
                current_pc,
            );
            &&& back.0.reg(rd) == s.reg(rs1)
            &&& back.0.fp(frd) == s.reg(rs1)
            &&& back.1 == m
        }),
{
}

/// A word store that is not refused, followed by a word load from the same
/// address, loads the word that was stored.
pub proof fn lemma_store_then_load_word(
    s: CoreState,
    m: Region,
    base: u8,
    src: u8,
    rd: u8,
    offset: i32,
    current_pc: u32,
)
    requires
        s.wf(),
        base < 32,
        src < 32,
        0 < rd < 32,
        m.refusal(effective_addr(s.reg(base), offset), AccessSize::Word).is_none(),
    ensures
        ({
            let stored = exu::rv32i::spec_execute(
                s,
                m,
                RvInstr::Sw { rs1: base, rs2: src, offset },
                current_pc,
            );
            exu::rv32i::spec_execute(
                stored.0,
                stored.1,
                RvInstr::Lw { rd, rs1: base, offset },
                current_pc,
            ).0.reg(rd) == s.reg(src)
        }),
{
    crate::memory::lemma_store_load(m, effective_addr(s.reg(base), offset), s.reg(src));
}

/// A half-word store that is not refused, followed by a half-word load from
/// the same address, loads the low half of the register that was stored:
/// zero-extended by `LHU`, sign-extended by `LH`.
pub proof fn lemma_store_then_load_half(
    s: CoreState,
    m: Region,
    base: u8,
    src: u8,
    rd: u8,
    offset: i32,
    current_pc: u32,
)
    requires
        s.wf(),
        base < 32,
        src < 32,
        0 < rd < 32,
        m.refusal(effective_addr(s.reg(base), offset), AccessSize::Half).is_none(),
    ensures
        ({
            let stored = exu::rv32i::spec_execute(
                s,
                m,
                RvInstr::Sh { rs1: base, rs2: src, offset },
                current_pc,
            );
            &&& exu::rv32i::spec_execute(
                stored.0,
                stored.1,
                RvInstr::Lhu { rd, rs1: base, offset },
                current_pc,
            ).0.reg(rd) == s.reg(src) % 0x1_0000
            &&& exu::rv32i::spec_execute(
                stored.0,
                stored.1,
                RvInstr::Lh { rd, rs1: base, offset },
                current_pc,
            ).0.reg(rd) == sext16((s.reg(src) % 0x1_0000) as u16)
        }),
{
    crate::memory::lemma_store_load(
        m,
        effective_addr(s.reg(base), offset),
        (s.reg(src) % 0x1_0000) as u32,
    );
}

/// A byte store that is not refused, followed by a byte load from the same
/// address, loads the low byte of the register that was stored:
/// zero-extended by `LBU`, sign-extended by `LB`.
pub proof fn lemma_store_then_load_byte(
    s: CoreState,
    m: Region,
    base: u8,
    src: u8,
    rd: u8,
    offset: i32,
    current_pc: u32,
)
    requires
        s.wf(),
        base < 32,
        src < 32,
        0 < rd < 32,
        m.refusal(effective_addr(s.reg(base), offset), AccessSize::Byte).is_none(),
    ensures
        ({
            let stored = exu::rv32i::spec_execute(
                s,
                m,
                RvInstr::Sb { rs1: base, rs2: src, offset },
                current_pc,
            );
            &&& exu::rv32i::spec_execute(
                stored.0,
                stored.1,
                RvInstr::Lbu { rd, rs1: base, offset },
                current_pc,
            ).0.reg(rd) == s.reg(src) % 0x100
            &&& exu::rv32i::spec_execute(
                stored.0,
                stored.1,
                RvInstr::Lb { rd, rs1: base, offset },
                current_pc,
            ).0.reg(rd) == sext8((s.reg(src) % 0x100) as u8)
        }),
{
    crate::memory::lemma_store_load(m, effective_addr(s.reg(base), offset), s.reg(src));
}

/// Whether the regions `a` and `b` lie at the same place and have the same
/// size.
pub open spec fn same_extent(a: Region, b: Region) -> bool {
    a.base == b.base && a.bytes.len() == b.bytes.len()
}

/// A store byte by byte keeps the memory's place and size.
proof fn lemma_store_bytes_extent(m: Region, addr: u32, bytes: Seq<u8>, from: int)
    ensures
        same_extent(exu::rv32i::store_bytes(m, addr, bytes, from).0, m),
    decreases bytes.len() - from,
{
    if 0 <= from < bytes.len() {
        let at = addr.wrapping_add(from as u32);
        if m.refusal(at, AccessSize::Byte).is_none() {
            lemma_store_bytes_extent(m.store8(at, bytes[from]), addr, bytes, from + 1);
        }
    }
}

/// A store of a half-word or of a word keeps the memory's place and size.
proof fn lemma_store_extent(m: Region, addr: u32, value: u32)
    ensures
        same_extent(exu::rv32i::store_word(m, addr, value).0, m),
        same_extent(exu::rv32i::store_half(m, addr, (value % 0x1_0000) as u16).0, m),
        same_extent(m.store8(addr, byte_of(value, 0)), m),
{
    let half = (value % 0x1_0000) as u16;
    lemma_store_bytes_extent(
        m,
        addr,
        seq![byte_of(value, 0), byte_of(value, 1), byte_of(value, 2), byte_of(value, 3)],
        0,
    );
    lemma_store_bytes_extent(m, addr, seq![byte_of(half as u32, 0), byte_of(half as u32, 1)], 0);
}

/// An instruction keeps the memory's place and size.
proof fn lemma_dispatch_keeps_extent(s: CoreState, m: Region, decoded: DecodedInstr, current_pc: u32)
    ensures
        same_extent(spec_dispatch(s, m, decoded, current_pc).1, m),
{
    match decoded.instr {
        RvInstr::Sb { rs1, rs2, offset } => {
            lemma_store_extent(m, effective_addr(s.reg(rs1), offset), s.reg(rs2));
        },
        RvInstr::Sh { rs1, rs2, offset } => {
            lemma_store_extent(m, effective_addr(s.reg(rs1), offset), s.reg(rs2));
        },
        RvInstr::Sw { rs1, rs2, offset } => {
            lemma_store_extent(m, effective_addr(s.reg(rs1), offset), s.reg(rs2));
        },
        RvInstr::Fsw { frs2, rs1, offset } => {
            lemma_store_extent(m, effective_addr(s.reg(rs1), offset), s.fp(frs2));
        },
        _ => {},
    }
}

/// A step keeps the memory's place and size: whatever the program stores,
/// the same addresses are backed by memory before and after.
pub proof fn lemma_step_keeps_extent(s: CoreState, m: Region, decoders: Seq<TableDrivenDecoder>)
    ensures
        same_extent(spec_step(s, m, decoders).1, m),
{
    reveal(spec_step);
    if steps(s) {
        match m.load32(s.pc) {
            Ok(word) => {
                lemma_dispatch_keeps_extent(
                    s.set_pc(s.pc.wrapping_add(4)),
                    m,
                    registry_decode(decoders, word),
                    s.pc,
                );
            },
            Err(_) => {},
        }
    }
}

/// The address behind an instruction at an even address is even, so that a
/// jump to it through a register lands on it.
proof fn lemma_next_is_even(current_pc: u32)
    requires
        current_pc % 2 == 0,
    ensures
        current_pc.wrapping_add(4) % 2 == 0,
        effective_addr(current_pc.wrapping_add(4), 0) & !1u32 == current_pc.wrapping_add(4),
{
    let next = current_pc.wrapping_add(4);
    assert(next % 2 == 0);
    assert(next % 2 == 0 ==> next & !1u32 == next) by (bit_vector);
    assert(to_word(0) == 0);
    assert(effective_addr(next, 0) == next);
}

/// What `JAL` does to the core.
proof fn lemma_jal(s: CoreState, m: Region, rd: u8, offset: i32, current_pc: u32)
    ensures
        exu::rv32i::spec_execute(s, m, RvInstr::Jal { rd, offset }, current_pc) == (
            s.write_reg(rd, s.pc).set_pc(current_pc.wrapping_add(to_word(offset as int))),
            m,
        ),
{
}

/// What `JALR` does to the core.
proof fn lemma_jalr(s: CoreState, m: Region, rd: u8, rs1: u8, offset: i32, current_pc: u32)
    ensures
        exu::rv32i::spec_execute(s, m, RvInstr::Jalr { rd, rs1, offset }, current_pc) == (
            s.write_reg(rd, s.pc).set_pc(effective_addr(s.reg(rs1), offset) & !1u32),
            m,
        ),
{
}

/// `JAL x1, target` followed, at the target, by `JALR x0, 0(x1)` returns to
/// the instruction behind the `JAL`, which lies at an even address.
pub proof fn lemma_jal_jalr_returns(s: CoreState, m: Region, offset: i32, current_pc: u32)
    requires
        s.wf(),
        current_pc % 2 == 0,
        s.pc == current_pc.wrapping_add(4),
    ensures
        ({
            let called = exu::rv32i::spec_execute(s, m, RvInstr::Jal { rd: 1, offset }, current_pc);
            let returned = exu::rv32i::spec_execute(
                called.0.set_pc(called.0.pc.wrapping_add(4)),
                called.1,
                RvInstr::Jalr { rd: 0, rs1: 1, offset: 0 },
                called.0.pc,
            );
            &&& called.0.pc == current_pc.wrapping_add(to_word(offset as int))
            &&& called.0.reg(1) == current_pc.wrapping_add(4)
            &&& returned.0.pc == current_pc.wrapping_add(4)
            &&& returned.0.arch.regs == called.0.arch.regs
        }),
{
    let next = current_pc.wrapping_add(4);
    let target = current_pc.wrapping_add(to_word(offset as int));
    let called = s.write_reg(1, next).set_pc(target);
    let at_target = called.set_pc(target.wrapping_add(4));
    lemma_jal(s, m, 1, offset, current_pc);
    lemma_jalr(at_target, m, 0, 1, 0, target);
    lemma_next_is_even(current_pc);
    assert(called.reg(1) == next);
    assert(at_target.reg(1) == next);
    assert(at_target.write_reg(0, at_target.pc).arch.regs == called.arch.regs);
}

} // verus!
