//! The executor of the Zicsr extension.
use crate::cpu::{CoreState, CpuCore};
use crate::isa::RvInstr;
use vstd::prelude::*;

verus! {

/// Whether `instr` belongs to the Zicsr extension.
pub open spec fn handles(instr: RvInstr) -> bool {
    match instr {
        RvInstr::Csrrw { .. }
        | RvInstr::Csrrs { .. }
        | RvInstr::Csrrc { .. }
        | RvInstr::Csrrwi { .. }
        | RvInstr::Csrrsi { .. }
        | RvInstr::Csrrci { .. } => true,
        _ => false,
    }
}

/// The state after a read-and-write: `rd` takes the old value of the CSR
/// unless `rd` is `x0`, in which case the CSR is not read; the CSR takes
/// `source`.
pub open spec fn swapped(s: CoreState, rd: u8, csr: u16, source: u32) -> CoreState {
    s.write_reg(rd, s.csr(csr)).write_csr(csr, source)
}

/// The state after a read-and-set (`clear` false) or a read-and-clear
/// (`clear` true) with the source register `rs1`: `rd` takes the old value of
/// the CSR; and, if and only if `rs1` is not `x0`, the CSR takes its old
/// value with the bits set or cleared that `rs1` held before the
/// instruction, also where `rd` and `rs1` are the same register.
pub open spec fn modified(s: CoreState, rd: u8, csr: u16, rs1: u8, clear: bool) -> CoreState {
    let read = s.write_reg(rd, s.csr(csr));
    if rs1 == 0 {
        read
    } else if clear {
        read.write_csr(csr, s.csr(csr) & !s.reg(rs1))
    } else {
        read.write_csr(csr, s.csr(csr) | s.reg(rs1))
    }
}

/// The state after a read-and-set or a read-and-clear with the immediate
/// `zimm`: `rd` takes the old value of the CSR; then, if and only if `zimm`
/// is not zero, the CSR takes its old value with the bits of `zimm` set or
/// cleared.
pub open spec fn modified_imm(s: CoreState, rd: u8, csr: u16, zimm: u8, clear: bool) -> CoreState {
    let read = s.write_reg(rd, s.csr(csr));
    if zimm == 0 {
        read
    } else if clear {
        read.write_csr(csr, s.csr(csr) & !(zimm as u32))
    } else {
        read.write_csr(csr, s.csr(csr) | (zimm as u32))
    }
}

/// The core after the CSR instruction `instr`.  Any other instruction
/// changes nothing.
pub open spec fn spec_execute(s: CoreState, instr: RvInstr) -> CoreState {
    match instr {
        RvInstr::Csrrw { rd, rs1, csr } => swapped(s, rd, csr, s.reg(rs1)),
        RvInstr::Csrrs { rd, rs1, csr } => modified(s, rd, csr, rs1, false),
        RvInstr::Csrrc { rd, rs1, csr } => modified(s, rd, csr, rs1, true),
        RvInstr::Csrrwi { rd, zimm, csr } => swapped(s, rd, csr, zimm as u32),
        RvInstr::Csrrsi { rd, zimm, csr } => modified_imm(s, rd, csr, zimm, false),
        RvInstr::Csrrci { rd, zimm, csr } => modified_imm(s, rd, csr, zimm, true),
        _ => s,
    }
}

/// Executes `instr` where it belongs to the Zicsr extension; returns whether
/// it does.
pub fn execute(cpu: &mut CpuCore, instr: RvInstr) -> (handled: bool)
    requires
        old(cpu).wf(),
        instr.wf(),
    ensures
        final(cpu).wf(),
        final(cpu).decoders() == old(cpu).decoders(),
        handled == handles(instr),
        final(cpu)@ == spec_execute(old(cpu)@, instr),
{
    proof {
        old(cpu).lemma_wf();
    }
    match instr {
        RvInstr::Csrrw { rd, rs1, csr } => {
            let source = cpu.read_reg(rs1);
            if rd != 0 {
                let old_val = cpu.csr_read(csr);
                cpu.write_reg(rd, old_val);
            }
            cpu.csr_write(csr, source);
        },
        RvInstr::Csrrs { rd, rs1, csr } => {
            let old_val = cpu.csr_read(csr);
            let source = cpu.read_reg(rs1);
            cpu.write_reg(rd, old_val);
            if rs1 != 0 {
                cpu.csr_write(csr, old_val | source);
            }
        },
        RvInstr::Csrrc { rd, rs1, csr } => {
            let old_val = cpu.csr_read(csr);
            let source = cpu.read_reg(rs1);
            cpu.write_reg(rd, old_val);
            if rs1 != 0 {
                cpu.csr_write(csr, old_val & !source);
            }
        },
        RvInstr::Csrrwi { rd, zimm, csr } => {
            if rd != 0 {
                let old_val = cpu.csr_read(csr);
                cpu.write_reg(rd, old_val);
            }
            cpu.csr_write(csr, zimm as u32);
        },
        RvInstr::Csrrsi { rd, zimm, csr } => {
            let old_val = cpu.csr_read(csr);
            cpu.write_reg(rd, old_val);
            if zimm != 0 {
                cpu.csr_write(csr, old_val | (zimm as u32));
            }
        },
        RvInstr::Csrrci { rd, zimm, csr } => {
            let old_val = cpu.csr_read(csr);
            cpu.write_reg(rd, old_val);
            if zimm != 0 {
                cpu.csr_write(csr, old_val & !(zimm as u32));
            }
        },
        _ => {
            return false;
        },
    }
    true
}

} // verus!
