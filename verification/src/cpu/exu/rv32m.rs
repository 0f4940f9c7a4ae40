//! The executor of the M extension.
use super::alu::{
    div, divu, mul_low, mulh, mulhsu, mulhu, rem, remu, spec_div, spec_divu, spec_mul, spec_mulh,
    spec_mulhsu, spec_mulhu, spec_rem, spec_remu,
};
use crate::cpu::{CoreState, CpuCore};
use crate::isa::RvInstr;
use vstd::prelude::*;

verus! {

/// Whether `instr` belongs to the M extension.
pub open spec fn handles(instr: RvInstr) -> bool {
    match instr {
        RvInstr::Mul { .. }
        | RvInstr::Mulh { .. }
        | RvInstr::Mulhsu { .. }
        | RvInstr::Mulhu { .. }
        | RvInstr::Div { .. }
        | RvInstr::Divu { .. }
        | RvInstr::Rem { .. }
        | RvInstr::Remu { .. } => true,
        _ => false,
    }
}

/// The core after the multiply or divide instruction `instr`.  Any other
/// instruction changes nothing.
pub open spec fn spec_execute(s: CoreState, instr: RvInstr) -> CoreState {
    match instr {
        RvInstr::Mul { rd, rs1, rs2 } => s.write_reg(rd, spec_mul(s.reg(rs1), s.reg(rs2))),
        RvInstr::Mulh { rd, rs1, rs2 } => s.write_reg(rd, spec_mulh(s.reg(rs1), s.reg(rs2))),
        RvInstr::Mulhsu { rd, rs1, rs2 } => s.write_reg(rd, spec_mulhsu(s.reg(rs1), s.reg(rs2))),
        RvInstr::Mulhu { rd, rs1, rs2 } => s.write_reg(rd, spec_mulhu(s.reg(rs1), s.reg(rs2))),
        RvInstr::Div { rd, rs1, rs2 } => s.write_reg(rd, spec_div(s.reg(rs1), s.reg(rs2))),
        RvInstr::Divu { rd, rs1, rs2 } => s.write_reg(rd, spec_divu(s.reg(rs1), s.reg(rs2))),
        RvInstr::Rem { rd, rs1, rs2 } => s.write_reg(rd, spec_rem(s.reg(rs1), s.reg(rs2))),
        RvInstr::Remu { rd, rs1, rs2 } => s.write_reg(rd, spec_remu(s.reg(rs1), s.reg(rs2))),
        _ => s,
    }
}

/// Executes `instr` where it belongs to the M extension; returns whether it
/// does.
pub fn execute(cpu: &mut CpuCore, instr: RvInstr) -> (handled: bool)
    requires
        old(cpu).wf(),
        instr.wf(),
    ensures
        final(cpu).wf(),
        final(cpu).decoders() == old(cpu).decoders(),
        handled == handles(instr),
        final(cpu)@ == spec_execute(old(cpu)@, instr),
{
    match instr {
        RvInstr::Mul { rd, rs1, rs2 } => {
            let result = mul_low(cpu.read_reg(rs1), cpu.read_reg(rs2));
            cpu.write_reg(rd, result);
        },
        RvInstr::Mulh { rd, rs1, rs2 } => {
            let result = mulh(cpu.read_reg(rs1), cpu.read_reg(rs2));
            cpu.write_reg(rd, result);
        },
        RvInstr::Mulhsu { rd, rs1, rs2 } => {
            let result = mulhsu(cpu.read_reg(rs1), cpu.read_reg(rs2));
            cpu.write_reg(rd, result);
        },
        RvInstr::Mulhu { rd, rs1, rs2 } => {
            let result = mulhu(cpu.read_reg(rs1), cpu.read_reg(rs2));
            cpu.write_reg(rd, result);
        },
        RvInstr::Div { rd, rs1, rs2 } => {
            let result = div(cpu.read_reg(rs1), cpu.read_reg(rs2));
            cpu.write_reg(rd, result);
        },
        RvInstr::Divu { rd, rs1, rs2 } => {
            let result = divu(cpu.read_reg(rs1), cpu.read_reg(rs2));
            cpu.write_reg(rd, result);
        },
        RvInstr::Rem { rd, rs1, rs2 } => {
            let result = rem(cpu.read_reg(rs1), cpu.read_reg(rs2));
            cpu.write_reg(rd, result);
        },
        RvInstr::Remu { rd, rs1, rs2 } => {
            let result = remu(cpu.read_reg(rs1), cpu.read_reg(rs2));
            cpu.write_reg(rd, result);
        },
        _ => {
            return false;
        },
    }
    true
}

} // verus!
