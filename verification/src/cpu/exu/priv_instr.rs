//! The executor of the privileged instructions.
use crate::cpu::csr_def::{CSR_MEPC, CSR_MSTATUS, CSR_SEPC, CSR_SSTATUS};
use crate::cpu::trap::mstatus::{
    read_mpie, read_mpp, spec_read_mpp, spec_read_spp, spec_supervisor_return, spec_trap_return,
    write_mpp, MIE_MASK, MPIE_MASK, SIE_MASK, SPIE_MASK, SPP_MASK,
};
use crate::cpu::trap::PrivilegeMode;
use crate::cpu::{CoreState, CpuCore, CpuState};
use crate::isa::RvInstr;
use vstd::prelude::*;

verus! {

/// Whether `instr` is a privileged instruction.
pub open spec fn handles(instr: RvInstr) -> bool {
    match instr {
        RvInstr::Mret | RvInstr::Sret | RvInstr::Wfi => true,
        _ => false,
    }
}

/// The core after `MRET`: in `mstatus`, `MIE` takes the value of `MPIE`,
/// `MPIE` is set and `MPP` is cleared; the core enters the mode that `MPP`
/// held at the address that `mepc` holds.
pub open spec fn spec_mret(s: CoreState) -> CoreState {
    let mstatus = s.csr(CSR_MSTATUS);
    s.write_csr(CSR_MSTATUS, spec_trap_return(mstatus)).set_privilege(
        PrivilegeMode::spec_from_bits(spec_read_mpp(mstatus)),
    ).set_pc(s.write_csr(CSR_MSTATUS, spec_trap_return(mstatus)).csr(CSR_MEPC))
}

/// The core after `SRET`: in `sstatus`, `SIE` takes the value of `SPIE`,
/// `SPIE` is set and `SPP` is cleared; the core enters the mode that `SPP`
/// held at the address that `sepc` holds.
pub open spec fn spec_sret(s: CoreState) -> CoreState {
    let sstatus = s.csr(CSR_SSTATUS);
    s.write_csr(CSR_SSTATUS, spec_supervisor_return(sstatus)).set_privilege(
        if spec_read_spp(sstatus) == 0 {
            PrivilegeMode::User
        } else {
            PrivilegeMode::Supervisor
        },
    ).set_pc(s.write_csr(CSR_SSTATUS, spec_supervisor_return(sstatus)).csr(CSR_SEPC))
}

/// The core after `WFI`: it waits for an interrupt.
pub open spec fn spec_wfi(s: CoreState) -> CoreState {
    s.set_state(CpuState::WaitForInterrupt)
}

/// The core after the privileged instruction `instr`.  Any other
/// instruction changes nothing.
pub open spec fn spec_execute(s: CoreState, instr: RvInstr) -> CoreState {
    match instr {
        RvInstr::Mret => spec_mret(s),
        RvInstr::Sret => spec_sret(s),
        RvInstr::Wfi => spec_wfi(s),
        _ => s,
    }
}

/// Executes `instr` where it is a privileged instruction; returns whether it
/// is.
pub fn execute(cpu: &mut CpuCore, instr: RvInstr) -> (handled: bool)
    requires
        old(cpu).wf(),
    ensures
        final(cpu).wf(),
        final(cpu).decoders() == old(cpu).decoders(),
        handled == handles(instr),
        final(cpu)@ == spec_execute(old(cpu)@, instr),
{
    match instr {
        RvInstr::Mret => {
            execute_mret(cpu);
            true
        },
        RvInstr::Sret => {
            execute_sret(cpu);
            true
        },
        RvInstr::Wfi => {
            execute_wfi(cpu);
            true
        },
        _ => false,
    }
}

/// Returns from a machine-mode trap handler.
pub fn execute_mret(cpu: &mut CpuCore)
    requires
        old(cpu).wf(),
    ensures
        final(cpu).wf(),
        final(cpu).decoders() == old(cpu).decoders(),
        final(cpu)@ == spec_mret(old(cpu)@),
{
    let mstatus = cpu.csr_read(CSR_MSTATUS);
    let mpp = read_mpp(mstatus);
    let restored = if read_mpie(mstatus) {
        mstatus | MIE_MASK
    } else {
        mstatus & !MIE_MASK
    };
    cpu.csr_write(CSR_MSTATUS, write_mpp(restored, 0) | MPIE_MASK);
    cpu.set_privilege(PrivilegeMode::from_bits(mpp));
    let mepc = cpu.csr_read(CSR_MEPC);
    cpu.set_pc(mepc);
}

/// Returns from a supervisor-mode trap handler.
pub fn execute_sret(cpu: &mut CpuCore)
    requires
        old(cpu).wf(),
    ensures
        final(cpu).wf(),
        final(cpu).decoders() == old(cpu).decoders(),
        final(cpu)@ == spec_sret(old(cpu)@),
{
    let sstatus = cpu.csr_read(CSR_SSTATUS);
    let spie = sstatus & SPIE_MASK != 0;
    let spp = (sstatus >> 8) & 0x1;
    let restored = if spie {
        sstatus | SIE_MASK
    } else {
        sstatus & !SIE_MASK
    };
    cpu.csr_write(CSR_SSTATUS, (restored & !SPP_MASK) | SPIE_MASK);
    assert((sstatus >> 8) & 0x1 < 2) by (bit_vector);
    let mode = if spp == 0 {
        PrivilegeMode::User
    } else {
        PrivilegeMode::Supervisor
    };
    cpu.set_privilege(mode);
    let sepc = cpu.csr_read(CSR_SEPC);
    cpu.set_pc(sepc);
}

/// Waits for an interrupt.
pub fn execute_wfi(cpu: &mut CpuCore)
    requires
        old(cpu).wf(),
    ensures
        final(cpu).wf(),
        final(cpu).decoders() == old(cpu).decoders(),
        final(cpu)@ == spec_wfi(old(cpu)@),
{
    cpu.set_state(CpuState::WaitForInterrupt);
}

} // verus!
