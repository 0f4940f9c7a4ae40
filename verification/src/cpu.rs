//! The processor core: architectural state, the trap unit, the executors and
//! the step loop.
pub mod builder;
pub mod csr_def;
pub mod exu;
pub mod fpu;
pub mod laws;
pub mod status;
pub mod trap;

use crate::isa::decoder::DecoderRegistry;
use crate::isa::instr_def::TableDrivenDecoder;
use crate::isa::decoder::registry_decode;
use crate::isa::{DecodedInstr, IsaConfig, RvInstr};
use crate::memory::{MemError, MemResult, Memory, Region};
use csr_def::{CSR_MCAUSE, CSR_MEPC, CSR_MSTATUS, CSR_MTVAL, CSR_MTVEC};
use fpu::{FpOutcome, FpRequest, PendingFp};
use status::{ArchState, Status};
use std::sync::Arc;
use trap::mstatus::{spec_trap_entry, MIE_MASK, MPIE_MASK};
use trap::{calculate_trap_pc, spec_trap_pc};
use vstd::prelude::*;

pub use builder::CpuBuilder;
pub use status::{CsrEntry, StatusSnapshot};
pub use trap::{PrivilegeMode, TrapCause};

verus! {

/// What the core is doing.
#[derive(Debug, Clone, Copy, PartialEq, Eq)]
pub enum CpuState {
    /// Executing instructions.
    Running,
    /// Stopped at a word that no executor claimed.
    IllegalInstruction(u32),
    /// Stopped by `WFI`.
    WaitForInterrupt,
    /// Stopped for good.
    Halted,
}

/// Whether a memory access reads or writes.
#[derive(Debug, Clone, Copy, PartialEq, Eq)]
pub enum MemAccessType {
    Load,
    Store,
}

/// The trap cause that a refused memory access raises: a misalignment or an
/// access fault, of a load or of a store.
pub open spec fn fault_cause(error: MemError, access: MemAccessType) -> TrapCause {
    match (error, access) {
        (MemError::Unaligned { .. }, MemAccessType::Load) => TrapCause::LoadAddressMisaligned,
        (MemError::Unaligned { .. }, MemAccessType::Store) => TrapCause::StoreAddressMisaligned,
        (MemError::OutOfRange { .. }, MemAccessType::Load) => TrapCause::LoadAccessFault,
        (MemError::OutOfRange { .. }, MemAccessType::Store) => TrapCause::StoreAccessFault,
    }
}

/// The address at which a memory access was refused.
pub open spec fn fault_addr(error: MemError) -> u32 {
    match error {
        MemError::Unaligned { addr, .. } => addr,
        MemError::OutOfRange { addr, .. } => addr,
    }
}

/// The state of a core as a mathematical value.
pub struct CoreState {
    /// Register files, CSRs and privilege mode.
    pub arch: ArchState,
    /// The program counter.
    pub pc: u32,
    /// What the core is doing.
    pub state: CpuState,
    /// The floating-point instruction whose arithmetic the core has handed
    /// out and whose outcome it awaits.
    pub pending: Option<PendingFp>,
}

impl CoreState {
    /// The register files have 32 registers each and `x0` is zero.
    pub open spec fn wf(self) -> bool {
        self.arch.wf()
    }

    /// The value of integer register `reg`.
    pub open spec fn reg(self, reg: u8) -> u32 {
        self.arch.regs[reg as int]
    }

    /// The value that floating-point register `reg` reads as.
    pub open spec fn fp(self, reg: u8) -> u32 {
        self.arch.read_fp(reg)
    }

    /// The value that the CSR at `addr` reads as.
    pub open spec fn csr(self, addr: u16) -> u32 {
        self.arch.csr(addr)
    }

    /// The state after a write to an integer register.
    pub open spec fn write_reg(self, reg: u8, value: u32) -> CoreState {
        CoreState { arch: self.arch.write_reg(reg, value), ..self }
    }

    /// The state after a write to a floating-point register.
    pub open spec fn write_fp(self, reg: u8, value: u32) -> CoreState {
        CoreState { arch: self.arch.write_fp(reg, value), ..self }
    }

    /// The state after a write to a CSR.
    pub open spec fn write_csr(self, addr: u16, value: u32) -> CoreState {
        CoreState { arch: self.arch.write_csr(addr, value), ..self }
    }

    /// The state with the program counter at `pc`.
    pub open spec fn set_pc(self, pc: u32) -> CoreState {
        CoreState { pc, ..self }
    }

    /// The state with the privilege mode `mode`.
    pub open spec fn set_privilege(self, mode: PrivilegeMode) -> CoreState {
        CoreState { arch: ArchState { privilege: mode, ..self.arch }, ..self }
    }

    /// The state with the execution state `state`.
    pub open spec fn set_state(self, state: CpuState) -> CoreState {
        CoreState { state, ..self }
    }

    /// The state with `pending` as the instruction that awaits its outcome.
    pub open spec fn set_pending(self, pending: Option<PendingFp>) -> CoreState {
        CoreState { pending, ..self }
    }

    /// The state after a memory access of the instruction at `current_pc`
    /// was refused with `error`: a trap whose value is the faulting address.
    pub open spec fn mem_fault(self, error: MemError, access: MemAccessType, current_pc: u32) -> CoreState {
        self.take_trap_at(fault_cause(error, access), fault_addr(error), current_pc)
    }

    /// The state after trap entry.
    ///
    /// `mepc`, `mcause` and `mtval` record the trap; in `mstatus`, `MPIE`
    /// takes the value of `MIE`, `MIE` is cleared and `MPP` takes the
    /// current privilege; the core enters machine mode at the handler that
    /// `mtvec` names.
    pub open spec fn take_trap_at(self, cause: TrapCause, tval: u32, epc: u32) -> CoreState {
        let recorded = self.write_csr(CSR_MEPC, epc).write_csr(
            CSR_MCAUSE,
            cause.spec_cause_value(),
        ).write_csr(CSR_MTVAL, tval);
        let entered = recorded.write_csr(
            CSR_MSTATUS,
            spec_trap_entry(recorded.csr(CSR_MSTATUS), self.arch.privilege.spec_to_bits()),
        ).set_privilege(PrivilegeMode::Machine);
        entered.set_pc(spec_trap_pc(entered.csr(CSR_MTVEC), cause))
    }
}

/// The core and the memory after the decoded instruction `decoded`, fetched
/// at `current_pc`, was offered to the executors in the order base integer,
/// M, F, Zicsr, privileged.  The first executor that claims it executes it;
/// where none does, the core stops as having met an illegal instruction and
/// takes no trap.
pub open spec fn spec_dispatch(s: CoreState, m: Region, decoded: DecodedInstr, current_pc: u32) -> (
    CoreState,
    Region,
) {
    let instr = decoded.instr;
    if exu::rv32i::handles(instr) {
        exu::rv32i::spec_execute(s, m, instr, current_pc)
    } else if exu::rv32m::handles(instr) {
        (exu::rv32m::spec_execute(s, instr), m)
    } else if exu::rv32f::handles(s, instr) {
        exu::rv32f::spec_execute(s, m, instr, current_pc)
    } else if exu::zicsr::handles(instr) {
        (exu::zicsr::spec_execute(s, instr), m)
    } else if exu::priv_instr::handles(instr) {
        (exu::priv_instr::spec_execute(s, instr), m)
    } else {
        (
            s.set_state(
                CpuState::IllegalInstruction(
                    match instr {
                        RvInstr::Illegal { raw } => raw,
                        RvInstr::Custom { raw, .. } => raw,
                        _ => decoded.raw,
                    },
                ),
            ),
            m,
        )
    }
}

/// Whether a core in state `s` executes an instruction when stepped: it is
/// running and does not wait for the outcome of a floating-point operation.
pub open spec fn steps(s: CoreState) -> bool {
    s.state == CpuState::Running && s.pending.is_none()
}

/// The core and the memory after one step of a core with the decoders
/// `decoders`.
///
/// A core that does not execute stays as it is.  Else the word at the
/// program counter is fetched; a refused fetch takes an instruction access
/// fault at that address.  The word is decoded, the program counter moves
/// past it, and the instruction is dispatched.
#[verifier::opaque]
pub open spec fn spec_step<D: crate::isa::InstrDecoder>(s: CoreState, m: Region, decoders: Seq<D>) -> (
    CoreState,
    Region,
) {
    if !steps(s) {
        (s, m)
    } else {
        match m.load32(s.pc) {
            Err(_) => (s.take_trap_at(TrapCause::InstructionAccessFault, s.pc, s.pc), m),
            Ok(word) => spec_dispatch(
                s.set_pc(s.pc.wrapping_add(4)),
                m,
                registry_decode(decoders, word),
                s.pc,
            ),
        }
    }
}

/// The number of steps taken, the core and the memory after at most `max`
/// steps: stepping ends after the step that leaves the core not running, or
/// waiting for the outcome of a floating-point operation.
pub open spec fn spec_run<D: crate::isa::InstrDecoder>(
    s: CoreState,
    m: Region,
    decoders: Seq<D>,
    max: nat,
) -> (nat, CoreState, Region)
    decreases max,
{
    if max == 0 {
        (0, s, m)
    } else {
        let after = spec_step(s, m, decoders);
        if !steps(after.0) {
            (1, after.0, after.1)
        } else {
            let rest = spec_run(after.0, after.1, decoders, (max - 1) as nat);
            (rest.0 + 1, rest.1, rest.2)
        }
    }
}

/// A single hart.
pub struct CpuCore {
    status: Status,
    pc: u32,
    state: CpuState,
    decoder: Arc<DecoderRegistry>,
    pending: Option<PendingFp>,
}

impl Default for CpuCore {
    fn default() -> (r: Self)
        ensures
            r@ == (CoreState {
                arch: ArchState::reset(),
                pc: 0,
                state: CpuState::Running,
                pending: None,
            }),
            r.wf(),
            r.decoders().len() == 1,
            crate::isa::rv32i::is_rv32i_decoder(r.decoders()[0]),
    {
        CpuCore::new(0)
    }
}

impl View for CpuCore {
    type V = CoreState;

    closed spec fn view(&self) -> CoreState {
        CoreState { arch: self.status@, pc: self.pc, state: self.state, pending: self.pending }
    }
}

impl CpuCore {
    /// The core's invariant: the registry's index agrees with its decoders,
    /// `x0` holds zero, and an instruction that awaits its result has
    /// five-bit register indices.
    pub closed spec fn wf(&self) -> bool {
        &&& self.decoder.wf()
        &&& self.status@.wf()
        &&& self.pending matches Some(pending) ==> pending.instr.wf()
    }

    /// A well-formed core has a well-formed state.
    pub proof fn lemma_wf(&self)
        requires
            self.wf(),
        ensures
            self@.wf(),
            self@.pending matches Some(pending) ==> pending.instr.wf(),
    {
    }

    /// The decoders of the core's registry, in registration order.
    pub closed spec fn decoders(&self) -> Seq<TableDrivenDecoder> {
        self.decoder@
    }

    /// A core of the base integer instruction set, reset, that starts at
    /// `entry_pc`.
    pub fn new(entry_pc: u32) -> (r: Self)
        ensures
            r@ == (CoreState {
                arch: ArchState::reset(),
                pc: entry_pc,
                state: CpuState::Running,
                pending: None,
            }),
            r.wf(),
            r.decoders().len() == 1,
            crate::isa::rv32i::is_rv32i_decoder(r.decoders()[0]),
    {
        let registry = IsaConfig::new().register_base();
        CpuCore {
            status: Status::new(),
            pc: entry_pc,
            state: CpuState::Running,
            decoder: Arc::new(registry),
            pending: None,
        }
    }

    /// A core with the given state and registry that starts at `entry_pc`.
    pub(crate) fn with_config(entry_pc: u32, status: Status, decoder: Arc<DecoderRegistry>) -> (r:
        Self)
        requires
            decoder.wf(),
            status@.wf(),
        ensures
            r@ == (CoreState {
                arch: status@,
                pc: entry_pc,
                state: CpuState::Running,
                pending: None,
            }),
            r.wf(),
            r.decoders() == decoder@,
    {
        CpuCore { status, pc: entry_pc, state: CpuState::Running, decoder, pending: None }
    }

    /// The program counter.
    pub fn pc(&self) -> (r: u32)
        ensures
            r == self@.pc,
    {
        self.pc
    }

    /// Sets the program counter.
    pub fn set_pc(&mut self, pc: u32)
        requires
            old(self).wf(),
        ensures
            final(self).wf(),
            final(self)@ == old(self)@.set_pc(pc),
            final(self).decoders() == old(self).decoders(),
    {
        self.pc = pc;
    }

    /// What the core is doing.
    pub fn state(&self) -> (r: CpuState)
        ensures
            r == self@.state,
    {
        self.state
    }

    /// Reads integer register `reg`; `x0` reads as zero.
    pub fn read_reg(&self, reg: u8) -> (r: u32)
        requires
            self.wf(),
            reg < 32,
        ensures
            r == self@.reg(reg),
            reg == 0 ==> r == 0,
    {
        self.status.int_read(reg)
    }

    /// Writes `value` to integer register `reg`; `x0` ignores the write.
    pub fn write_reg(&mut self, reg: u8, value: u32)
        requires
            old(self).wf(),
            reg < 32,
        ensures
            final(self).wf(),
            final(self)@ == old(self)@.write_reg(reg, value),
            final(self).decoders() == old(self).decoders(),
    {
        self.status.int_write(reg, value)
    }

    /// Reads floating-point register `reg`; zero where the F extension is
    /// disabled.
    pub fn read_fp(&self, reg: u8) -> (r: u32)
        requires
            reg < 32,
        ensures
            r == self@.fp(reg),
    {
        match self.status.fp_read(reg) {
            Some(value) => value,
            None => 0,
        }
    }

    /// Writes `value` to floating-point register `reg`; the write is dropped
    /// where the F extension is disabled.
    pub fn write_fp(&mut self, reg: u8, value: u32)
        requires
            old(self).wf(),
            reg < 32,
        ensures
            final(self).wf(),
            final(self)@ == old(self)@.write_fp(reg, value),
            final(self).decoders() == old(self).decoders(),
    {
        let _ = self.status.fp_write(reg, value);
    }

    /// Whether the F extension is enabled.
    pub fn has_fp(&self) -> (r: bool)
        ensures
            r == self@.arch.fp.is_some(),
    {
        self.status.fp.is_some()
    }

    /// Reads the CSR at `csr`; zero where it was never registered or
    /// written.
    pub fn csr_read(&self, csr: u16) -> (r: u32)
        ensures
            r == self@.csr(csr),
    {
        self.status.csr_read(csr)
    }

    /// Writes `value` to the CSR at `csr`.
    pub fn csr_write(&mut self, csr: u16, value: u32)
        requires
            old(self).wf(),
        ensures
            final(self).wf(),
            final(self)@ == old(self)@.write_csr(csr, value),
            final(self).decoders() == old(self).decoders(),
    {
        self.status.csr_write(csr, value)
    }

    /// The privilege mode.
    pub fn privilege(&self) -> (r: PrivilegeMode)
        ensures
            r == self@.arch.privilege,
    {
        self.status.privilege
    }

    /// Sets the privilege mode.
    pub fn set_privilege(&mut self, mode: PrivilegeMode)
        requires
            old(self).wf(),
        ensures
            final(self).wf(),
            final(self)@ == old(self)@.set_privilege(mode),
            final(self).decoders() == old(self).decoders(),
    {
        self.status.privilege = mode;
    }

    /// Sets what the core is doing.
    pub fn set_state(&mut self, state: CpuState)
        requires
            old(self).wf(),
        ensures
            final(self).wf(),
            final(self)@ == old(self)@.set_state(state),
            final(self).decoders() == old(self).decoders(),
    {
        self.state = state;
    }

    /// The request that the core waits for an outcome of, if any.
    pub fn fp_request(&self) -> (r: Option<FpRequest>)
        ensures
            r == match self@.pending {
                Some(pending) => Some(pending.request),
                None => None,
            },
    {
        match self.pending {
            Some(pending) => Some(pending.request),
            None => None,
        }
    }

    /// The instruction that awaits the outcome of its request, if any.
    pub fn pending(&self) -> (r: Option<PendingFp>)
        ensures
            r == self@.pending,
    {
        self.pending
    }

    /// Sets the instruction that awaits the outcome of its request.
    pub(crate) fn set_pending(&mut self, pending: Option<PendingFp>)
        requires
            old(self).wf(),
            pending matches Some(p) ==> p.instr.wf(),
        ensures
            final(self).wf(),
            final(self)@ == old(self)@.set_pending(pending),
            final(self).decoders() == old(self).decoders(),
    {
        self.pending = pending;
    }

    /// Completes the instruction that waits for `outcome`; returns whether
    /// an instruction was waiting for an outcome of this kind.  Where none
    /// was, nothing changes.
    pub fn fp_complete(&mut self, outcome: FpOutcome) -> (r: bool)
        requires
            old(self).wf(),
        ensures
            final(self).wf(),
            final(self).decoders() == old(self).decoders(),
            r == exu::rv32f::accepts(old(self)@, outcome),
            final(self)@ == exu::rv32f::spec_complete(old(self)@, outcome),
    {
        exu::rv32f::complete(self, outcome)
    }

    /// Takes a trap at the current program counter.
    pub fn take_trap(&mut self, cause: TrapCause, tval: u32)
        requires
            old(self).wf(),
        ensures
            final(self).wf(),
            final(self)@ == old(self)@.take_trap_at(cause, tval, old(self)@.pc),
            final(self).decoders() == old(self).decoders(),
    {
        let epc = self.pc;
        self.take_trap_at(cause, tval, epc);
    }

    /// Takes a trap whose exception program counter is `epc`.
    pub fn take_trap_at(&mut self, cause: TrapCause, tval: u32, epc: u32)
        requires
            old(self).wf(),
        ensures
            final(self).wf(),
            final(self)@ == old(self)@.take_trap_at(cause, tval, epc),
            final(self).decoders() == old(self).decoders(),
    {
        self.status.csr_write(CSR_MEPC, epc);
        self.status.csr_write(CSR_MCAUSE, cause.to_cause_value());
        self.status.csr_write(CSR_MTVAL, tval);
        let mstatus = self.status.csr_read(CSR_MSTATUS);
        let saved = if trap::mstatus::read_mie(mstatus) {
            mstatus | MPIE_MASK
        } else {
            mstatus & !MPIE_MASK
        };
        let entered = trap::mstatus::write_mpp(saved & !MIE_MASK, self.status.privilege.to_bits());
        self.status.csr_write(CSR_MSTATUS, entered);
        self.status.privilege = PrivilegeMode::Machine;
        let mtvec = self.status.csr_read(CSR_MTVEC);
        self.pc = calculate_trap_pc(mtvec, &cause);
    }

    /// Hands on the value of a memory access, or takes the trap of a refused
    /// one.
    pub fn mem_result<T>(&mut self, result: MemResult<T>, access: MemAccessType, current_pc: u32) -> (r:
        Option<T>)
        requires
            old(self).wf(),
        ensures
            final(self).wf(),
            final(self).decoders() == old(self).decoders(),
            match result {
                Ok(value) => r == Some(value) && final(self)@ == old(self)@,
                Err(error) => r.is_none() && final(self)@ == old(self)@.mem_fault(
                    error,
                    access,
                    current_pc,
                ),
            },
    {
        match result {
            Ok(value) => Some(value),
            Err(error) => {
                let (cause, addr) = match error {
                    MemError::Unaligned { addr, .. } => (
                        match access {
                            MemAccessType::Load => TrapCause::LoadAddressMisaligned,
                            MemAccessType::Store => TrapCause::StoreAddressMisaligned,
                        },
                        addr,
                    ),
                    MemError::OutOfRange { addr, .. } => (
                        match access {
                            MemAccessType::Load => TrapCause::LoadAccessFault,
                            MemAccessType::Store => TrapCause::StoreAccessFault,
                        },
                        addr,
                    ),
                };
                self.take_trap_at(cause, addr, current_pc);
                None
            },
        }
    }

    /// Whether a store succeeded; takes the trap of a refused one.
    pub fn mem_result_unit(&mut self, result: MemResult<()>, access: MemAccessType, current_pc: u32) -> (r:
        bool)
        requires
            old(self).wf(),
        ensures
            final(self).wf(),
            final(self).decoders() == old(self).decoders(),
            r == result.is_ok(),
            match result {
                Ok(_) => final(self)@ == old(self)@,
                Err(error) => final(self)@ == old(self)@.mem_fault(error, access, current_pc),
            },
    {
        self.mem_result(result, access, current_pc).is_some()
    }

    /// Whether the core is running.
    fn is_running(&self) -> (r: bool)
        ensures
            r == (self@.state == CpuState::Running),
    {
        match self.state {
            CpuState::Running => true,
            _ => false,
        }
    }

    /// Executes one instruction, unless the core is stopped or waits for the
    /// outcome of a floating-point operation; returns what the core is doing
    /// afterwards.
    pub fn step<M: Memory>(&mut self, mem: &mut M) -> (r: CpuState)
        requires
            old(self).wf(),
        ensures
            final(self).wf(),
            final(self).decoders() == old(self).decoders(),
            (final(self)@, final(mem)@) == spec_step(old(self)@, old(mem)@, old(self).decoders()),
            r == final(self)@.state,
    {
        proof {
            reveal(spec_step);
        }
        if !self.is_running() || self.pending.is_some() {
            return self.state;
        }
        let current_pc = self.pc;
        let word = match mem.load32(current_pc) {
            Ok(word) => word,
            Err(_) => {
                self.take_trap_at(TrapCause::InstructionAccessFault, current_pc, current_pc);
                return self.state;
            },
        };
        let decoded = self.decoder.decode(word);
        self.pc = self.pc.wrapping_add(4);
        self.execute(mem, decoded, current_pc);
        self.state
    }

    /// Steps the core at most `max_instructions` times; returns the number
    /// of steps taken and what the core is doing afterwards.
    pub fn run<M: Memory>(&mut self, mem: &mut M, max_instructions: u64) -> (r: (u64, CpuState))
        requires
            old(self).wf(),
        ensures
            final(self).wf(),
            final(self).decoders() == old(self).decoders(),
            (r.0 as nat, final(self)@, final(mem)@) == spec_run(
                old(self)@,
                old(mem)@,
                old(self).decoders(),
                max_instructions as nat,
            ),
            r.1 == final(self)@.state,
    {
        let mut executed: u64 = 0;
        while executed < max_instructions
            invariant
                self.wf(),
                self.decoders() == old(self).decoders(),
                executed <= max_instructions,
                executed > 0 ==> steps(self@),
                ({
                    let rest = spec_run(
                        self@,
                        mem@,
                        self.decoders(),
                        (max_instructions - executed) as nat,
                    );
                    spec_run(old(self)@, old(mem)@, old(self).decoders(), max_instructions as nat)
                        == ((rest.0 + executed) as nat, rest.1, rest.2)
                }),
            decreases max_instructions - executed,
        {
            let state = self.step(mem);
            executed += 1;
            if !self.is_running() || self.pending.is_some() {
                return (executed, state);
            }
        }
        (executed, self.state)
    }

    /// Offers `decoded`, fetched at `current_pc`, to the executors in turn.
    pub fn execute<M: Memory>(&mut self, mem: &mut M, decoded: DecodedInstr, current_pc: u32)
        requires
            old(self).wf(),
            decoded.instr.wf(),
        ensures
            final(self).wf(),
            final(self).decoders() == old(self).decoders(),
            (final(self)@, final(mem)@) == spec_dispatch(
                old(self)@,
                old(mem)@,
                decoded,
                current_pc,
            ),
    {
        let instr = decoded.instr;
        if exu::rv32i::execute(self, mem, instr, current_pc) {
            return ;
        }
        if exu::rv32m::execute(self, instr) {
            return ;
        }
        if exu::rv32f::execute(self, mem, instr, current_pc) {
            return ;
        }
        if exu::zicsr::execute(self, instr) {
            return ;
        }
        if exu::priv_instr::execute(self, instr) {
            return ;
        }
        match instr {
            RvInstr::Illegal { raw } => {
                self.state = CpuState::IllegalInstruction(raw);
            },
            RvInstr::Custom { raw, .. } => {
                self.state = CpuState::IllegalInstruction(raw);
            },
            _ => {
                self.state = CpuState::IllegalInstruction(decoded.raw);
            },
        }
    }

    /// The integer registers.
    pub fn regs(&self) -> (r: &[u32; 32])
        ensures
            r@ == self@.arch.regs,
    {
        self.status.int_snapshot()
    }

    /// A copy of the architectural state.
    pub fn snapshot(&self) -> (r: StatusSnapshot)
        ensures
            r.int@ == self@.arch.regs,
            match r.fp {
                Some(regs) => self@.arch.fp == Some(regs@),
                None => self@.arch.fp.is_none(),
            },
            match r.vec {
                Some(regs) => self@.arch.vec == Some(regs@),
                None => self@.arch.vec.is_none(),
            },
            r.csr@ == self@.arch.csrs,
    {
        self.status.snapshot()
    }
}

} // verus!
