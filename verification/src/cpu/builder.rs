//! Configuration of a core: instruction-set extensions, register files and
//! control and status registers.
use super::csr_def::{
    base_csr_table, base_csrs, f_csr_table, f_csrs, m_csr_table, m_csrs, s_csr_table, s_csrs,
    v_csr_table, v_csrs,
};
use super::status::{registered, zeroed_vectors, ArchState, CsrEntry, Status};
use super::{CoreState, CpuCore, CpuState};
use crate::isa::config::{BuildError, ConflictInfo, IsaConfig};
use crate::isa::instr_def::TableDrivenDecoder;
use crate::isa::priv_instr::priv_table;
use crate::isa::rv32f::rv32f_table;
use crate::isa::rv32m::rv32m_table;
use crate::isa::zicsr::zicsr_table;
use crate::isa::{conflicts_of, IsaExtension};
use std::sync::Arc;
use vstd::prelude::*;
use vstd::string::StringExecFns;

verus! {

/// Builds a core from the extensions that are asked for.
pub struct CpuBuilder {
    entry_pc: u32,
    isa_config: IsaConfig,
    enable_f: bool,
    enable_d: bool,
    enable_v: bool,
    enable_m_mode: bool,
    enable_s_mode: bool,
}

/// `csrs` with every entry of `table` registered.
pub open spec fn with_table(csrs: Map<u16, u32>, table: Seq<CsrEntry>, enabled: bool) -> Map<
    u16,
    u32,
> {
    if enabled {
        registered(csrs, table, table.len())
    } else {
        csrs
    }
}

/// The CSRs of a core after reset: the unprivileged counters, then, as far
/// as each group is enabled, the floating-point, vector, machine-mode and
/// supervisor-mode registers, each with its reset value.
pub open spec fn reset_csrs(fp: bool, vec: bool, m_mode: bool, s_mode: bool) -> Map<u16, u32> {
    with_table(
        with_table(
            with_table(
                with_table(with_table(Map::empty(), base_csr_table(), true), f_csr_table(), fp),
                v_csr_table(),
                vec,
            ),
            m_csr_table(),
            m_mode,
        ),
        s_csr_table(),
        s_mode,
    )
}

impl CpuBuilder {
    /// The address at which the core starts.
    pub closed spec fn entry_pc(&self) -> u32 {
        self.entry_pc
    }

    /// The instruction-set configuration.
    pub closed spec fn isa(&self) -> IsaConfig {
        self.isa_config
    }

    /// Whether the floating-point register file and its CSRs are asked for:
    /// by the F extension or by the D extension.
    pub open spec fn fp(&self) -> bool {
        self.f() || self.d()
    }

    /// Whether the F extension is asked for.
    pub closed spec fn f(&self) -> bool {
        self.enable_f
    }

    /// Whether the D extension is asked for.
    pub closed spec fn d(&self) -> bool {
        self.enable_d
    }

    /// Whether the V extension is asked for.
    pub closed spec fn v(&self) -> bool {
        self.enable_v
    }

    /// Whether the machine-mode CSRs are asked for.
    pub closed spec fn m_mode(&self) -> bool {
        self.enable_m_mode
    }

    /// Whether the supervisor-mode CSRs are asked for.
    pub closed spec fn s_mode(&self) -> bool {
        self.enable_s_mode
    }

    /// The builder's invariant: its instruction-set configuration is well
    /// formed and holds no custom decoder.
    pub closed spec fn wf(&self) -> bool {
        self.isa_config.wf() && self.isa_config.customs().len() == 0
    }

    /// Whether `other` differs from this builder at most in its
    /// instruction-set configuration and in the flags named.
    pub open spec fn same_but(&self, other: CpuBuilder, f: bool, d: bool, v: bool, m: bool, s: bool) -> bool {
        &&& other.entry_pc() == self.entry_pc()
        &&& f || other.f() == self.f()
        &&& d || other.d() == self.d()
        &&& v || other.v() == self.v()
        &&& m || other.m_mode() == self.m_mode()
        &&& s || other.s_mode() == self.s_mode()
    }

    /// A builder of a core of the base integer instruction set with the
    /// machine-mode CSRs.
    pub fn new(entry_pc: u32) -> (r: Self)
        ensures
            r.wf(),
            r.entry_pc() == entry_pc,
            r.isa().extensions() == seq![IsaExtension::RV32I],
            forall|ext: IsaExtension| r.isa().has(ext) == (ext == IsaExtension::RV32I),
            r.isa().customs().len() == 0,
            !r.f() && !r.d() && !r.v() && r.m_mode() && !r.s_mode(),
    {
        CpuBuilder {
            entry_pc,
            isa_config: IsaConfig::new(),
            enable_f: false,
            enable_d: false,
            enable_v: false,
            enable_m_mode: true,
            enable_s_mode: false,
        }
    }

    /// Enables the M extension.
    pub fn with_m_extension(self) -> (r: Self)
        requires
            self.wf(),
        ensures
            r.wf(),
            self.same_but(r, false, false, false, false, false),
            self.isa().enabled(r.isa(), IsaExtension::RV32M, rv32m_table()),
    {
        let mut builder = self;
        builder.isa_config = builder.isa_config.with_m_extension();
        builder
    }

    /// Enables the Zicsr extension.
    pub fn with_zicsr_extension(self) -> (r: Self)
        requires
            self.wf(),
        ensures
            r.wf(),
            self.same_but(r, false, false, false, false, false),
            self.isa().enabled(r.isa(), IsaExtension::Zicsr, zicsr_table()),
    {
        let mut builder = self;
        builder.isa_config = builder.isa_config.with_zicsr_extension();
        builder
    }

    /// Enables the privileged instructions.
    pub fn with_priv_extension(self) -> (r: Self)
        requires
            self.wf(),
        ensures
            r.wf(),
            self.same_but(r, false, false, false, false, false),
            self.isa().enabled(r.isa(), IsaExtension::Priv, priv_table()),
    {
        let mut builder = self;
        builder.isa_config = builder.isa_config.with_priv_extension();
        builder
    }

    /// Enables the F extension: its instructions, its register file and its
    /// CSRs.
    pub fn with_f_extension(self) -> (r: Self)
        requires
            self.wf(),
        ensures
            r.wf(),
            self.same_but(r, true, false, false, false, false),
            r.f(),
            self.isa().enabled(r.isa(), IsaExtension::RV32F, rv32f_table()),
    {
        let mut builder = self;
        builder.enable_f = true;
        builder.isa_config = builder.isa_config.with_f_extension();
        builder
    }

    /// Enables the state of the D extension, which includes that of F.  No
    /// instruction is added.
    pub fn with_d_extension(self) -> (r: Self)
        requires
            self.wf(),
        ensures
            r.wf(),
            self.same_but(r, true, true, false, false, false),
            r.f() && r.d(),
            r.isa() == self.isa(),
    {
        let mut builder = self;
        builder.enable_f = true;
        builder.enable_d = true;
        builder
    }

    /// Enables the state of the V extension.  No instruction is added.
    pub fn with_v_extension(self) -> (r: Self)
        requires
            self.wf(),
        ensures
            r.wf(),
            self.same_but(r, false, false, true, false, false),
            r.v(),
            r.isa() == self.isa(),
    {
        let mut builder = self;
        builder.enable_v = true;
        builder
    }

    /// Enables the supervisor-mode CSRs.
    pub fn with_s_mode(self) -> (r: Self)
        requires
            self.wf(),
        ensures
            r.wf(),
            self.same_but(r, false, false, false, false, true),
            r.s_mode(),
            r.isa() == self.isa(),
    {
        let mut builder = self;
        builder.enable_s_mode = true;
        builder
    }

    /// Leaves out the machine-mode CSRs.
    pub fn without_m_mode(self) -> (r: Self)
        requires
            self.wf(),
        ensures
            r.wf(),
            self.same_but(r, false, false, false, true, false),
            !r.m_mode(),
            r.isa() == self.isa(),
    {
        let mut builder = self;
        builder.enable_m_mode = false;
        builder
    }

    /// Lists the conflicts between the signatures of the enabled extensions.
    pub fn detect_conflicts(&self) -> (r: Vec<ConflictInfo>)
        ensures
            r@ == conflicts_of(self.isa().signatures()),
    {
        self.isa_config.detect_conflicts()
    }

    /// The name of the configuration: `RV32I`, followed by `F`, `D` and `V`
    /// as far as each is enabled.
    pub fn extensions_summary(&self) -> (r: String)
        ensures
            r@ == "RV32I"@ + (if self.f() {
                "F"@
            } else {
                Seq::<char>::empty()
            }) + (if self.d() {
                "D"@
            } else {
                Seq::<char>::empty()
            }) + (if self.v() {
                "V"@
            } else {
                Seq::<char>::empty()
            }),
    {
        let mut summary = String::from_str("RV32I");
        if self.enable_f {
            summary.append("F");
        }
        if self.enable_d {
            summary.append("D");
        }
        if self.enable_v {
            summary.append("V");
        }
        assert(summary@ =~= "RV32I"@ + (if self.f() {
            "F"@
        } else {
            Seq::<char>::empty()
        }) + (if self.d() {
            "D"@
        } else {
            Seq::<char>::empty()
        }) + (if self.v() {
            "V"@
        } else {
            Seq::<char>::empty()
        }));
        summary
    }

    /// The state of a core that this builder builds: reset, with the
    /// optional register files and the CSRs of the groups asked for, running
    /// at the entry address.
    pub open spec fn builds(&self, s: CoreState) -> bool {
        &&& s.pc == self.entry_pc()
        &&& s.state == CpuState::Running
        &&& s.pending.is_none()
        &&& s.arch.regs == ArchState::reset().regs
        &&& s.arch.privilege == ArchState::reset().privilege
        &&& s.arch.csrs == reset_csrs(self.fp(), self.v(), self.m_mode(), self.s_mode())
        &&& s.arch.fp == (if self.fp() {
            Some(Seq::new(32, |i: int| 0u32))
        } else {
            None
        })
        &&& match s.arch.vec {
            Some(vec) => self.v() && zeroed_vectors(vec),
            None => !self.v(),
        }
    }

    /// Builds the core.  The result is never an error: the built-in
    /// extensions are free of conflicts.
    pub fn build(self) -> (r: Result<CpuCore, BuildError>)
        requires
            self.wf(),
        ensures
            r.is_ok(),
            self.isa().spec_build(
                match r {
                    Ok(cpu) => Ok(cpu.decoders()),
                    Err(e) => Err(e),
                },
            ),
            r matches Ok(cpu) ==> cpu.wf() && self.builds(cpu@),
    {
        let registry = match self.isa_config.build() {
            Ok(registry) => registry,
            Err(e) => {
                return Err(e);
            },
        };
        let mut status = Status::new();
        let base = base_csrs();
        status.csr.register(base.as_slice());
        if self.enable_f || self.enable_d {
            status.enable_fp();
            let table = f_csrs();
            status.csr.register(table.as_slice());
        }
        if self.enable_v {
            status.enable_vec();
            let table = v_csrs();
            status.csr.register(table.as_slice());
        }
        if self.enable_m_mode {
            let table = m_csrs();
            status.csr.register(table.as_slice());
        }
        if self.enable_s_mode {
            let table = s_csrs();
            status.csr.register(table.as_slice());
        }
        Ok(CpuCore::with_config(self.entry_pc, status, Arc::new(registry)))
    }
}

impl Default for CpuBuilder {
    fn default() -> (r: Self)
        ensures
            r.wf(),
            r.entry_pc() == 0,
            r.isa().extensions() == seq![IsaExtension::RV32I],
            r.isa().customs().len() == 0,
            !r.f() && !r.d() && !r.v() && r.m_mode() && !r.s_mode(),
    {
        CpuBuilder::new(0)
    }
}

} // verus!
