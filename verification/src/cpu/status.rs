//! Architectural state: the register files and the CSR bank.
use super::trap::PrivilegeMode;
use std::collections::HashMap;
use vstd::prelude::*;

verus! {

/// A register file of `N` registers.  Where `ZERO_HARDWIRE` holds, register 0
/// always reads as the reset value and ignores writes.
pub struct GenericRegFile<const N: usize, T: Copy, const ZERO_HARDWIRE: bool> {
    regs: [T; N],
    zero: T,
}

impl<const N: usize, T: Copy, const ZERO_HARDWIRE: bool> GenericRegFile<N, T, ZERO_HARDWIRE> {
    #[verifier::type_invariant]
    spec fn inv(&self) -> bool {
        ZERO_HARDWIRE && N > 0 ==> self.regs@[0] == self.zero
    }

    /// The registers' values.
    pub closed spec fn view(&self) -> Seq<T> {
        self.regs@
    }

    /// The reset value.
    pub closed spec fn reset_value(&self) -> T {
        self.zero
    }

    /// A register file in which every register holds `zero`.
    pub fn new(zero: T) -> (r: Self)
        ensures
            r@ == Seq::new(N as nat, |i: int| zero),
            r.reset_value() == zero,
    {
        let regs = [zero;N];
        assert(regs@ =~= Seq::new(N as nat, |i: int| zero));
        GenericRegFile { regs, zero }
    }

    /// Reads register `reg`.
    pub fn read(&self, reg: u8) -> (r: T)
        requires
            (reg as int) < N,
        ensures
            r == self@[reg as int],
            ZERO_HARDWIRE && reg == 0 ==> r == self.reset_value(),
    {
        proof {
            use_type_invariant(self);
        }
        if ZERO_HARDWIRE && reg == 0 {
            self.zero
        } else {
            self.regs[reg as usize]
        }
    }

    /// Writes `value` to register `reg`; a write to a hard-wired register 0
    /// changes nothing.
    pub fn write(&mut self, reg: u8, value: T)
        requires
            (reg as int) < N,
        ensures
            final(self).reset_value() == old(self).reset_value(),
            final(self)@ == (if ZERO_HARDWIRE && reg == 0 {
                old(self)@
            } else {
                old(self)@.update(reg as int, value)
            }),
    {
        if ZERO_HARDWIRE && reg == 0 {
            return ;
        }
        proof {
            use_type_invariant(&*self);
        }
        self.regs[reg as usize] = value;
    }

    /// All registers at once.
    pub fn snapshot(&self) -> (r: &[T; N])
        ensures
            r@ == self@,
            ZERO_HARDWIRE && N > 0 ==> r@[0] == self.reset_value(),
    {
        proof {
            use_type_invariant(self);
        }
        &self.regs
    }
}

/// The integer register file: `x0` to `x31`, `x0` hard-wired to zero.
pub type RegFile = GenericRegFile<32, u32, true>;

/// The floating-point register file: `f0` to `f31`.
pub type FpRegFile = GenericRegFile<32, u32, false>;

/// The vector register file: `v0` to `v31`, 128 bits each.
pub type VecRegFile = GenericRegFile<32, [u8; 16], false>;

/// The declaration of a CSR: name, address and reset value.
#[derive(Debug, Clone, Copy)]
pub struct CsrEntry {
    pub name: &'static str,
    pub addr: u16,
    pub reset: u32,
}

/// The value that a CSR map reads at `addr`: zero where nothing was
/// registered or written.
pub open spec fn csr_value(csrs: Map<u16, u32>, addr: u16) -> u32 {
    if csrs.contains_key(addr) {
        csrs[addr]
    } else {
        0
    }
}

/// `csrs` after the first `n` of `entries` were registered in order.
pub open spec fn registered(csrs: Map<u16, u32>, entries: Seq<CsrEntry>, n: nat) -> Map<u16, u32>
    decreases n,
{
    if n == 0 {
        csrs
    } else {
        registered(csrs, entries, (n - 1) as nat).insert(
            entries[n - 1].addr,
            entries[n - 1].reset,
        )
    }
}

/// The control and status registers, by address.
pub struct CsrBank {
    table: HashMap<u16, u32>,
}

impl CsrBank {
    /// The registers that hold a value, by address.
    pub closed spec fn view(&self) -> Map<u16, u32> {
        self.table@
    }

    /// A bank without registers.
    pub fn new() -> (r: Self)
        ensures
            r@ == Map::<u16, u32>::empty(),
    {
        CsrBank { table: HashMap::new() }
    }

    /// Registers every entry with its reset value.
    pub fn register(&mut self, entries: &[CsrEntry])
        ensures
            final(self)@ == registered(old(self)@, entries@, entries@.len()),
    {
        let mut i: usize = 0;
        while i < entries.len()
            invariant
                i <= entries@.len(),
                self@ == registered(old(self)@, entries@, i as nat),
            decreases entries@.len() - i,
        {
            self.table.insert(entries[i].addr, entries[i].reset);
            i += 1;
        }
    }

    /// Reads the register at `addr`; zero where there is none.
    pub fn read(&self, addr: u16) -> (r: u32)
        ensures
            r == csr_value(self@, addr),
    {
        match self.table.get(&addr) {
            Some(value) => *value,
            None => 0,
        }
    }

    /// Writes `value` to the register at `addr`, which need not have been
    /// registered.
    pub fn write(&mut self, addr: u16, value: u32)
        ensures
            final(self)@ == old(self)@.insert(addr, value),
    {
        self.table.insert(addr, value);
    }

    /// All registers at once.
    pub fn snapshot(&self) -> (r: &HashMap<u16, u32>)
        ensures
            r@ == self@,
    {
        &self.table
    }
}

impl Default for CsrBank {
    fn default() -> (r: Self)
        ensures
            r@ == Map::<u16, u32>::empty(),
    {
        CsrBank::new()
    }
}

/// Whether `vec` is a vector register file in which every byte is zero.
pub open spec fn zeroed_vectors(vec: Seq<[u8; 16]>) -> bool {
    &&& vec.len() == 32
    &&& forall|i: int, j: int| 0 <= i < 32 && 0 <= j < 16 ==> #[trigger] vec[i]@[j] == 0
}

/// The architectural state as a mathematical value.
pub struct ArchState {
    /// The 32 integer registers; `regs[0]` is zero.
    pub regs: Seq<u32>,
    /// The 32 floating-point registers, where the F extension is enabled.
    pub fp: Option<Seq<u32>>,
    /// The 32 vector registers, where the V extension is enabled.
    pub vec: Option<Seq<[u8; 16]>>,
    /// The CSRs that hold a value.
    pub csrs: Map<u16, u32>,
    /// The current privilege mode.
    pub privilege: PrivilegeMode,
}

impl ArchState {
    /// The register files have 32 registers each and `x0` is zero.
    pub open spec fn wf(self) -> bool {
        &&& self.regs.len() == 32
        &&& self.regs[0] == 0
        &&& self.fp matches Some(fp) ==> fp.len() == 32
        &&& self.vec matches Some(vec) ==> vec.len() == 32
    }

    /// The state after reset: every register zero, no optional register
    /// file, no CSR, machine mode.
    pub open spec fn reset() -> ArchState {
        ArchState {
            regs: Seq::new(32, |i: int| 0u32),
            fp: None,
            vec: None,
            csrs: Map::empty(),
            privilege: PrivilegeMode::Machine,
        }
    }

    /// The state after a write of `value` to integer register `reg`.
    pub open spec fn write_reg(self, reg: u8, value: u32) -> ArchState {
        if reg == 0 {
            self
        } else {
            ArchState { regs: self.regs.update(reg as int, value), ..self }
        }
    }

    /// The value that floating-point register `reg` reads as: zero where the
    /// F extension is disabled.
    pub open spec fn read_fp(self, reg: u8) -> u32 {
        match self.fp {
            Some(fp) => fp[reg as int],
            None => 0,
        }
    }

    /// The state after a write of `value` to floating-point register `reg`;
    /// the write is dropped where the F extension is disabled.
    pub open spec fn write_fp(self, reg: u8, value: u32) -> ArchState {
        match self.fp {
            Some(fp) => ArchState { fp: Some(fp.update(reg as int, value)), ..self },
            None => self,
        }
    }

    /// The state after a write of `value` to vector register `reg`.
    pub open spec fn write_vec(self, reg: u8, value: [u8; 16]) -> ArchState {
        match self.vec {
            Some(vec) => ArchState { vec: Some(vec.update(reg as int, value)), ..self },
            None => self,
        }
    }

    /// The value that the CSR at `addr` reads as.
    pub open spec fn csr(self, addr: u16) -> u32 {
        csr_value(self.csrs, addr)
    }

    /// The state after a write of `value` to the CSR at `addr`.
    pub open spec fn write_csr(self, addr: u16, value: u32) -> ArchState {
        ArchState { csrs: self.csrs.insert(addr, value), ..self }
    }
}

/// The register files, the CSR bank and the privilege mode.
pub struct Status {
    pub int: RegFile,
    pub fp: Option<FpRegFile>,
    pub vec: Option<VecRegFile>,
    pub csr: CsrBank,
    pub privilege: PrivilegeMode,
}

impl View for Status {
    type V = ArchState;

    open spec fn view(&self) -> ArchState {
        ArchState {
            regs: self.int@,
            fp: match self.fp {
                Some(fp) => Some(fp@),
                None => None,
            },
            vec: match self.vec {
                Some(vec) => Some(vec@),
                None => None,
            },
            csrs: self.csr@,
            privilege: self.privilege,
        }
    }
}

impl Status {
    /// The state after reset.
    pub fn new() -> (r: Self)
        ensures
            r@ == ArchState::reset(),
    {
        Status {
            int: RegFile::new(0),
            fp: None,
            vec: None,
            csr: CsrBank::new(),
            privilege: PrivilegeMode::Machine,
        }
    }

    /// Adds the floating-point register file, zeroed, unless it is there.
    pub fn enable_fp(&mut self)
        ensures
            final(self)@ == (ArchState {
                fp: match old(self)@.fp {
                    Some(fp) => Some(fp),
                    None => Some(Seq::new(32, |i: int| 0u32)),
                },
                ..old(self)@
            }),
    {
        if self.fp.is_none() {
            self.fp = Some(FpRegFile::new(0));
        }
    }

    /// Adds the vector register file, zeroed, unless it is there.
    pub fn enable_vec(&mut self)
        ensures
            old(self)@.vec.is_some() ==> final(self)@ == old(self)@,
            old(self)@.vec.is_none() ==> {
                &&& final(self)@.vec matches Some(vec) && zeroed_vectors(vec)
                &&& final(self)@ == (ArchState { vec: final(self)@.vec, ..old(self)@ })
            },
    {
        if self.vec.is_none() {
            self.vec = Some(VecRegFile::new([0u8;16]));
        }
    }

    /// Reads integer register `reg`.
    pub fn int_read(&self, reg: u8) -> (r: u32)
        requires
            reg < 32,
        ensures
            r == self@.regs[reg as int],
    {
        self.int.read(reg)
    }

    /// Writes `value` to integer register `reg`; `x0` ignores the write.
    pub fn int_write(&mut self, reg: u8, value: u32)
        requires
            reg < 32,
        ensures
            final(self)@ == old(self)@.write_reg(reg, value),
    {
        self.int.write(reg, value)
    }

    /// The integer registers.
    pub fn int_snapshot(&self) -> (r: &[u32; 32])
        ensures
            r@ == self@.regs,
    {
        self.int.snapshot()
    }

    /// Reads floating-point register `reg`, where the file is present.
    pub fn fp_read(&self, reg: u8) -> (r: Option<u32>)
        requires
            reg < 32,
        ensures
            r == match self@.fp {
                Some(fp) => Some(fp[reg as int]),
                None => None,
            },
    {
        match &self.fp {
            Some(file) => Some(file.read(reg)),
            None => None,
        }
    }

    /// Writes `value` to floating-point register `reg`; returns whether the
    /// file is present.
    pub fn fp_write(&mut self, reg: u8, value: u32) -> (r: bool)
        requires
            reg < 32,
        ensures
            r == old(self)@.fp.is_some(),
            final(self)@ == old(self)@.write_fp(reg, value),
    {
        match &mut self.fp {
            Some(file) => {
                file.write(reg, value);
                true
            },
            None => false,
        }
    }

    /// The floating-point registers, where the file is present.
    pub fn fp_snapshot(&self) -> (r: Option<&[u32; 32]>)
        ensures
            match r {
                Some(regs) => self@.fp == Some(regs@),
                None => self@.fp.is_none(),
            },
    {
        match &self.fp {
            Some(file) => Some(file.snapshot()),
            None => None,
        }
    }

    /// Reads vector register `reg`, where the file is present.
    pub fn vec_read(&self, reg: u8) -> (r: Option<[u8; 16]>)
        requires
            reg < 32,
        ensures
            r == match self@.vec {
                Some(vec) => Some(vec[reg as int]),
                None => None,
            },
    {
        match &self.vec {
            Some(file) => Some(file.read(reg)),
            None => None,
        }
    }

    /// Writes `value` to vector register `reg`; returns whether the file is
    /// present.
    pub fn vec_write(&mut self, reg: u8, value: [u8; 16]) -> (r: bool)
        requires
            reg < 32,
        ensures
            r == old(self)@.vec.is_some(),
            final(self)@ == old(self)@.write_vec(reg, value),
    {
        match &mut self.vec {
            Some(file) => {
                file.write(reg, value);
                true
            },
            None => false,
        }
    }

    /// The vector registers, where the file is present.
    pub fn vec_snapshot(&self) -> (r: Option<&[[u8; 16]; 32]>)
        ensures
            match r {
                Some(regs) => self@.vec == Some(regs@),
                None => self@.vec.is_none(),
            },
    {
        match &self.vec {
            Some(file) => Some(file.snapshot()),
            None => None,
        }
    }

    /// Reads the CSR at `addr`.
    pub fn csr_read(&self, addr: u16) -> (r: u32)
        ensures
            r == self@.csr(addr),
    {
        self.csr.read(addr)
    }

    /// Writes `value` to the CSR at `addr`.
    pub fn csr_write(&mut self, addr: u16, value: u32)
        ensures
            final(self)@ == old(self)@.write_csr(addr, value),
    {
        self.csr.write(addr, value)
    }

    /// The CSRs that hold a value.
    pub fn csr_snapshot(&self) -> (r: &HashMap<u16, u32>)
        ensures
            r@ == self@.csrs,
    {
        self.csr.snapshot()
    }

    /// A copy of the whole architectural state.
    pub fn snapshot(&self) -> (r: StatusSnapshot)
        ensures
            r.int@ == self@.regs,
            match r.fp {
                Some(regs) => self@.fp == Some(regs@),
                None => self@.fp.is_none(),
            },
            match r.vec {
                Some(regs) => self@.vec == Some(regs@),
                None => self@.vec.is_none(),
            },
            r.csr@ == self@.csrs,
    {
        StatusSnapshot {
            int: *self.int.snapshot(),
            fp: match &self.fp {
                Some(file) => Some(*file.snapshot()),
                None => None,
            },
            vec: match &self.vec {
                Some(file) => Some(*file.snapshot()),
                None => None,
            },
            csr: self.csr.snapshot().clone(),
        }
    }
}

impl Default for Status {
    fn default() -> (r: Self)
        ensures
            r@ == ArchState::reset(),
    {
        Status::new()
    }
}

/// A copy of the architectural state.
#[derive(Debug)]
pub struct StatusSnapshot {
    pub int: [u32; 32],
    pub fp: Option<[u32; 32]>,
    pub vec: Option<[[u8; 16]; 32]>,
    pub csr: HashMap<u16, u32>,
}

} // verus!
