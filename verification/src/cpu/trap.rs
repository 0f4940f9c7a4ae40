//! The trap unit: privilege modes, trap causes, and the address of the
//! handler that a trap enters.
use vstd::prelude::*;

pub mod mstatus;

verus! {

/// A privilege mode, with its two-bit encoding.
#[derive(Debug, Clone, Copy, PartialEq, Eq)]
pub enum PrivilegeMode {
    /// Encoding 0.
    User,
    /// Encoding 1.
    Supervisor,
    /// Encoding 2; never entered.
    _Reserved,
    /// Encoding 3; the mode after reset.
    Machine,
}

impl PrivilegeMode {
    /// The mode that the low two bits of `bits` encode, the reserved
    /// encoding standing for machine mode.
    pub open spec fn spec_from_bits(bits: u8) -> PrivilegeMode {
        if bits & 0x3 == 0 {
            PrivilegeMode::User
        } else if bits & 0x3 == 1 {
            PrivilegeMode::Supervisor
        } else {
            PrivilegeMode::Machine
        }
    }

    /// The two-bit encoding of the mode.
    pub open spec fn spec_to_bits(self) -> u8 {
        match self {
            PrivilegeMode::User => 0,
            PrivilegeMode::Supervisor => 1,
            PrivilegeMode::_Reserved => 2,
            PrivilegeMode::Machine => 3,
        }
    }

    /// Decodes a privilege mode.
    pub fn from_bits(bits: u8) -> (r: Self)
        ensures
            r == Self::spec_from_bits(bits),
            r != PrivilegeMode::_Reserved,
    {
        let low = bits & 0x3;
        if low == 0 {
            PrivilegeMode::User
        } else if low == 1 {
            PrivilegeMode::Supervisor
        } else {
            PrivilegeMode::Machine
        }
    }

    /// Encodes the privilege mode.
    pub fn to_bits(self) -> (r: u8)
        ensures
            r == self.spec_to_bits(),
            r < 4,
    {
        match self {
            PrivilegeMode::User => 0,
            PrivilegeMode::Supervisor => 1,
            PrivilegeMode::_Reserved => 2,
            PrivilegeMode::Machine => 3,
        }
    }
}

impl Default for PrivilegeMode {
    fn default() -> (r: Self)
        ensures
            r == PrivilegeMode::Machine,
    {
        PrivilegeMode::Machine
    }
}

/// Decoding the encoding of a mode gives the mode back, but for the reserved
/// one.
pub proof fn lemma_privilege_round_trip(mode: PrivilegeMode)
    requires
        mode != PrivilegeMode::_Reserved,
    ensures
        PrivilegeMode::spec_from_bits(mode.spec_to_bits()) == mode,
{
    assert(0u8 & 0x3 == 0 && 1u8 & 0x3 == 1 && 3u8 & 0x3 == 3) by (bit_vector);
}

/// The cause of a trap: a synchronous exception or an interrupt.
#[derive(Debug, Clone, Copy, PartialEq, Eq)]
pub enum TrapCause {
    InstructionAddressMisaligned,
    InstructionAccessFault,
    IllegalInstruction,
    Breakpoint,
    LoadAddressMisaligned,
    LoadAccessFault,
    StoreAddressMisaligned,
    StoreAccessFault,
    EcallFromU,
    EcallFromS,
    EcallFromM,
    InstructionPageFault,
    LoadPageFault,
    StorePageFault,
    UserSoftwareInterrupt,
    SupervisorSoftwareInterrupt,
    MachineSoftwareInterrupt,
    UserTimerInterrupt,
    SupervisorTimerInterrupt,
    MachineTimerInterrupt,
    UserExternalInterrupt,
    SupervisorExternalInterrupt,
    MachineExternalInterrupt,
}

impl TrapCause {
    /// Whether the cause is an interrupt.
    pub open spec fn spec_is_interrupt(self) -> bool {
        match self {
            TrapCause::UserSoftwareInterrupt
            | TrapCause::SupervisorSoftwareInterrupt
            | TrapCause::MachineSoftwareInterrupt
            | TrapCause::UserTimerInterrupt
            | TrapCause::SupervisorTimerInterrupt
            | TrapCause::MachineTimerInterrupt
            | TrapCause::UserExternalInterrupt
            | TrapCause::SupervisorExternalInterrupt
            | TrapCause::MachineExternalInterrupt => true,
            _ => false,
        }
    }

    /// The cause's code in the privileged architecture.
    pub open spec fn spec_code(self) -> u32 {
        match self {
            TrapCause::InstructionAddressMisaligned => 0,
            TrapCause::InstructionAccessFault => 1,
            TrapCause::IllegalInstruction => 2,
            TrapCause::Breakpoint => 3,
            TrapCause::LoadAddressMisaligned => 4,
            TrapCause::LoadAccessFault => 5,
            TrapCause::StoreAddressMisaligned => 6,
            TrapCause::StoreAccessFault => 7,
            TrapCause::EcallFromU => 8,
            TrapCause::EcallFromS => 9,
            TrapCause::EcallFromM => 11,
            TrapCause::InstructionPageFault => 12,
            TrapCause::LoadPageFault => 13,
            TrapCause::StorePageFault => 15,
            TrapCause::UserSoftwareInterrupt => 0,
            TrapCause::SupervisorSoftwareInterrupt => 1,
            TrapCause::MachineSoftwareInterrupt => 3,
            TrapCause::UserTimerInterrupt => 4,
            TrapCause::SupervisorTimerInterrupt => 5,
            TrapCause::MachineTimerInterrupt => 7,
            TrapCause::UserExternalInterrupt => 8,
            TrapCause::SupervisorExternalInterrupt => 9,
            TrapCause::MachineExternalInterrupt => 11,
        }
    }

    /// The value that the cause register takes: the code, with bit 31 set
    /// for an interrupt.
    pub open spec fn spec_cause_value(self) -> u32 {
        if self.spec_is_interrupt() {
            (0x8000_0000 + self.spec_code()) as u32
        } else {
            self.spec_code()
        }
    }

    /// The environment-call exception of `mode`.
    pub open spec fn spec_ecall_from(mode: PrivilegeMode) -> TrapCause {
        match mode {
            PrivilegeMode::User => TrapCause::EcallFromU,
            PrivilegeMode::Supervisor => TrapCause::EcallFromS,
            PrivilegeMode::Machine => TrapCause::EcallFromM,
            PrivilegeMode::_Reserved => TrapCause::EcallFromM,
        }
    }

    /// Whether the cause is an interrupt.
    pub fn is_interrupt(&self) -> (r: bool)
        ensures
            r == self.spec_is_interrupt(),
    {
        match self {
            TrapCause::UserSoftwareInterrupt
            | TrapCause::SupervisorSoftwareInterrupt
            | TrapCause::MachineSoftwareInterrupt
            | TrapCause::UserTimerInterrupt
            | TrapCause::SupervisorTimerInterrupt
            | TrapCause::MachineTimerInterrupt
            | TrapCause::UserExternalInterrupt
            | TrapCause::SupervisorExternalInterrupt
            | TrapCause::MachineExternalInterrupt => true,
            _ => false,
        }
    }

    /// Whether the cause is a synchronous exception.
    pub fn is_exception(&self) -> (r: bool)
        ensures
            r == !self.spec_is_interrupt(),
    {
        !self.is_interrupt()
    }

    /// The cause's code.
    pub fn code(&self) -> (r: u32)
        ensures
            r == self.spec_code(),
            r < 16,
    {
        match self {
            TrapCause::InstructionAddressMisaligned => 0,
            TrapCause::InstructionAccessFault => 1,
            TrapCause::IllegalInstruction => 2,
            TrapCause::Breakpoint => 3,
            TrapCause::LoadAddressMisaligned => 4,
            TrapCause::LoadAccessFault => 5,
            TrapCause::StoreAddressMisaligned => 6,
            TrapCause::StoreAccessFault => 7,
            TrapCause::EcallFromU => 8,
            TrapCause::EcallFromS => 9,
            TrapCause::EcallFromM => 11,
            TrapCause::InstructionPageFault => 12,
            TrapCause::LoadPageFault => 13,
            TrapCause::StorePageFault => 15,
            TrapCause::UserSoftwareInterrupt => 0,
            TrapCause::SupervisorSoftwareInterrupt => 1,
            TrapCause::MachineSoftwareInterrupt => 3,
            TrapCause::UserTimerInterrupt => 4,
            TrapCause::SupervisorTimerInterrupt => 5,
            TrapCause::MachineTimerInterrupt => 7,
            TrapCause::UserExternalInterrupt => 8,
            TrapCause::SupervisorExternalInterrupt => 9,
            TrapCause::MachineExternalInterrupt => 11,
        }
    }

    /// The value that the cause register takes.
    pub fn to_cause_value(&self) -> (r: u32)
        ensures
            r == self.spec_cause_value(),
    {
        let code = self.code();
        if self.is_interrupt() {
            assert(code < 16 ==> (0x8000_0000u32 | code) == 0x8000_0000u32 + code) by (bit_vector);
            0x8000_0000u32 | code
        } else {
            code
        }
    }

    /// The environment-call exception of `mode`.
    pub fn ecall_from(mode: PrivilegeMode) -> (r: Self)
        ensures
            r == Self::spec_ecall_from(mode),
    {
        match mode {
            PrivilegeMode::User => TrapCause::EcallFromU,
            PrivilegeMode::Supervisor => TrapCause::EcallFromS,
            PrivilegeMode::Machine => TrapCause::EcallFromM,
            PrivilegeMode::_Reserved => TrapCause::EcallFromM,
        }
    }
}

/// How the trap vector register places handlers.
#[derive(Debug, Clone, Copy, PartialEq, Eq)]
pub enum TvecMode {
    /// Every trap enters at the base.
    Direct,
    /// An interrupt enters at the base plus four times its code.
    Vectored,
}

impl TvecMode {
    /// The mode that the low two bits encode; the reserved encodings stand
    /// for the direct mode.
    pub open spec fn spec_from_bits(bits: u32) -> TvecMode {
        if bits & 0x3 == 1 {
            TvecMode::Vectored
        } else {
            TvecMode::Direct
        }
    }

    /// Decodes the mode field of a trap vector register.
    pub fn from_bits(bits: u32) -> (r: Self)
        ensures
            r == Self::spec_from_bits(bits),
    {
        if bits & 0x3 == 1 {
            TvecMode::Vectored
        } else {
            TvecMode::Direct
        }
    }
}

/// The base of a trap vector register: the register with its low two bits
/// cleared.
pub open spec fn spec_tvec_base(tvec: u32) -> u32 {
    tvec & !0x3u32
}

/// The address at which a trap with `cause` enters its handler.
pub open spec fn spec_trap_pc(tvec: u32, cause: TrapCause) -> u32 {
    match TvecMode::spec_from_bits(tvec) {
        TvecMode::Direct => spec_tvec_base(tvec),
        TvecMode::Vectored => if cause.spec_is_interrupt() {
            spec_tvec_base(tvec).wrapping_add((4 * cause.spec_code()) as u32)
        } else {
            spec_tvec_base(tvec)
        },
    }
}

/// Splits a trap vector register into base and mode.
pub fn parse_tvec(tvec: u32) -> (r: (u32, TvecMode))
    ensures
        r.0 == spec_tvec_base(tvec),
        r.1 == TvecMode::spec_from_bits(tvec),
{
    let mode = TvecMode::from_bits(tvec);
    let base = tvec & !0x3u32;
    (base, mode)
}

/// Computes the address of the trap handler.
pub fn calculate_trap_pc(tvec: u32, cause: &TrapCause) -> (r: u32)
    ensures
        r == spec_trap_pc(tvec, *cause),
{
    let (base, mode) = parse_tvec(tvec);
    match mode {
        TvecMode::Direct => base,
        TvecMode::Vectored => {
            if cause.is_interrupt() {
                base.wrapping_add(4 * cause.code())
            } else {
                base
            }
        },
    }
}

/// The base of a trap vector is a multiple of four, and so is every handler
/// address derived from it.
pub proof fn lemma_trap_pc_aligned(tvec: u32, cause: TrapCause)
    ensures
        spec_trap_pc(tvec, cause) % 4 == 0,
{
    let base = spec_tvec_base(tvec);
    assert((tvec & !0x3u32) % 4 == 0) by (bit_vector);
}

} // verus!
