//! The executor of the F extension.
//!
//! Loads, stores, sign injection, minimum and maximum, classification and
//! the moves work on bit patterns and are executed here.  Every instruction
//! that computes or compares is turned into a request for the arithmetic
//! unit, and completed from the unit's outcome.
use super::rv32i::{flag, load_word, load_word_at, loaded, store_word, store_word_at, stored, effective_addr};
use super::alu::as_word;
use crate::cpu::fpu::{FpOp, FpOrdering, FpOutcome, FpRequest, FpStatus, PendingFp};
use crate::cpu::{CoreState, CpuCore};
use crate::isa::rv32f::RoundingMode;
use crate::isa::RvInstr;
use crate::memory::{Memory, Region};
use vstd::prelude::*;

verus! {

/// Address of `fflags`.
pub const FFLAGS_ADDR: u16 = 0x001;

/// Address of `frm`.
pub const FRM_ADDR: u16 = 0x002;

/// Address of `fcsr`.
pub const FCSR_ADDR: u16 = 0x003;

/// Inexact.
pub const NX: u32 = 1;

/// Underflow.
pub const UF: u32 = 2;

/// Overflow.
pub const OF: u32 = 4;

/// Division by zero.
pub const DZ: u32 = 8;

/// Invalid operation.
pub const NV: u32 = 16;

/// The quiet NaN that invalid operations produce.
pub const CANONICAL_NAN: u32 = 0x7FC0_0000;

/// The sign bit of a single-precision number.
pub const SIGN_BIT: u32 = 0x8000_0000;

/// The flags of `fflags` that stand for the exceptions of `status`.
pub open spec fn flag_bits(status: FpStatus) -> u32 {
    (if status.invalid {
        NV
    } else {
        0
    } + if status.division_by_zero {
        DZ
    } else {
        0
    } + if status.overflow {
        OF
    } else {
        0
    } + if status.underflow {
        UF
    } else {
        0
    } + if status.inexact {
        NX
    } else {
        0
    }) as u32
}

/// The state with `flags` accumulated into `fcsr`.
pub open spec fn with_flags(s: CoreState, flags: u32) -> CoreState {
    s.write_csr(FCSR_ADDR, s.csr(FCSR_ADDR) | flags)
}

/// The state with the exceptions of `status` accumulated into `fcsr`; `fcsr`
/// is not written where there is none.
pub open spec fn signalled(s: CoreState, status: FpStatus) -> CoreState {
    if flag_bits(status) != 0 {
        with_flags(s, flag_bits(status))
    } else {
        s
    }
}

/// The rounding mode of an instruction whose `rm` field is `instr_rm`: the
/// field's own where it is static, that of `fcsr[7:5]` where it is dynamic;
/// `None` for the reserved encodings 5 and 6 and for a dynamic mode that
/// resolves to a reserved encoding or to the dynamic one.
pub open spec fn resolve_rounding(fcsr: u32, instr_rm: u8) -> Option<RoundingMode> {
    let rm = if instr_rm == 7 {
        ((fcsr >> 5) & 0x7) as u8
    } else {
        instr_rm
    };
    if rm == 0 {
        Some(RoundingMode::Rne)
    } else if rm == 1 {
        Some(RoundingMode::Rtz)
    } else if rm == 2 {
        Some(RoundingMode::Rdn)
    } else if rm == 3 {
        Some(RoundingMode::Rup)
    } else if rm == 4 {
        Some(RoundingMode::Rmm)
    } else {
        None
    }
}

/// Whether `bits` is a NaN: exponent all ones, fraction not zero.
pub open spec fn is_nan(bits: u32) -> bool {
    bits & 0x7F80_0000 == 0x7F80_0000 && bits & 0x007F_FFFF != 0
}

/// Whether `bits` is a signaling NaN: a NaN whose quiet bit is clear.
pub open spec fn is_signaling_nan(bits: u32) -> bool {
    is_nan(bits) && bits & 0x0040_0000 == 0
}

/// Whether `bits` is a zero of either sign.
pub open spec fn is_zero(bits: u32) -> bool {
    bits & 0x7FFF_FFFF == 0
}

/// The position of a number that is not a NaN in the order of the
/// floating-point numbers: its magnitude bits, negated for a negative
/// number.  Both zeros stand at 0.
pub open spec fn order_key(bits: u32) -> int {
    if bits & 0x8000_0000 != 0 {
        -((bits & 0x7FFF_FFFF) as int)
    } else {
        (bits & 0x7FFF_FFFF) as int
    }
}

/// The minimum (`is_min`) or maximum of `a` and `b`.
///
/// Two NaNs give the canonical NaN; one NaN gives the other operand; of two
/// zeros the minimum is the negative one if there is one, the maximum the
/// positive one; else the smaller or larger number.
pub open spec fn spec_min_max(a: u32, b: u32, is_min: bool) -> u32 {
    if is_nan(a) && is_nan(b) {
        CANONICAL_NAN
    } else if is_nan(a) {
        b
    } else if is_nan(b) {
        a
    } else if is_zero(a) && is_zero(b) {
        if is_min {
            a | b
        } else {
            a & b
        }
    } else if a == b {
        a
    } else if is_min {
        if order_key(a) < order_key(b) {
            a
        } else {
            b
        }
    } else {
        if order_key(a) > order_key(b) {
            a
        } else {
            b
        }
    }
}

/// The one-hot class of `bits`: bit 0 negative infinity, 1 negative normal,
/// 2 negative subnormal, 3 negative zero, 4 positive zero, 5 positive
/// subnormal, 6 positive normal, 7 positive infinity, 8 signaling NaN,
/// 9 quiet NaN.
pub open spec fn spec_fclass(bits: u32) -> u32 {
    let sign = bits >> 31;
    let exp = (bits >> 23) & 0xFF;
    let frac = bits & 0x007F_FFFF;
    if exp == 0xFF {
        if frac == 0 {
            if sign == 0 {
                0x80
            } else {
                0x01
            }
        } else if frac & 0x0040_0000 != 0 {
            0x200
        } else {
            0x100
        }
    } else if exp == 0 {
        if frac == 0 {
            if sign == 0 {
                0x10
            } else {
                0x08
            }
        } else {
            if sign == 0 {
                0x20
            } else {
                0x04
            }
        }
    } else {
        if sign == 0 {
            0x40
        } else {
            0x02
        }
    }
}

/// The integer that a conversion to a signed word saturates to where the
/// rounded value of `bits` has no representation: the greatest for a NaN and
/// for a positive number, the least for a negative one.
pub open spec fn saturated_signed(bits: u32) -> u32 {
    if is_nan(bits) {
        0x7FFF_FFFF
    } else if bits & 0x8000_0000 != 0 {
        0x8000_0000
    } else {
        0x7FFF_FFFF
    }
}

/// The integer that a conversion to an unsigned word saturates to: the
/// greatest for a NaN and for a positive number, zero for a negative one.
pub open spec fn saturated_unsigned(bits: u32) -> u32 {
    if is_nan(bits) || bits & 0x8000_0000 == 0 {
        0xFFFF_FFFF
    } else {
        0
    }
}

/// An operation on floating-point registers with rounding mode field `rm`.
pub open spec fn rounded(s: CoreState, op: FpOp, a: u32, b: u32, c: u32, rm: u8) -> Option<
    FpRequest,
> {
    match resolve_rounding(s.csr(FCSR_ADDR), rm) {
        Some(rounding) => Some(FpRequest { op, a, b, c, rounding }),
        None => None,
    }
}

/// The request that `instr` makes of the arithmetic unit; `None` where it
/// makes none, or where its rounding mode does not resolve.
///
/// The three negated forms of the fused multiply-add flip the sign of the
/// first operand, of the third, or of both.
pub open spec fn spec_request(s: CoreState, instr: RvInstr) -> Option<FpRequest> {
    match instr {
        RvInstr::FaddS { frs1, frs2, rm, .. } => rounded(s, FpOp::Add, s.fp(frs1), s.fp(frs2), 0, rm),
        RvInstr::FsubS { frs1, frs2, rm, .. } => rounded(s, FpOp::Sub, s.fp(frs1), s.fp(frs2), 0, rm),
        RvInstr::FmulS { frs1, frs2, rm, .. } => rounded(s, FpOp::Mul, s.fp(frs1), s.fp(frs2), 0, rm),
        RvInstr::FdivS { frs1, frs2, rm, .. } => rounded(s, FpOp::Div, s.fp(frs1), s.fp(frs2), 0, rm),
        RvInstr::FsqrtS { frs1, rm, .. } => rounded(s, FpOp::Sqrt, s.fp(frs1), 0, 0, rm),
        RvInstr::FmaddS { frs1, frs2, frs3, rm, .. } => rounded(
            s,
            FpOp::MulAdd,
            s.fp(frs1),
            s.fp(frs2),
            s.fp(frs3),
            rm,
        ),
        RvInstr::FmsubS { frs1, frs2, frs3, rm, .. } => rounded(
            s,
            FpOp::MulAdd,
            s.fp(frs1),
            s.fp(frs2),
            s.fp(frs3) ^ SIGN_BIT,
            rm,
        ),
        RvInstr::FnmaddS { frs1, frs2, frs3, rm, .. } => rounded(
            s,
            FpOp::MulAdd,
            s.fp(frs1) ^ SIGN_BIT,
            s.fp(frs2),
            s.fp(frs3) ^ SIGN_BIT,
            rm,
        ),
        RvInstr::FnmsubS { frs1, frs2, frs3, rm, .. } => rounded(
            s,
            FpOp::MulAdd,
            s.fp(frs1) ^ SIGN_BIT,
            s.fp(frs2),
            s.fp(frs3),
            rm,
        ),
        RvInstr::FeqS { frs1, frs2, .. } => Some(
            FpRequest {
                op: FpOp::CompareQuiet,
                a: s.fp(frs1),
                b: s.fp(frs2),
                c: 0,
                rounding: RoundingMode::Rne,
            },
        ),
        RvInstr::FltS { frs1, frs2, .. } | RvInstr::FleS { frs1, frs2, .. } => Some(
            FpRequest {
                op: FpOp::CompareSignaling,
                a: s.fp(frs1),
                b: s.fp(frs2),
                c: 0,
                rounding: RoundingMode::Rne,
            },
        ),
        RvInstr::FcvtWS { frs1, rm, .. } => rounded(s, FpOp::ToSigned, s.fp(frs1), 0, 0, rm),
        RvInstr::FcvtWuS { frs1, rm, .. } => rounded(s, FpOp::ToUnsigned, s.fp(frs1), 0, 0, rm),
        RvInstr::FcvtSW { rs1, rm, .. } => rounded(s, FpOp::FromSigned, s.reg(rs1), 0, 0, rm),
        RvInstr::FcvtSWu { rs1, rm, .. } => rounded(s, FpOp::FromUnsigned, s.reg(rs1), 0, 0, rm),
        _ => None,
    }
}

/// Whether `instr` is an instruction of the F extension that is executed on
/// bit patterns alone.
pub open spec fn direct(instr: RvInstr) -> bool {
    match instr {
        RvInstr::Flw { .. }
        | RvInstr::Fsw { .. }
        | RvInstr::FsgnjS { .. }
        | RvInstr::FsgnjnS { .. }
        | RvInstr::FsgnjxS { .. }
        | RvInstr::FminS { .. }
        | RvInstr::FmaxS { .. }
        | RvInstr::FclassS { .. }
        | RvInstr::FmvXW { .. }
        | RvInstr::FmvWX { .. } => true,
        _ => false,
    }
}

/// Whether the floating-point executor claims `instr`: the F extension is
/// enabled, and `instr` is executed on bit patterns or makes a request.
pub open spec fn handles(s: CoreState, instr: RvInstr) -> bool {
    s.arch.fp.is_some() && (direct(instr) || spec_request(s, instr).is_some())
}

/// Whether a minimum or maximum of `a` and `b` is invalid: an operand is a
/// signaling NaN, or both operands are NaNs.
pub open spec fn min_max_invalid(a: u32, b: u32) -> bool {
    is_signaling_nan(a) || is_signaling_nan(b) || (is_nan(a) && is_nan(b))
}

/// The state after a minimum or maximum: the result in `frd`, and the
/// invalid flag where an operand is a signaling NaN or both are NaNs.
pub open spec fn min_max(s: CoreState, frd: u8, frs1: u8, frs2: u8, is_min: bool) -> CoreState {
    let written = s.write_fp(frd, spec_min_max(s.fp(frs1), s.fp(frs2), is_min));
    if min_max_invalid(s.fp(frs1), s.fp(frs2)) {
        with_flags(written, NV)
    } else {
        written
    }
}

/// The core and the memory after the floating-point executor was offered
/// `instr`, fetched at `current_pc`.
///
/// An instruction that makes a request leaves the core waiting for its
/// outcome.  An instruction that the executor does not claim changes
/// nothing.
pub open spec fn spec_execute(s: CoreState, m: Region, instr: RvInstr, current_pc: u32) -> (
    CoreState,
    Region,
) {
    if !handles(s, instr) {
        (s, m)
    } else {
        match instr {
            RvInstr::Flw { frd, rs1, offset } => (
                match load_word(m, effective_addr(s.reg(rs1), offset)) {
                    Ok(value) => s.write_fp(frd, value),
                    Err(e) => s.mem_fault(e, crate::cpu::MemAccessType::Load, current_pc),
                },
                m,
            ),
            RvInstr::Fsw { frs2, rs1, offset } => {
                let after = store_word(m, effective_addr(s.reg(rs1), offset), s.fp(frs2));
                (stored(s, after.1, current_pc), after.0)
            },
            RvInstr::FsgnjS { frd, frs1, frs2 } => (
                s.write_fp(frd, (s.fp(frs1) & 0x7FFF_FFFF) | (s.fp(frs2) & 0x8000_0000)),
                m,
            ),
            RvInstr::FsgnjnS { frd, frs1, frs2 } => (
                s.write_fp(
                    frd,
                    (s.fp(frs1) & 0x7FFF_FFFF) | ((s.fp(frs2) ^ 0x8000_0000) & 0x8000_0000),
                ),
                m,
            ),
            RvInstr::FsgnjxS { frd, frs1, frs2 } => (
                s.write_fp(frd, s.fp(frs1) ^ (s.fp(frs2) & 0x8000_0000)),
                m,
            ),
            RvInstr::FminS { frd, frs1, frs2 } => (min_max(s, frd, frs1, frs2, true), m),
            RvInstr::FmaxS { frd, frs1, frs2 } => (min_max(s, frd, frs1, frs2, false), m),
            RvInstr::FclassS { rd, frs1 } => (s.write_reg(rd, spec_fclass(s.fp(frs1))), m),
            RvInstr::FmvXW { rd, frs1 } => (s.write_reg(rd, s.fp(frs1)), m),
            RvInstr::FmvWX { frd, rs1 } => (s.write_fp(frd, s.reg(rs1)), m),
            _ => (
                s.set_pending(
                    Some(PendingFp { instr, request: spec_request(s, instr).unwrap() }),
                ),
                m,
            ),
        }
    }
}

/// Whether an outcome of this kind completes `instr`: a value for
/// arithmetic and for conversions to a float, an integer for conversions to
/// an integer, an order for comparisons.
pub open spec fn fits(instr: RvInstr, outcome: FpOutcome) -> bool {
    match instr {
        RvInstr::FaddS { .. }
        | RvInstr::FsubS { .. }
        | RvInstr::FmulS { .. }
        | RvInstr::FdivS { .. }
        | RvInstr::FsqrtS { .. }
        | RvInstr::FmaddS { .. }
        | RvInstr::FmsubS { .. }
        | RvInstr::FnmaddS { .. }
        | RvInstr::FnmsubS { .. }
        | RvInstr::FcvtSW { .. }
        | RvInstr::FcvtSWu { .. } => outcome is Value,
        RvInstr::FeqS { .. } | RvInstr::FltS { .. } | RvInstr::FleS { .. } => outcome is Compared,
        RvInstr::FcvtWS { .. } | RvInstr::FcvtWuS { .. } => outcome is Integer,
        _ => false,
    }
}

/// Whether the core waits for an outcome of the kind of `outcome`.
pub open spec fn accepts(s: CoreState, outcome: FpOutcome) -> bool {
    match s.pending {
        Some(pending) => fits(pending.instr, outcome),
        None => false,
    }
}

/// The destination of `instr` written from `outcome`, which fits it.
///
/// A comparison writes one where the order is the one it asks for, zero
/// else, so zero for unordered operands.  A conversion to an integer that
/// has no representable result saturates by the operand `operand`.
pub open spec fn written(s: CoreState, instr: RvInstr, operand: u32, outcome: FpOutcome) -> CoreState {
    match (instr, outcome) {
        (RvInstr::FaddS { frd, .. }, FpOutcome::Value { bits, .. })
        | (RvInstr::FsubS { frd, .. }, FpOutcome::Value { bits, .. })
        | (RvInstr::FmulS { frd, .. }, FpOutcome::Value { bits, .. })
        | (RvInstr::FdivS { frd, .. }, FpOutcome::Value { bits, .. })
        | (RvInstr::FsqrtS { frd, .. }, FpOutcome::Value { bits, .. })
        | (RvInstr::FmaddS { frd, .. }, FpOutcome::Value { bits, .. })
        | (RvInstr::FmsubS { frd, .. }, FpOutcome::Value { bits, .. })
        | (RvInstr::FnmaddS { frd, .. }, FpOutcome::Value { bits, .. })
        | (RvInstr::FnmsubS { frd, .. }, FpOutcome::Value { bits, .. })
        | (RvInstr::FcvtSW { frd, .. }, FpOutcome::Value { bits, .. })
        | (RvInstr::FcvtSWu { frd, .. }, FpOutcome::Value { bits, .. }) => s.write_fp(frd, bits),
        (RvInstr::FeqS { rd, .. }, FpOutcome::Compared { ordering, .. }) => s.write_reg(
            rd,
            flag(ordering == Some(FpOrdering::Equal)),
        ),
        (RvInstr::FltS { rd, .. }, FpOutcome::Compared { ordering, .. }) => s.write_reg(
            rd,
            flag(ordering == Some(FpOrdering::Less)),
        ),
        (RvInstr::FleS { rd, .. }, FpOutcome::Compared { ordering, .. }) => s.write_reg(
            rd,
            flag(ordering == Some(FpOrdering::Less) || ordering == Some(FpOrdering::Equal)),
        ),
        (RvInstr::FcvtWS { rd, .. }, FpOutcome::Integer { value, .. }) => s.write_reg(
            rd,
            match value {
                Some(v) => v,
                None => saturated_signed(operand),
            },
        ),
        (RvInstr::FcvtWuS { rd, .. }, FpOutcome::Integer { value, .. }) => s.write_reg(
            rd,
            match value {
                Some(v) => v,
                None => saturated_unsigned(operand),
            },
        ),
        _ => s,
    }
}

/// The core after it was handed `outcome`.
///
/// Where it waits for an outcome of this kind, the outcome's exceptions are
/// accumulated into `fcsr`, the waiting instruction writes its destination,
/// and the core waits no longer.  Else nothing changes.
pub open spec fn spec_complete(s: CoreState, outcome: FpOutcome) -> CoreState {
    match s.pending {
        Some(pending) => if fits(pending.instr, outcome) {
            written(
                signalled(s, outcome.spec_status()),
                pending.instr,
                pending.request.a,
                outcome,
            ).set_pending(None)
        } else {
            s
        },
        None => s,
    }
}

/// Accumulates `flags` into `fcsr`.
pub fn set_fflags(cpu: &mut CpuCore, flags: u32)
    requires
        old(cpu).wf(),
    ensures
        final(cpu).wf(),
        final(cpu).decoders() == old(cpu).decoders(),
        final(cpu)@ == with_flags(old(cpu)@, flags),
{
    let fcsr = cpu.csr_read(FCSR_ADDR);
    cpu.csr_write(FCSR_ADDR, fcsr | flags);
}

/// Resolves the rounding mode of an instruction.
pub fn decode_rounding_mode(cpu: &CpuCore, instr_rm: u8) -> (r: Option<RoundingMode>)
    ensures
        r == resolve_rounding(cpu@.csr(FCSR_ADDR), instr_rm),
        r != Some(RoundingMode::Dyn),
{
    let rm = if instr_rm == 0b111 {
        ((cpu.csr_read(FCSR_ADDR) >> 5) & 0x7) as u8
    } else {
        instr_rm
    };
    match rm {
        0b000 => Some(RoundingMode::Rne),
        0b001 => Some(RoundingMode::Rtz),
        0b010 => Some(RoundingMode::Rdn),
        0b011 => Some(RoundingMode::Rup),
        0b100 => Some(RoundingMode::Rmm),
        _ => None,
    }
}

/// Accumulates the exceptions of `status` into `fcsr`.
pub fn apply_fp_state(cpu: &mut CpuCore, status: &FpStatus)
    requires
        old(cpu).wf(),
    ensures
        final(cpu).wf(),
        final(cpu).decoders() == old(cpu).decoders(),
        final(cpu)@ == signalled(old(cpu)@, *status),
{
    let mut bits: u32 = 0;
    if status.invalid {
        bits = bits + NV;
    }
    if status.division_by_zero {
        bits = bits + DZ;
    }
    if status.overflow {
        bits = bits + OF;
    }
    if status.underflow {
        bits = bits + UF;
    }
    if status.inexact {
        bits = bits + NX;
    }
    if bits != 0 {
        set_fflags(cpu, bits);
    }
}

/// Whether `bits` is a NaN.
pub fn is_nan_bits(bits: u32) -> (r: bool)
    ensures
        r == is_nan(bits),
{
    let exp = bits & 0x7F80_0000;
    let frac = bits & 0x007F_FFFF;
    exp == 0x7F80_0000 && frac != 0
}

/// Whether `bits` is a signaling NaN.
pub fn is_signaling_nan_bits(bits: u32) -> (r: bool)
    ensures
        r == is_signaling_nan(bits),
{
    let exp = bits & 0x7F80_0000;
    let frac = bits & 0x007F_FFFF;
    assert((bits & 0x007F_FFFF) & 0x0040_0000 == bits & 0x0040_0000) by (bit_vector);
    exp == 0x7F80_0000 && frac != 0 && (frac & 0x0040_0000) == 0
}

/// Whether `a` precedes `b` in the order of the floating-point numbers;
/// neither is a NaN.
fn precedes(a: u32, b: u32) -> (r: bool)
    ensures
        r == (order_key(a) < order_key(b)),
{
    let (na, nb) = (a & 0x8000_0000 != 0, b & 0x8000_0000 != 0);
    let (ma, mb) = (a & 0x7FFF_FFFF, b & 0x7FFF_FFFF);
    if na && nb {
        ma > mb
    } else if na {
        ma != 0 || mb != 0
    } else if nb {
        false
    } else {
        ma < mb
    }
}

/// Executes a minimum or maximum.
pub fn handle_min_max(cpu: &mut CpuCore, frd: u8, frs1: u8, frs2: u8, is_min: bool)
    requires
        old(cpu).wf(),
        frd < 32,
        frs1 < 32,
        frs2 < 32,
    ensures
        final(cpu).wf(),
        final(cpu).decoders() == old(cpu).decoders(),
        final(cpu)@ == min_max(old(cpu)@, frd, frs1, frs2, is_min),
{
    let a = cpu.read_fp(frs1);
    let b = cpu.read_fp(frs2);
    let a_nan = is_nan_bits(a);
    let b_nan = is_nan_bits(b);
    let invalid = is_signaling_nan_bits(a) || is_signaling_nan_bits(b) || (a_nan && b_nan);
    let result = if a_nan && b_nan {
        CANONICAL_NAN
    } else if a_nan {
        b
    } else if b_nan {
        a
    } else if a & 0x7FFF_FFFF == 0 && b & 0x7FFF_FFFF == 0 {
        if is_min {
            a | b
        } else {
            a & b
        }
    } else if a == b {
        a
    } else {
        let choose_a = if is_min {
            precedes(a, b)
        } else {
            precedes(b, a)
        };
        if choose_a {
            a
        } else {
            b
        }
    };
    cpu.write_fp(frd, result);
    if invalid {
        set_fflags(cpu, NV);
    }
}

/// Classifies a bit pattern.
pub fn fclass(bits: u32) -> (r: u32)
    ensures
        r == spec_fclass(bits),
{
    let sign = bits >> 31;
    let exp = (bits >> 23) & 0xFF;
    let frac = bits & 0x007F_FFFF;
    if exp == 0xFF {
        if frac == 0 {
            if sign == 0 {
                0x80
            } else {
                0x01
            }
        } else if frac & 0x0040_0000 != 0 {
            0x200
        } else {
            0x100
        }
    } else if exp == 0 {
        if frac == 0 {
            if sign == 0 {
                0x10
            } else {
                0x08
            }
        } else {
            if sign == 0 {
                0x20
            } else {
                0x04
            }
        }
    } else {
        if sign == 0 {
            0x40
        } else {
            0x02
        }
    }
}

/// Builds the request of an operation with rounding mode field `rm`.
fn rounded_request(cpu: &CpuCore, op: FpOp, a: u32, b: u32, c: u32, rm: u8) -> (r: Option<FpRequest>)
    ensures
        r == rounded(cpu@, op, a, b, c, rm),
{
    match decode_rounding_mode(cpu, rm) {
        Some(rounding) => Some(FpRequest { op, a, b, c, rounding }),
        None => None,
    }
}

/// The request that `instr` makes of the arithmetic unit.
pub fn request(cpu: &CpuCore, instr: RvInstr) -> (r: Option<FpRequest>)
    requires
        cpu.wf(),
        instr.wf(),
    ensures
        r == spec_request(cpu@, instr),
{
    match instr {
        RvInstr::FaddS { frs1, frs2, rm, .. } => rounded_request(
            cpu,
            FpOp::Add,
            cpu.read_fp(frs1),
            cpu.read_fp(frs2),
            0,
            rm,
        ),
        RvInstr::FsubS { frs1, frs2, rm, .. } => rounded_request(
            cpu,
            FpOp::Sub,
            cpu.read_fp(frs1),
            cpu.read_fp(frs2),
            0,
            rm,
        ),
        RvInstr::FmulS { frs1, frs2, rm, .. } => rounded_request(
            cpu,
            FpOp::Mul,
            cpu.read_fp(frs1),
            cpu.read_fp(frs2),
            0,
            rm,
        ),
        RvInstr::FdivS { frs1, frs2, rm, .. } => rounded_request(
            cpu,
            FpOp::Div,
            cpu.read_fp(frs1),
            cpu.read_fp(frs2),
            0,
            rm,
        ),
        RvInstr::FsqrtS { frs1, rm, .. } => rounded_request(
            cpu,
            FpOp::Sqrt,
            cpu.read_fp(frs1),
            0,
            0,
            rm,
        ),
        RvInstr::FmaddS { frs1, frs2, frs3, rm, .. } => rounded_request(
            cpu,
            FpOp::MulAdd,
            cpu.read_fp(frs1),
            cpu.read_fp(frs2),
            cpu.read_fp(frs3),
            rm,
        ),
        RvInstr::FmsubS { frs1, frs2, frs3, rm, .. } => rounded_request(
            cpu,
            FpOp::MulAdd,
            cpu.read_fp(frs1),
            cpu.read_fp(frs2),
            cpu.read_fp(frs3) ^ SIGN_BIT,
            rm,
        ),
        RvInstr::FnmaddS { frs1, frs2, frs3, rm, .. } => rounded_request(
            cpu,
            FpOp::MulAdd,
            cpu.read_fp(frs1) ^ SIGN_BIT,
            cpu.read_fp(frs2),
            cpu.read_fp(frs3) ^ SIGN_BIT,
            rm,
        ),
        RvInstr::FnmsubS { frs1, frs2, frs3, rm, .. } => rounded_request(
            cpu,
            FpOp::MulAdd,
            cpu.read_fp(frs1) ^ SIGN_BIT,
            cpu.read_fp(frs2),
            cpu.read_fp(frs3),
            rm,
        ),
        RvInstr::FeqS { frs1, frs2, .. } => Some(
            FpRequest {
                op: FpOp::CompareQuiet,
                a: cpu.read_fp(frs1),
                b: cpu.read_fp(frs2),
                c: 0,
                rounding: RoundingMode::Rne,
            },
        ),
        RvInstr::FltS { frs1, frs2, .. } | RvInstr::FleS { frs1, frs2, .. } => Some(
            FpRequest {
                op: FpOp::CompareSignaling,
                a: cpu.read_fp(frs1),
                b: cpu.read_fp(frs2),
                c: 0,
                rounding: RoundingMode::Rne,
            },
        ),
        RvInstr::FcvtWS { frs1, rm, .. } => rounded_request(
            cpu,
            FpOp::ToSigned,
            cpu.read_fp(frs1),
            0,
            0,
            rm,
        ),
        RvInstr::FcvtWuS { frs1, rm, .. } => rounded_request(
            cpu,
            FpOp::ToUnsigned,
            cpu.read_fp(frs1),
            0,
            0,
            rm,
        ),
        RvInstr::FcvtSW { rs1, rm, .. } => rounded_request(
            cpu,
            FpOp::FromSigned,
            cpu.read_reg(rs1),
            0,
            0,
            rm,
        ),
        RvInstr::FcvtSWu { rs1, rm, .. } => rounded_request(
            cpu,
            FpOp::FromUnsigned,
            cpu.read_reg(rs1),
            0,
            0,
            rm,
        ),
        _ => None,
    }
}

/// Executes `instr` where the floating-point executor claims it; returns
/// whether it does.
pub fn execute<M: Memory>(cpu: &mut CpuCore, mem: &mut M, instr: RvInstr, current_pc: u32) -> (handled:
    bool)
    requires
        old(cpu).wf(),
        instr.wf(),
    ensures
        final(cpu).wf(),
        final(cpu).decoders() == old(cpu).decoders(),
        handled == handles(old(cpu)@, instr),
        (final(cpu)@, final(mem)@) == spec_execute(old(cpu)@, old(mem)@, instr, current_pc),
{
    if !cpu.has_fp() {
        return false;
    }
    match instr {
        RvInstr::Flw { frd, rs1, offset } => {
            let addr = cpu.read_reg(rs1).wrapping_add(as_word(offset));
            match load_word_at(cpu, mem, addr, current_pc) {
                Some(value) => cpu.write_fp(frd, value),
                None => {},
            }
        },
        RvInstr::Fsw { frs2, rs1, offset } => {
            let addr = cpu.read_reg(rs1).wrapping_add(as_word(offset));
            let value = cpu.read_fp(frs2);
            let _ = store_word_at(cpu, mem, addr, value, current_pc);
        },
        RvInstr::FsgnjS { frd, frs1, frs2 } => {
            let a = cpu.read_fp(frs1);
            let b = cpu.read_fp(frs2);
            cpu.write_fp(frd, (a & 0x7FFF_FFFF) | (b & 0x8000_0000));
        },
        RvInstr::FsgnjnS { frd, frs1, frs2 } => {
            let a = cpu.read_fp(frs1);
            let b = cpu.read_fp(frs2);
            cpu.write_fp(frd, (a & 0x7FFF_FFFF) | ((b ^ 0x8000_0000) & 0x8000_0000));
        },
        RvInstr::FsgnjxS { frd, frs1, frs2 } => {
            let a = cpu.read_fp(frs1);
            let b = cpu.read_fp(frs2);
            cpu.write_fp(frd, a ^ (b & 0x8000_0000));
        },
        RvInstr::FminS { frd, frs1, frs2 } => {
            handle_min_max(cpu, frd, frs1, frs2, true);
        },
        RvInstr::FmaxS { frd, frs1, frs2 } => {
            handle_min_max(cpu, frd, frs1, frs2, false);
        },
        RvInstr::FclassS { rd, frs1 } => {
            let class = fclass(cpu.read_fp(frs1));
            cpu.write_reg(rd, class);
        },
        RvInstr::FmvXW { rd, frs1 } => {
            let value = cpu.read_fp(frs1);
            cpu.write_reg(rd, value);
        },
        RvInstr::FmvWX { frd, rs1 } => {
            let value = cpu.read_reg(rs1);
            cpu.write_fp(frd, value);
        },
        _ => {
            match request(cpu, instr) {
                Some(request) => cpu.set_pending(Some(PendingFp { instr, request })),
                None => {
                    return false;
                },
            }
        },
    }
    true
}

/// Completes the instruction that waits for `outcome`; returns whether an
/// instruction was waiting for an outcome of this kind.
pub fn complete(cpu: &mut CpuCore, outcome: FpOutcome) -> (r: bool)
    requires
        old(cpu).wf(),
    ensures
        final(cpu).wf(),
        final(cpu).decoders() == old(cpu).decoders(),
        r == accepts(old(cpu)@, outcome),
        final(cpu)@ == spec_complete(old(cpu)@, outcome),
{
    proof {
        old(cpu).lemma_wf();
    }
    let pending = match cpu.pending() {
        Some(pending) => pending,
        None => {
            return false;
        },
    };
    let operand = pending.request.a;
    match (pending.instr, outcome) {
        (RvInstr::FaddS { frd, .. }, FpOutcome::Value { bits, status })
        | (RvInstr::FsubS { frd, .. }, FpOutcome::Value { bits, status })
        | (RvInstr::FmulS { frd, .. }, FpOutcome::Value { bits, status })
        | (RvInstr::FdivS { frd, .. }, FpOutcome::Value { bits, status })
        | (RvInstr::FsqrtS { frd, .. }, FpOutcome::Value { bits, status })
        | (RvInstr::FmaddS { frd, .. }, FpOutcome::Value { bits, status })
        | (RvInstr::FmsubS { frd, .. }, FpOutcome::Value { bits, status })
        | (RvInstr::FnmaddS { frd, .. }, FpOutcome::Value { bits, status })
        | (RvInstr::FnmsubS { frd, .. }, FpOutcome::Value { bits, status })
        | (RvInstr::FcvtSW { frd, .. }, FpOutcome::Value { bits, status })
        | (RvInstr::FcvtSWu { frd, .. }, FpOutcome::Value { bits, status }) => {
            apply_fp_state(cpu, &status);
            cpu.write_fp(frd, bits);
        },
        (RvInstr::FeqS { rd, .. }, FpOutcome::Compared { ordering, status }) => {
            apply_fp_state(cpu, &status);
            let equal = match ordering {
                Some(FpOrdering::Equal) => true,
                _ => false,
            };
            cpu.write_reg(
                rd,
                if equal {
                    1
                } else {
                    0
                },
            );
        },
        (RvInstr::FltS { rd, .. }, FpOutcome::Compared { ordering, status }) => {
            apply_fp_state(cpu, &status);
            let less = match ordering {
                Some(FpOrdering::Less) => true,
                _ => false,
            };
            cpu.write_reg(
                rd,
                if less {
                    1
                } else {
                    0
                },
            );
        },
        (RvInstr::FleS { rd, .. }, FpOutcome::Compared { ordering, status }) => {
            apply_fp_state(cpu, &status);
            let less_or_equal = match ordering {
                Some(FpOrdering::Less) | Some(FpOrdering::Equal) => true,
                _ => false,
            };
            cpu.write_reg(
                rd,
                if less_or_equal {
                    1
                } else {
                    0
                },
            );
        },
        (RvInstr::FcvtWS { rd, .. }, FpOutcome::Integer { value, status }) => {
            apply_fp_state(cpu, &status);
            let result = match value {
                Some(v) => v,
                None => {
                    if is_nan_bits(operand) {
                        0x7FFF_FFFF
                    } else if operand & 0x8000_0000 != 0 {
                        0x8000_0000
                    } else {
                        0x7FFF_FFFF
                    }
                },
            };
            cpu.write_reg(rd, result);
        },
        (RvInstr::FcvtWuS { rd, .. }, FpOutcome::Integer { value, status }) => {
            apply_fp_state(cpu, &status);
            let result = match value {
                Some(v) => v,
                None => {
                    if is_nan_bits(operand) || operand & 0x8000_0000 == 0 {
                        0xFFFF_FFFF
                    } else {
                        0
                    }
                },
            };
            cpu.write_reg(rd, result);
        },
        _ => {
            return false;
        },
    }
    cpu.set_pending(None);
    true
}

} // verus!
