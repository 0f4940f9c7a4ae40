//! The interface between the core and the floating-point arithmetic unit.
//!
//! The core does no floating-point arithmetic of its own.  An instruction
//! that needs some leaves the core waiting with a request: an operation,
//! its operands as bit patterns and a rounding mode.  Whoever drives the
//! core computes the operation and hands the outcome back; the core then
//! completes the instruction.
use crate::isa::rv32f::RoundingMode;
use crate::isa::RvInstr;
use vstd::prelude::*;

verus! {

/// An operation of IEEE 754 single-precision arithmetic.
#[derive(Debug, Clone, Copy, PartialEq, Eq)]
pub enum FpOp {
    /// `a + b`
    Add,
    /// `a - b`
    Sub,
    /// `a * b`
    Mul,
    /// `a / b`
    Div,
    /// The square root of `a`.
    Sqrt,
    /// `a * b + c` with a single rounding.
    MulAdd,
    /// The order of `a` and `b`; only a signaling NaN is invalid.
    CompareQuiet,
    /// The order of `a` and `b`; every NaN is invalid.
    CompareSignaling,
    /// `a` rounded to a signed 32-bit integer.
    ToSigned,
    /// `a` rounded to an unsigned 32-bit integer.
    ToUnsigned,
    /// The word `a`, read as a signed integer, rounded to a float.
    FromSigned,
    /// The word `a`, read as an unsigned integer, rounded to a float.
    FromUnsigned,
}

/// An operation with its operands.
#[derive(Debug, Clone, Copy, PartialEq, Eq)]
pub struct FpRequest {
    pub op: FpOp,
    /// First operand.
    pub a: u32,
    /// Second operand; zero where the operation has none.
    pub b: u32,
    /// Third operand; zero where the operation has none.
    pub c: u32,
    /// The rounding mode, never the dynamic one.
    pub rounding: RoundingMode,
}

/// The exceptions that an operation signals.
#[derive(Debug, Clone, Copy, PartialEq, Eq)]
pub struct FpStatus {
    pub invalid: bool,
    pub division_by_zero: bool,
    pub overflow: bool,
    pub underflow: bool,
    pub inexact: bool,
}

/// The order of two floating-point numbers.
#[derive(Debug, Clone, Copy, PartialEq, Eq)]
pub enum FpOrdering {
    Less,
    Equal,
    Greater,
}

/// What an operation produced.
#[derive(Debug, Clone, Copy, PartialEq, Eq)]
pub enum FpOutcome {
    /// The result of an arithmetic operation or of a conversion from an
    /// integer, as a bit pattern.
    Value { bits: u32, status: FpStatus },
    /// The result of a conversion to an integer, as a word; `None` where the
    /// rounded value has no 32-bit representation.
    Integer { value: Option<u32>, status: FpStatus },
    /// The result of a comparison; `None` where the operands are unordered.
    Compared { ordering: Option<FpOrdering>, status: FpStatus },
}

/// An instruction that waits for the outcome of its request.
#[derive(Debug, Clone, Copy, PartialEq, Eq)]
pub struct PendingFp {
    pub instr: RvInstr,
    pub request: FpRequest,
}

impl FpStatus {
    /// No exception.
    pub open spec fn spec_clear() -> FpStatus {
        FpStatus {
            invalid: false,
            division_by_zero: false,
            overflow: false,
            underflow: false,
            inexact: false,
        }
    }

    /// The status that signals nothing.
    pub fn clear() -> (r: Self)
        ensures
            r == Self::spec_clear(),
    {
        FpStatus {
            invalid: false,
            division_by_zero: false,
            overflow: false,
            underflow: false,
            inexact: false,
        }
    }
}

impl FpOutcome {
    /// The exceptions that the operation signalled.
    pub open spec fn spec_status(self) -> FpStatus {
        match self {
            FpOutcome::Value { status, .. } => status,
            FpOutcome::Integer { status, .. } => status,
            FpOutcome::Compared { status, .. } => status,
        }
    }

    /// The exceptions that the operation signalled.
    pub fn status(&self) -> (r: FpStatus)
        ensures
            r == self.spec_status(),
    {
        match self {
            FpOutcome::Value { status, .. } => *status,
            FpOutcome::Integer { status, .. } => *status,
            FpOutcome::Compared { status, .. } => *status,
        }
    }
}

} // verus!
