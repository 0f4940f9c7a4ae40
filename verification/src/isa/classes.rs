//! The encoding classes of the built-in extensions.
//!
//! Each built-in extension keeps to a part of the encoding space that no
//! other built-in extension touches.  An entry of one class and an entry of
//! another disagree on a bit that both inspect, so they never conflict.
use super::fields::{
    OP_AUIPC, OP_BRANCH, OP_IMM, OP_JAL, OP_JALR, OP_LOAD, OP_LUI, OP_MISC_MEM, OP_REG, OP_STORE,
    OP_SYSTEM,
};
use super::priv_instr::{MRET_ENCODING, SRET_ENCODING, WFI_ENCODING};
use super::rv32f::{OP_FP, OP_LOAD_FP, OP_MADD, OP_MSUB, OP_NMADD, OP_NMSUB, OP_STORE_FP};
use vstd::prelude::*;

verus! {

/// An entry with mask `m` and match value `v` is well formed, inspects the
/// whole opcode field, and lies under the opcode `op`.
pub open spec fn under_opcode(m: u32, v: u32, op: u32) -> bool {
    v & m == v && m & 0x7F == 0x7F && v & 0x7F == op
}

/// The class of the base integer instruction set: its eleven opcodes, with
/// funct7 other than `0000001` under `OP` and with the two words `ECALL`
/// and `EBREAK` under `SYSTEM`.
pub open spec fn base_class(m: u32, v: u32) -> bool {
    ||| under_opcode(m, v, OP_LUI)
    ||| under_opcode(m, v, OP_AUIPC)
    ||| under_opcode(m, v, OP_JAL)
    ||| under_opcode(m, v, OP_JALR)
    ||| under_opcode(m, v, OP_BRANCH)
    ||| under_opcode(m, v, OP_LOAD)
    ||| under_opcode(m, v, OP_STORE)
    ||| under_opcode(m, v, OP_MISC_MEM)
    ||| under_opcode(m, v, OP_IMM)
    ||| (under_opcode(m, v, OP_REG) && m & 0xFE00_0000 == 0xFE00_0000 && v & 0xFE00_0000
        != 0x0200_0000)
    ||| (under_opcode(m, v, OP_SYSTEM) && m == 0xFFFF_FFFF && (v == 0x0000_0073 || v
        == 0x0010_0073))
}

/// The class of the M extension: `OP` with funct7 `0000001`.
pub open spec fn muldiv_class(m: u32, v: u32) -> bool {
    under_opcode(m, v, OP_REG) && m & 0xFE00_0000 == 0xFE00_0000 && v & 0xFE00_0000 == 0x0200_0000
}

/// The class of the F extension: its seven opcodes.
pub open spec fn float_class(m: u32, v: u32) -> bool {
    ||| under_opcode(m, v, OP_LOAD_FP)
    ||| under_opcode(m, v, OP_STORE_FP)
    ||| under_opcode(m, v, OP_MADD)
    ||| under_opcode(m, v, OP_MSUB)
    ||| under_opcode(m, v, OP_NMSUB)
    ||| under_opcode(m, v, OP_NMADD)
    ||| under_opcode(m, v, OP_FP)
}

/// The class of the Zicsr extension: `SYSTEM` with a funct3 other than zero.
pub open spec fn csr_class(m: u32, v: u32) -> bool {
    under_opcode(m, v, OP_SYSTEM) && m & 0x7000 == 0x7000 && v & 0x7000 != 0
}

/// The class of the privileged instructions: the three words `MRET`, `SRET`
/// and `WFI`.
pub open spec fn privileged_class(m: u32, v: u32) -> bool {
    under_opcode(m, v, OP_SYSTEM) && m == 0xFFFF_FFFF && (v == MRET_ENCODING || v == SRET_ENCODING
        || v == WFI_ENCODING)
}

/// The two entries agree on every bit that both inspect.
pub open spec fn encodings_conflict(am: u32, av: u32, bm: u32, bv: u32) -> bool {
    av & (am & bm) == bv & (am & bm)
}

/// Entries of two distinct classes do not conflict.
pub proof fn lemma_classes_apart(am: u32, av: u32, bm: u32, bv: u32)
    by (bit_vector)
    ensures
        base_class(am, av) && muldiv_class(bm, bv) ==> !encodings_conflict(am, av, bm, bv),
        base_class(am, av) && float_class(bm, bv) ==> !encodings_conflict(am, av, bm, bv),
        base_class(am, av) && csr_class(bm, bv) ==> !encodings_conflict(am, av, bm, bv),
        base_class(am, av) && privileged_class(bm, bv) ==> !encodings_conflict(am, av, bm, bv),
        muldiv_class(am, av) && float_class(bm, bv) ==> !encodings_conflict(am, av, bm, bv),
        muldiv_class(am, av) && csr_class(bm, bv) ==> !encodings_conflict(am, av, bm, bv),
        muldiv_class(am, av) && privileged_class(bm, bv) ==> !encodings_conflict(am, av, bm, bv),
        float_class(am, av) && csr_class(bm, bv) ==> !encodings_conflict(am, av, bm, bv),
        float_class(am, av) && privileged_class(bm, bv) ==> !encodings_conflict(am, av, bm, bv),
        csr_class(am, av) && privileged_class(bm, bv) ==> !encodings_conflict(am, av, bm, bv),
        encodings_conflict(am, av, bm, bv) == encodings_conflict(bm, bv, am, av),
{
}

} // verus!
