//! Bit-field extractors of a 32-bit instruction word.
//!
//! Every extractor is total.  The register, function and shift fields are
//! plain bit slices; the immediates are assembled from their scattered bits
//! and read as two's-complement numbers of their natural width.
use vstd::prelude::*;

verus! {

pub const OP_LUI: u32 = 0b0110111;

pub const OP_AUIPC: u32 = 0b0010111;

pub const OP_JAL: u32 = 0b1101111;

pub const OP_JALR: u32 = 0b1100111;

pub const OP_BRANCH: u32 = 0b1100011;

pub const OP_LOAD: u32 = 0b0000011;

pub const OP_STORE: u32 = 0b0100011;

pub const OP_MISC_MEM: u32 = 0b0001111;

pub const OP_IMM: u32 = 0b0010011;

pub const OP_REG: u32 = 0b0110011;

pub const OP_SYSTEM: u32 = 0b1110011;

/// First of the four opcodes that the architecture reserves for custom
/// extensions.
pub const OP_CUSTOM_0: u32 = 0b0001011;

pub const OP_CUSTOM_1: u32 = 0b0101011;

pub const OP_CUSTOM_2: u32 = 0b1011011;

pub const OP_CUSTOM_3: u32 = 0b1111011;

/// The number that a two's-complement field stands for, where `modulus` is
/// two to the power of the field's width and `0 <= field < modulus`.
pub open spec fn sign_extend(field: int, modulus: int) -> int {
    if 2 * field >= modulus {
        field - modulus
    } else {
        field
    }
}

/// Bits `[6:0]`.
pub open spec fn spec_opcode(raw: u32) -> u32 {
    raw & 0x7F
}

/// Bits `[11:7]`.
pub open spec fn spec_rd(raw: u32) -> u8 {
    ((raw >> 7) & 0x1F) as u8
}

/// Bits `[14:12]`.
pub open spec fn spec_funct3(raw: u32) -> u32 {
    (raw >> 12) & 0x7
}

/// Bits `[19:15]`.
pub open spec fn spec_rs1(raw: u32) -> u8 {
    ((raw >> 15) & 0x1F) as u8
}

/// Bits `[24:20]`.
pub open spec fn spec_rs2(raw: u32) -> u8 {
    ((raw >> 20) & 0x1F) as u8
}

/// Bits `[31:25]`.
pub open spec fn spec_funct7(raw: u32) -> u32 {
    (raw >> 25) & 0x7F
}

/// Bits `[24:20]`, read as a shift amount.
pub open spec fn spec_shamt(raw: u32) -> u8 {
    ((raw >> 20) & 0x1F) as u8
}

/// Bits `[31:20]`, read as a CSR address.
pub open spec fn spec_csr_addr(raw: u32) -> u16 {
    ((raw >> 20) & 0xFFF) as u16
}

/// Bits `[19:15]`, read as a zero-extended immediate.
pub open spec fn spec_csr_zimm(raw: u32) -> u32 {
    (raw >> 15) & 0x1F
}

/// The twelve-bit field `word[31:20]` of the I format.
pub open spec fn i_field(raw: u32) -> u32 {
    raw >> 20
}

/// The twelve-bit field `{word[31:25], word[11:7]}` of the S format.
pub open spec fn s_field(raw: u32) -> u32 {
    (((raw >> 25) & 0x7F) << 5) | ((raw >> 7) & 0x1F)
}

/// The thirteen-bit field `{word[31], word[7], word[30:25], word[11:8], 0}`
/// of the B format.
pub open spec fn b_field(raw: u32) -> u32 {
    (((raw >> 31) & 0x1) << 12) | (((raw >> 7) & 0x1) << 11) | (((raw >> 25) & 0x3F) << 5) | (((raw
        >> 8) & 0xF) << 1)
}

/// The field `word[31:12]` of the U format, kept in place above twelve zero
/// bits.
pub open spec fn u_field(raw: u32) -> u32 {
    raw & 0xFFFFF000
}

/// The twenty-one-bit field `{word[31], word[19:12], word[20], word[30:21], 0}`
/// of the J format.
pub open spec fn j_field(raw: u32) -> u32 {
    (((raw >> 31) & 0x1) << 20) | (((raw >> 12) & 0xFF) << 12) | (((raw >> 20) & 0x1) << 11) | (((
    raw >> 21) & 0x3FF) << 1)
}

/// The I-format immediate: the field sign-extended from 12 bits.
pub open spec fn spec_imm_i(raw: u32) -> i32 {
    sign_extend(i_field(raw) as int, 0x1000) as i32
}

/// The S-format immediate: the field sign-extended from 12 bits.
pub open spec fn spec_imm_s(raw: u32) -> i32 {
    sign_extend(s_field(raw) as int, 0x1000) as i32
}

/// The B-format immediate: the field sign-extended from 13 bits.
pub open spec fn spec_imm_b(raw: u32) -> i32 {
    sign_extend(b_field(raw) as int, 0x2000) as i32
}

/// The U-format immediate: the field read as a 32-bit two's-complement number.
pub open spec fn spec_imm_u(raw: u32) -> i32 {
    sign_extend(u_field(raw) as int, 0x1_0000_0000) as i32
}

/// The J-format immediate: the field sign-extended from 21 bits.
pub open spec fn spec_imm_j(raw: u32) -> i32 {
    sign_extend(j_field(raw) as int, 0x20_0000) as i32
}

/// Every register, shift and CSR field fits its width, and every immediate
/// field fits the width it is sign-extended from.
pub proof fn lemma_field_ranges(raw: u32)
    by (bit_vector)
    ensures
        raw & 0x7F < 128,
        (raw >> 7) & 0x1F < 32,
        (raw >> 12) & 0x7 < 8,
        (raw >> 15) & 0x1F < 32,
        (raw >> 20) & 0x1F < 32,
        (raw >> 25) & 0x7F < 128,
        (raw >> 27) & 0x1F < 32,
        (raw >> 25) & 0x3 < 4,
        (raw >> 20) & 0xFFF < 0x1000,
        raw >> 20 < 0x1000,
        ((((raw >> 25) & 0x7F) << 5) | ((raw >> 7) & 0x1F)) < 0x1000,
        ((((raw >> 31) & 0x1) << 12) | (((raw >> 7) & 0x1) << 11) | (((raw >> 25) & 0x3F) << 5) | (((
        raw >> 8) & 0xF) << 1)) < 0x2000,
        ((((raw >> 31) & 0x1) << 20) | (((raw >> 12) & 0xFF) << 12) | (((raw >> 20) & 0x1) << 11)
            | (((raw >> 21) & 0x3FF) << 1)) < 0x20_0000,
{
}

/// A field below `2^12`, `2^13` or `2^21` that is moved to the top of a
/// 32-bit word and shifted back arithmetically comes out sign-extended; so
/// does a whole word read as signed.
proof fn lemma_sign_extension(field: u32)
    by (bit_vector)
    ensures
        field < 0x1000 ==> (((field as i32) << 20) >> 20) as int == (if field >= 0x800 {
            field - 0x1000
        } else {
            field as int
        }),
        field < 0x2000 ==> (((field as i32) << 19) >> 19) as int == (if field >= 0x1000 {
            field - 0x2000
        } else {
            field as int
        }),
        field < 0x20_0000 ==> (((field as i32) << 11) >> 11) as int == (if field >= 0x10_0000 {
            field - 0x20_0000
        } else {
            field as int
        }),
        ((field as i32) >> 20) as int == (if (field >> 20) >= 0x800 {
            (field >> 20) - 0x1000
        } else {
            (field >> 20) as int
        }),
        (field as i32) as int == (if field >= 0x8000_0000 {
            field - 0x1_0000_0000
        } else {
            field as int
        }),
{
}

/// Extracts the primary opcode.
pub fn opcode(raw: u32) -> (r: u32)
    ensures
        r == spec_opcode(raw),
        r < 128,
{
    proof {
        lemma_field_ranges(raw);
    }
    raw & 0x7F
}

/// Extracts the destination register index.
pub fn rd(raw: u32) -> (r: u8)
    ensures
        r == spec_rd(raw),
        r < 32,
{
    proof {
        lemma_field_ranges(raw);
    }
    ((raw >> 7) & 0x1F) as u8
}

/// Extracts the three-bit function field.
pub fn funct3(raw: u32) -> (r: u32)
    ensures
        r == spec_funct3(raw),
        r < 8,
{
    proof {
        lemma_field_ranges(raw);
    }
    (raw >> 12) & 0x7
}

/// Extracts the first source register index.
pub fn rs1(raw: u32) -> (r: u8)
    ensures
        r == spec_rs1(raw),
        r < 32,
{
    proof {
        lemma_field_ranges(raw);
    }
    ((raw >> 15) & 0x1F) as u8
}

/// Extracts the second source register index.
pub fn rs2(raw: u32) -> (r: u8)
    ensures
        r == spec_rs2(raw),
        r < 32,
{
    proof {
        lemma_field_ranges(raw);
    }
    ((raw >> 20) & 0x1F) as u8
}

/// Extracts the seven-bit function field.
pub fn funct7(raw: u32) -> (r: u32)
    ensures
        r == spec_funct7(raw),
        r < 128,
{
    proof {
        lemma_field_ranges(raw);
    }
    (raw >> 25) & 0x7F
}

/// Extracts the I-format immediate, sign-extended from 12 bits.
pub fn imm_i(raw: u32) -> (r: i32)
    ensures
        r == spec_imm_i(raw),
        -0x800 <= r < 0x800,
{
    proof {
        lemma_field_ranges(raw);
        lemma_sign_extension(raw);
    }
    (raw as i32) >> 20
}

/// Extracts the S-format immediate, sign-extended from 12 bits.
pub fn imm_s(raw: u32) -> (r: i32)
    ensures
        r == spec_imm_s(raw),
        -0x800 <= r < 0x800,
{
    let imm_11_5 = (raw >> 25) & 0x7F;
    let imm_4_0 = (raw >> 7) & 0x1F;
    let imm = (imm_11_5 << 5) | imm_4_0;
    proof {
        lemma_field_ranges(raw);
        lemma_sign_extension(imm);
    }
    ((imm as i32) << 20) >> 20
}

/// Extracts the B-format immediate, sign-extended from 13 bits.
pub fn imm_b(raw: u32) -> (r: i32)
    ensures
        r == spec_imm_b(raw),
        -0x1000 <= r < 0x1000,
{
    let imm_12 = (raw >> 31) & 0x1;
    let imm_10_5 = (raw >> 25) & 0x3F;
    let imm_4_1 = (raw >> 8) & 0xF;
    let imm_11 = (raw >> 7) & 0x1;
    let imm = (imm_12 << 12) | (imm_11 << 11) | (imm_10_5 << 5) | (imm_4_1 << 1);
    proof {
        lemma_field_ranges(raw);
        lemma_sign_extension(imm);
    }
    ((imm as i32) << 19) >> 19
}

/// Extracts the U-format immediate: bits `[31:12]` in place, low twelve bits
/// zero.
pub fn imm_u(raw: u32) -> (r: i32)
    ensures
        r == spec_imm_u(raw),
{
    proof {
        lemma_sign_extension(raw & 0xFFFFF000);
    }
    (raw & 0xFFFFF000) as i32
}

/// Extracts the J-format immediate, sign-extended from 21 bits.
pub fn imm_j(raw: u32) -> (r: i32)
    ensures
        r == spec_imm_j(raw),
        -0x10_0000 <= r < 0x10_0000,
{
    let imm_20 = (raw >> 31) & 0x1;
    let imm_10_1 = (raw >> 21) & 0x3FF;
    let imm_11 = (raw >> 20) & 0x1;
    let imm_19_12 = (raw >> 12) & 0xFF;
    let imm = (imm_20 << 20) | (imm_19_12 << 12) | (imm_11 << 11) | (imm_10_1 << 1);
    proof {
        lemma_field_ranges(raw);
        lemma_sign_extension(imm);
    }
    ((imm as i32) << 11) >> 11
}

/// Extracts the shift amount of a shift-immediate instruction.
pub fn shamt(raw: u32) -> (r: u8)
    ensures
        r == spec_shamt(raw),
        r < 32,
{
    proof {
        lemma_field_ranges(raw);
    }
    ((raw >> 20) & 0x1F) as u8
}

/// Extracts the CSR address.
pub fn csr_addr(raw: u32) -> (r: u16)
    ensures
        r == spec_csr_addr(raw),
        r < 0x1000,
{
    proof {
        lemma_field_ranges(raw);
    }
    ((raw >> 20) & 0xFFF) as u16
}

/// Extracts the five-bit zero-extended immediate of the CSR instructions.
pub fn csr_zimm(raw: u32) -> (r: u32)
    ensures
        r == spec_csr_zimm(raw),
        r < 32,
{
    proof {
        lemma_field_ranges(raw);
    }
    (raw >> 15) & 0x1F
}

} // verus!
