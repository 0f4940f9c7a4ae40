//! Instruction table entries and the table-driven decoder.
//!
//! One entry serves two purposes: a word is decoded by the first entry whose
//! masked bits equal its match value, and two entries are compared bit by bit
//! to find encodings that both would claim.
use super::decoder::InstrDecoder;
use super::fields::{
    csr_addr, imm_b, imm_i, imm_j, imm_s, imm_u, rd, rs1, rs2, shamt, spec_csr_addr, spec_imm_b,
    spec_imm_i, spec_imm_j, spec_imm_s, spec_imm_u, spec_rd, spec_rs1, spec_rs2, spec_shamt,
    lemma_field_ranges,
};
use super::instr::{CustomFields, DecodedInstr, RvInstr};
use super::rv32f::{rm, rs3, spec_rm, spec_rs3};
use vstd::prelude::*;

verus! {

/// Mask of the R format: opcode, funct3 and funct7.
pub const R_TYPE_MASK: u32 = 0xFE00707F;

/// Mask of the I format: opcode and funct3.
pub const I_TYPE_MASK: u32 = 0x707F;

/// Mask of the S format: opcode and funct3.
pub const S_TYPE_MASK: u32 = 0x707F;

/// Mask of the B format: opcode and funct3.
pub const B_TYPE_MASK: u32 = 0x707F;

/// Mask of the U format: opcode only.
pub const U_TYPE_MASK: u32 = 0x7F;

/// Mask of the J format: opcode only.
pub const J_TYPE_MASK: u32 = 0x7F;

/// Mask of the shift-immediate instructions: opcode, funct3 and the upper six
/// bits of funct7.
pub const SHIFT_IMM_MASK: u32 = 0xFC00707F;

/// Mask of an instruction that is a single word.
pub const EXACT_MASK: u32 = 0xFFFFFFFF;

/// The match value of an R-format instruction: funct7, funct3 and opcode in
/// their places.
pub open spec fn spec_r_match(funct7: u32, funct3: u32, opcode: u32) -> u32 {
    (funct7 << 25) | (funct3 << 12) | opcode
}

/// The match value of an I-, S- or B-format instruction: funct3 and opcode
/// in their places.
pub open spec fn spec_i_match(funct3: u32, opcode: u32) -> u32 {
    (funct3 << 12) | opcode
}

/// The match value of a shift-immediate instruction: the upper six bits of
/// funct7, funct3 and opcode in their places.
pub open spec fn spec_shift_match(funct6: u32, funct3: u32, opcode: u32) -> u32 {
    (funct6 << 26) | (funct3 << 12) | opcode
}

/// Match value of an R-format instruction.
pub fn r_match(funct7: u32, funct3: u32, opcode: u32) -> (r: u32)
    ensures
        r == spec_r_match(funct7, funct3, opcode),
{
    (funct7 << 25) | (funct3 << 12) | opcode
}

/// Match value of an I-, S- or B-format instruction.
pub fn i_match(funct3: u32, opcode: u32) -> (r: u32)
    ensures
        r == spec_i_match(funct3, opcode),
{
    (funct3 << 12) | opcode
}

/// Match value of a shift-immediate instruction.
pub fn shift_match(funct6: u32, funct3: u32, opcode: u32) -> (r: u32)
    ensures
        r == spec_shift_match(funct6, funct3, opcode),
{
    (funct6 << 26) | (funct3 << 12) | opcode
}

/// Predecessor set of a fence: bits `[27:24]`.
pub open spec fn spec_fence_pred(raw: u32) -> u8 {
    ((raw >> 24) & 0xF) as u8
}

/// Successor set of a fence: bits `[23:20]`.
pub open spec fn spec_fence_succ(raw: u32) -> u8 {
    ((raw >> 20) & 0xF) as u8
}

/// Fence mode: bits `[31:28]`.
pub open spec fn spec_fence_fm(raw: u32) -> u8 {
    ((raw >> 28) & 0xF) as u8
}

fn fence_pred(raw: u32) -> (r: u8)
    ensures
        r == spec_fence_pred(raw),
{
    ((raw >> 24) & 0xF) as u8
}

fn fence_succ(raw: u32) -> (r: u8)
    ensures
        r == spec_fence_succ(raw),
{
    ((raw >> 20) & 0xF) as u8
}

fn fence_fm(raw: u32) -> (r: u8)
    ensures
        r == spec_fence_fm(raw),
{
    ((raw >> 28) & 0xF) as u8
}

/// How an entry turns a matching word into a decoded instruction: one kind
/// per mnemonic, and one for the instructions of a custom extension.
#[derive(Debug, Clone, Copy, PartialEq, Eq)]
pub enum InstrKind {
    Lui,
    Auipc,
    Jal,
    Jalr,
    Beq,
    Bne,
    Blt,
    Bge,
    Bltu,
    Bgeu,
    Lb,
    Lh,
    Lw,
    Lbu,
    Lhu,
    Sb,
    Sh,
    Sw,
    Addi,
    Andi,
    Ori,
    Xori,
    Slti,
    Sltiu,
    Slli,
    Srli,
    Srai,
    Add,
    Sub,
    And,
    Or,
    Xor,
    Slt,
    Sltu,
    Sll,
    Srl,
    Sra,
    Fence,
    FenceI,
    Ecall,
    Ebreak,
    Mul,
    Mulh,
    Mulhsu,
    Mulhu,
    Div,
    Divu,
    Rem,
    Remu,
    Csrrw,
    Csrrs,
    Csrrc,
    Csrrwi,
    Csrrsi,
    Csrrci,
    Mret,
    Sret,
    Wfi,
    Flw,
    Fsw,
    FmaddS,
    FmsubS,
    FnmaddS,
    FnmsubS,
    FaddS,
    FsubS,
    FmulS,
    FdivS,
    FsqrtS,
    FsgnjS,
    FsgnjnS,
    FsgnjxS,
    FminS,
    FmaxS,
    FeqS,
    FltS,
    FleS,
    FcvtWS,
    FcvtWuS,
    FcvtSW,
    FcvtSWu,
    FmvXW,
    FclassS,
    FmvWX,
    /// An instruction of the extension `extension` under the primary opcode
    /// `opcode`, decoded with the register fields of the R format.
    Custom { extension: &'static str, opcode: u8 },
}

impl InstrKind {
    /// The decoded instruction that this kind builds from `raw`.
    pub open spec fn spec_build(self, raw: u32) -> RvInstr {
        match self {
            InstrKind::Lui => RvInstr::Lui { rd: spec_rd(raw), imm: spec_imm_u(raw) },
            InstrKind::Auipc => RvInstr::Auipc { rd: spec_rd(raw), imm: spec_imm_u(raw) },
            InstrKind::Jal => RvInstr::Jal { rd: spec_rd(raw), offset: spec_imm_j(raw) },
            InstrKind::Jalr => RvInstr::Jalr { rd: spec_rd(raw), rs1: spec_rs1(raw), offset: spec_imm_i(raw) },
            InstrKind::Beq => RvInstr::Beq { rs1: spec_rs1(raw), rs2: spec_rs2(raw), offset: spec_imm_b(raw) },
            InstrKind::Bne => RvInstr::Bne { rs1: spec_rs1(raw), rs2: spec_rs2(raw), offset: spec_imm_b(raw) },
            InstrKind::Blt => RvInstr::Blt { rs1: spec_rs1(raw), rs2: spec_rs2(raw), offset: spec_imm_b(raw) },
            InstrKind::Bge => RvInstr::Bge { rs1: spec_rs1(raw), rs2: spec_rs2(raw), offset: spec_imm_b(raw) },
            InstrKind::Bltu => RvInstr::Bltu { rs1: spec_rs1(raw), rs2: spec_rs2(raw), offset: spec_imm_b(raw) },
            InstrKind::Bgeu => RvInstr::Bgeu { rs1: spec_rs1(raw), rs2: spec_rs2(raw), offset: spec_imm_b(raw) },
            InstrKind::Lb => RvInstr::Lb { rd: spec_rd(raw), rs1: spec_rs1(raw), offset: spec_imm_i(raw) },
            InstrKind::Lh => RvInstr::Lh { rd: spec_rd(raw), rs1: spec_rs1(raw), offset: spec_imm_i(raw) },
            InstrKind::Lw => RvInstr::Lw { rd: spec_rd(raw), rs1: spec_rs1(raw), offset: spec_imm_i(raw) },
            InstrKind::Lbu => RvInstr::Lbu { rd: spec_rd(raw), rs1: spec_rs1(raw), offset: spec_imm_i(raw) },
            InstrKind::Lhu => RvInstr::Lhu { rd: spec_rd(raw), rs1: spec_rs1(raw), offset: spec_imm_i(raw) },
            InstrKind::Sb => RvInstr::Sb { rs1: spec_rs1(raw), rs2: spec_rs2(raw), offset: spec_imm_s(raw) },
            InstrKind::Sh => RvInstr::Sh { rs1: spec_rs1(raw), rs2: spec_rs2(raw), offset: spec_imm_s(raw) },
            InstrKind::Sw => RvInstr::Sw { rs1: spec_rs1(raw), rs2: spec_rs2(raw), offset: spec_imm_s(raw) },
            InstrKind::Addi => RvInstr::Addi { rd: spec_rd(raw), rs1: spec_rs1(raw), imm: spec_imm_i(raw) },
            InstrKind::Andi => RvInstr::Andi { rd: spec_rd(raw), rs1: spec_rs1(raw), imm: spec_imm_i(raw) },
            InstrKind::Ori => RvInstr::Ori { rd: spec_rd(raw), rs1: spec_rs1(raw), imm: spec_imm_i(raw) },
            InstrKind::Xori => RvInstr::Xori { rd: spec_rd(raw), rs1: spec_rs1(raw), imm: spec_imm_i(raw) },
            InstrKind::Slti => RvInstr::Slti { rd: spec_rd(raw), rs1: spec_rs1(raw), imm: spec_imm_i(raw) },
            InstrKind::Sltiu => RvInstr::Sltiu { rd: spec_rd(raw), rs1: spec_rs1(raw), imm: spec_imm_i(raw) },
            InstrKind::Slli => RvInstr::Slli { rd: spec_rd(raw), rs1: spec_rs1(raw), shamt: spec_shamt(raw) },
            InstrKind::Srli => RvInstr::Srli { rd: spec_rd(raw), rs1: spec_rs1(raw), shamt: spec_shamt(raw) },
            InstrKind::Srai => RvInstr::Srai { rd: spec_rd(raw), rs1: spec_rs1(raw), shamt: spec_shamt(raw) },
            InstrKind::Add => RvInstr::Add { rd: spec_rd(raw), rs1: spec_rs1(raw), rs2: spec_rs2(raw) },
            InstrKind::Sub => RvInstr::Sub { rd: spec_rd(raw), rs1: spec_rs1(raw), rs2: spec_rs2(raw) },
            InstrKind::And => RvInstr::And { rd: spec_rd(raw), rs1: spec_rs1(raw), rs2: spec_rs2(raw) },
            InstrKind::Or => RvInstr::Or { rd: spec_rd(raw), rs1: spec_rs1(raw), rs2: spec_rs2(raw) },
            InstrKind::Xor => RvInstr::Xor { rd: spec_rd(raw), rs1: spec_rs1(raw), rs2: spec_rs2(raw) },
            InstrKind::Slt => RvInstr::Slt { rd: spec_rd(raw), rs1: spec_rs1(raw), rs2: spec_rs2(raw) },
            InstrKind::Sltu => RvInstr::Sltu { rd: spec_rd(raw), rs1: spec_rs1(raw), rs2: spec_rs2(raw) },
            InstrKind::Sll => RvInstr::Sll { rd: spec_rd(raw), rs1: spec_rs1(raw), rs2: spec_rs2(raw) },
            InstrKind::Srl => RvInstr::Srl { rd: spec_rd(raw), rs1: spec_rs1(raw), rs2: spec_rs2(raw) },
            InstrKind::Sra => RvInstr::Sra { rd: spec_rd(raw), rs1: spec_rs1(raw), rs2: spec_rs2(raw) },
            InstrKind::Fence => RvInstr::Fence { pred: spec_fence_pred(raw), succ: spec_fence_succ(raw), fm: spec_fence_fm(raw) },
            InstrKind::FenceI => RvInstr::FenceI,
            InstrKind::Ecall => RvInstr::Ecall,
            InstrKind::Ebreak => RvInstr::Ebreak,
            InstrKind::Mul => RvInstr::Mul { rd: spec_rd(raw), rs1: spec_rs1(raw), rs2: spec_rs2(raw) },
            InstrKind::Mulh => RvInstr::Mulh { rd: spec_rd(raw), rs1: spec_rs1(raw), rs2: spec_rs2(raw) },
            InstrKind::Mulhsu => RvInstr::Mulhsu { rd: spec_rd(raw), rs1: spec_rs1(raw), rs2: spec_rs2(raw) },
            InstrKind::Mulhu => RvInstr::Mulhu { rd: spec_rd(raw), rs1: spec_rs1(raw), rs2: spec_rs2(raw) },
            InstrKind::Div => RvInstr::Div { rd: spec_rd(raw), rs1: spec_rs1(raw), rs2: spec_rs2(raw) },
            InstrKind::Divu => RvInstr::Divu { rd: spec_rd(raw), rs1: spec_rs1(raw), rs2: spec_rs2(raw) },
            InstrKind::Rem => RvInstr::Rem { rd: spec_rd(raw), rs1: spec_rs1(raw), rs2: spec_rs2(raw) },
            InstrKind::Remu => RvInstr::Remu { rd: spec_rd(raw), rs1: spec_rs1(raw), rs2: spec_rs2(raw) },
            InstrKind::Csrrw => RvInstr::Csrrw { rd: spec_rd(raw), rs1: spec_rs1(raw), csr: spec_csr_addr(raw) },
            InstrKind::Csrrs => RvInstr::Csrrs { rd: spec_rd(raw), rs1: spec_rs1(raw), csr: spec_csr_addr(raw) },
            InstrKind::Csrrc => RvInstr::Csrrc { rd: spec_rd(raw), rs1: spec_rs1(raw), csr: spec_csr_addr(raw) },
            InstrKind::Csrrwi => RvInstr::Csrrwi { rd: spec_rd(raw), zimm: spec_rs1(raw), csr: spec_csr_addr(raw) },
            InstrKind::Csrrsi => RvInstr::Csrrsi { rd: spec_rd(raw), zimm: spec_rs1(raw), csr: spec_csr_addr(raw) },
            InstrKind::Csrrci => RvInstr::Csrrci { rd: spec_rd(raw), zimm: spec_rs1(raw), csr: spec_csr_addr(raw) },
            InstrKind::Mret => RvInstr::Mret,
            InstrKind::Sret => RvInstr::Sret,
            InstrKind::Wfi => RvInstr::Wfi,
            InstrKind::Flw => RvInstr::Flw { frd: spec_rd(raw), rs1: spec_rs1(raw), offset: spec_imm_i(raw) },
            InstrKind::Fsw => RvInstr::Fsw { frs2: spec_rs2(raw), rs1: spec_rs1(raw), offset: spec_imm_s(raw) },
            InstrKind::FmaddS => RvInstr::FmaddS {
                frd: spec_rd(raw),
                frs1: spec_rs1(raw),
                frs2: spec_rs2(raw),
                frs3: spec_rs3(raw),
                rm: spec_rm(raw),
            },
            InstrKind::FmsubS => RvInstr::FmsubS {
                frd: spec_rd(raw),
                frs1: spec_rs1(raw),
                frs2: spec_rs2(raw),
                frs3: spec_rs3(raw),
                rm: spec_rm(raw),
            },
            InstrKind::FnmaddS => RvInstr::FnmaddS {
                frd: spec_rd(raw),
                frs1: spec_rs1(raw),
                frs2: spec_rs2(raw),
                frs3: spec_rs3(raw),
                rm: spec_rm(raw),
            },
            InstrKind::FnmsubS => RvInstr::FnmsubS {
                frd: spec_rd(raw),
                frs1: spec_rs1(raw),
                frs2: spec_rs2(raw),
                frs3: spec_rs3(raw),
                rm: spec_rm(raw),
            },
            InstrKind::FaddS => RvInstr::FaddS { frd: spec_rd(raw), frs1: spec_rs1(raw), frs2: spec_rs2(raw), rm: spec_rm(raw) },
            InstrKind::FsubS => RvInstr::FsubS { frd: spec_rd(raw), frs1: spec_rs1(raw), frs2: spec_rs2(raw), rm: spec_rm(raw) },
            InstrKind::FmulS => RvInstr::FmulS { frd: spec_rd(raw), frs1: spec_rs1(raw), frs2: spec_rs2(raw), rm: spec_rm(raw) },
            InstrKind::FdivS => RvInstr::FdivS { frd: spec_rd(raw), frs1: spec_rs1(raw), frs2: spec_rs2(raw), rm: spec_rm(raw) },
            InstrKind::FsqrtS => RvInstr::FsqrtS { frd: spec_rd(raw), frs1: spec_rs1(raw), rm: spec_rm(raw) },
            InstrKind::FsgnjS => RvInstr::FsgnjS { frd: spec_rd(raw), frs1: spec_rs1(raw), frs2: spec_rs2(raw) },
            InstrKind::FsgnjnS => RvInstr::FsgnjnS { frd: spec_rd(raw), frs1: spec_rs1(raw), frs2: spec_rs2(raw) },
            InstrKind::FsgnjxS => RvInstr::FsgnjxS { frd: spec_rd(raw), frs1: spec_rs1(raw), frs2: spec_rs2(raw) },
            InstrKind::FminS => RvInstr::FminS { frd: spec_rd(raw), frs1: spec_rs1(raw), frs2: spec_rs2(raw) },
            InstrKind::FmaxS => RvInstr::FmaxS { frd: spec_rd(raw), frs1: spec_rs1(raw), frs2: spec_rs2(raw) },
            InstrKind::FeqS => RvInstr::FeqS { rd: spec_rd(raw), frs1: spec_rs1(raw), frs2: spec_rs2(raw) },
            InstrKind::FltS => RvInstr::FltS { rd: spec_rd(raw), frs1: spec_rs1(raw), frs2: spec_rs2(raw) },
            InstrKind::FleS => RvInstr::FleS { rd: spec_rd(raw), frs1: spec_rs1(raw), frs2: spec_rs2(raw) },
            InstrKind::FcvtWS => RvInstr::FcvtWS { rd: spec_rd(raw), frs1: spec_rs1(raw), rm: spec_rm(raw) },
            InstrKind::FcvtWuS => RvInstr::FcvtWuS { rd: spec_rd(raw), frs1: spec_rs1(raw), rm: spec_rm(raw) },
            InstrKind::FcvtSW => RvInstr::FcvtSW { frd: spec_rd(raw), rs1: spec_rs1(raw), rm: spec_rm(raw) },
            InstrKind::FcvtSWu => RvInstr::FcvtSWu { frd: spec_rd(raw), rs1: spec_rs1(raw), rm: spec_rm(raw) },
            InstrKind::FmvXW => RvInstr::FmvXW { rd: spec_rd(raw), frs1: spec_rs1(raw) },
            InstrKind::FclassS => RvInstr::FclassS { rd: spec_rd(raw), frs1: spec_rs1(raw) },
            InstrKind::FmvWX => RvInstr::FmvWX { frd: spec_rd(raw), rs1: spec_rs1(raw) },
            InstrKind::Custom { extension, opcode } => RvInstr::Custom {
                extension,
                opcode,
                raw,
                fields: CustomFields {
                    rd: Some(spec_rd(raw)),
                    rs1: Some(spec_rs1(raw)),
                    rs2: Some(spec_rs2(raw)),
                    rs3: None,
                    imm: None,
                    extra: 0,
                },
            },
        }
    }

    /// Every instruction built from a word has five-bit register indices and
    /// shift amounts.
    pub proof fn lemma_build_wf(self, raw: u32)
        ensures
            self.spec_build(raw).wf(),
    {
        lemma_field_ranges(raw);
    }

    /// Extracts the operands of this kind from `raw`.
    pub fn build(self, raw: u32) -> (r: RvInstr)
        ensures
            r == self.spec_build(raw),
            r.wf(),
    {
        proof {
            self.lemma_build_wf(raw);
        }
        match self {
            InstrKind::Lui => RvInstr::Lui { rd: rd(raw), imm: imm_u(raw) },
            InstrKind::Auipc => RvInstr::Auipc { rd: rd(raw), imm: imm_u(raw) },
            InstrKind::Jal => RvInstr::Jal { rd: rd(raw), offset: imm_j(raw) },
            InstrKind::Jalr => RvInstr::Jalr { rd: rd(raw), rs1: rs1(raw), offset: imm_i(raw) },
            InstrKind::Beq => RvInstr::Beq { rs1: rs1(raw), rs2: rs2(raw), offset: imm_b(raw) },
            InstrKind::Bne => RvInstr::Bne { rs1: rs1(raw), rs2: rs2(raw), offset: imm_b(raw) },
            InstrKind::Blt => RvInstr::Blt { rs1: rs1(raw), rs2: rs2(raw), offset: imm_b(raw) },
            InstrKind::Bge => RvInstr::Bge { rs1: rs1(raw), rs2: rs2(raw), offset: imm_b(raw) },
            InstrKind::Bltu => RvInstr::Bltu { rs1: rs1(raw), rs2: rs2(raw), offset: imm_b(raw) },
            InstrKind::Bgeu => RvInstr::Bgeu { rs1: rs1(raw), rs2: rs2(raw), offset: imm_b(raw) },
            InstrKind::Lb => RvInstr::Lb { rd: rd(raw), rs1: rs1(raw), offset: imm_i(raw) },
            InstrKind::Lh => RvInstr::Lh { rd: rd(raw), rs1: rs1(raw), offset: imm_i(raw) },
            InstrKind::Lw => RvInstr::Lw { rd: rd(raw), rs1: rs1(raw), offset: imm_i(raw) },
            InstrKind::Lbu => RvInstr::Lbu { rd: rd(raw), rs1: rs1(raw), offset: imm_i(raw) },
            InstrKind::Lhu => RvInstr::Lhu { rd: rd(raw), rs1: rs1(raw), offset: imm_i(raw) },
            InstrKind::Sb => RvInstr::Sb { rs1: rs1(raw), rs2: rs2(raw), offset: imm_s(raw) },
            InstrKind::Sh => RvInstr::Sh { rs1: rs1(raw), rs2: rs2(raw), offset: imm_s(raw) },
            InstrKind::Sw => RvInstr::Sw { rs1: rs1(raw), rs2: rs2(raw), offset: imm_s(raw) },
            InstrKind::Addi => RvInstr::Addi { rd: rd(raw), rs1: rs1(raw), imm: imm_i(raw) },
            InstrKind::Andi => RvInstr::Andi { rd: rd(raw), rs1: rs1(raw), imm: imm_i(raw) },
            InstrKind::Ori => RvInstr::Ori { rd: rd(raw), rs1: rs1(raw), imm: imm_i(raw) },
            InstrKind::Xori => RvInstr::Xori { rd: rd(raw), rs1: rs1(raw), imm: imm_i(raw) },
            InstrKind::Slti => RvInstr::Slti { rd: rd(raw), rs1: rs1(raw), imm: imm_i(raw) },
            InstrKind::Sltiu => RvInstr::Sltiu { rd: rd(raw), rs1: rs1(raw), imm: imm_i(raw) },
            InstrKind::Slli => RvInstr::Slli { rd: rd(raw), rs1: rs1(raw), shamt: shamt(raw) },
            InstrKind::Srli => RvInstr::Srli { rd: rd(raw), rs1: rs1(raw), shamt: shamt(raw) },
            InstrKind::Srai => RvInstr::Srai { rd: rd(raw), rs1: rs1(raw), shamt: shamt(raw) },
            InstrKind::Add => RvInstr::Add { rd: rd(raw), rs1: rs1(raw), rs2: rs2(raw) },
            InstrKind::Sub => RvInstr::Sub { rd: rd(raw), rs1: rs1(raw), rs2: rs2(raw) },
            InstrKind::And => RvInstr::And { rd: rd(raw), rs1: rs1(raw), rs2: rs2(raw) },
            InstrKind::Or => RvInstr::Or { rd: rd(raw), rs1: rs1(raw), rs2: rs2(raw) },
            InstrKind::Xor => RvInstr::Xor { rd: rd(raw), rs1: rs1(raw), rs2: rs2(raw) },
            InstrKind::Slt => RvInstr::Slt { rd: rd(raw), rs1: rs1(raw), rs2: rs2(raw) },
            InstrKind::Sltu => RvInstr::Sltu { rd: rd(raw), rs1: rs1(raw), rs2: rs2(raw) },
            InstrKind::Sll => RvInstr::Sll { rd: rd(raw), rs1: rs1(raw), rs2: rs2(raw) },
            InstrKind::Srl => RvInstr::Srl { rd: rd(raw), rs1: rs1(raw), rs2: rs2(raw) },
            InstrKind::Sra => RvInstr::Sra { rd: rd(raw), rs1: rs1(raw), rs2: rs2(raw) },
            InstrKind::Fence => RvInstr::Fence { pred: fence_pred(raw), succ: fence_succ(raw), fm: fence_fm(raw) },
            InstrKind::FenceI => RvInstr::FenceI,
            InstrKind::Ecall => RvInstr::Ecall,
            InstrKind::Ebreak => RvInstr::Ebreak,
            InstrKind::Mul => RvInstr::Mul { rd: rd(raw), rs1: rs1(raw), rs2: rs2(raw) },
            InstrKind::Mulh => RvInstr::Mulh { rd: rd(raw), rs1: rs1(raw), rs2: rs2(raw) },
            InstrKind::Mulhsu => RvInstr::Mulhsu { rd: rd(raw), rs1: rs1(raw), rs2: rs2(raw) },
            InstrKind::Mulhu => RvInstr::Mulhu { rd: rd(raw), rs1: rs1(raw), rs2: rs2(raw) },
            InstrKind::Div => RvInstr::Div { rd: rd(raw), rs1: rs1(raw), rs2: rs2(raw) },
            InstrKind::Divu => RvInstr::Divu { rd: rd(raw), rs1: rs1(raw), rs2: rs2(raw) },
            InstrKind::Rem => RvInstr::Rem { rd: rd(raw), rs1: rs1(raw), rs2: rs2(raw) },
            InstrKind::Remu => RvInstr::Remu { rd: rd(raw), rs1: rs1(raw), rs2: rs2(raw) },
            InstrKind::Csrrw => RvInstr::Csrrw { rd: rd(raw), rs1: rs1(raw), csr: csr_addr(raw) },
            InstrKind::Csrrs => RvInstr::Csrrs { rd: rd(raw), rs1: rs1(raw), csr: csr_addr(raw) },
            InstrKind::Csrrc => RvInstr::Csrrc { rd: rd(raw), rs1: rs1(raw), csr: csr_addr(raw) },
            InstrKind::Csrrwi => RvInstr::Csrrwi { rd: rd(raw), zimm: rs1(raw), csr: csr_addr(raw) },
            InstrKind::Csrrsi => RvInstr::Csrrsi { rd: rd(raw), zimm: rs1(raw), csr: csr_addr(raw) },
            InstrKind::Csrrci => RvInstr::Csrrci { rd: rd(raw), zimm: rs1(raw), csr: csr_addr(raw) },
            InstrKind::Mret => RvInstr::Mret,
            InstrKind::Sret => RvInstr::Sret,
            InstrKind::Wfi => RvInstr::Wfi,
            InstrKind::Flw => RvInstr::Flw { frd: rd(raw), rs1: rs1(raw), offset: imm_i(raw) },
            InstrKind::Fsw => RvInstr::Fsw { frs2: rs2(raw), rs1: rs1(raw), offset: imm_s(raw) },
            InstrKind::FmaddS => RvInstr::FmaddS {
                frd: rd(raw),
                frs1: rs1(raw),
                frs2: rs2(raw),
                frs3: rs3(raw),
                rm: rm(raw),
            },
            InstrKind::FmsubS => RvInstr::FmsubS {
                frd: rd(raw),
                frs1: rs1(raw),
                frs2: rs2(raw),
                frs3: rs3(raw),
                rm: rm(raw),
            },
            InstrKind::FnmaddS => RvInstr::FnmaddS {
                frd: rd(raw),
                frs1: rs1(raw),
                frs2: rs2(raw),
                frs3: rs3(raw),
                rm: rm(raw),
            },
            InstrKind::FnmsubS => RvInstr::FnmsubS {
                frd: rd(raw),
                frs1: rs1(raw),
                frs2: rs2(raw),
                frs3: rs3(raw),
                rm: rm(raw),
            },
            InstrKind::FaddS => RvInstr::FaddS { frd: rd(raw), frs1: rs1(raw), frs2: rs2(raw), rm: rm(raw) },
            InstrKind::FsubS => RvInstr::FsubS { frd: rd(raw), frs1: rs1(raw), frs2: rs2(raw), rm: rm(raw) },
            InstrKind::FmulS => RvInstr::FmulS { frd: rd(raw), frs1: rs1(raw), frs2: rs2(raw), rm: rm(raw) },
            InstrKind::FdivS => RvInstr::FdivS { frd: rd(raw), frs1: rs1(raw), frs2: rs2(raw), rm: rm(raw) },
            InstrKind::FsqrtS => RvInstr::FsqrtS { frd: rd(raw), frs1: rs1(raw), rm: rm(raw) },
            InstrKind::FsgnjS => RvInstr::FsgnjS { frd: rd(raw), frs1: rs1(raw), frs2: rs2(raw) },
            InstrKind::FsgnjnS => RvInstr::FsgnjnS { frd: rd(raw), frs1: rs1(raw), frs2: rs2(raw) },
            InstrKind::FsgnjxS => RvInstr::FsgnjxS { frd: rd(raw), frs1: rs1(raw), frs2: rs2(raw) },
            InstrKind::FminS => RvInstr::FminS { frd: rd(raw), frs1: rs1(raw), frs2: rs2(raw) },
            InstrKind::FmaxS => RvInstr::FmaxS { frd: rd(raw), frs1: rs1(raw), frs2: rs2(raw) },
            InstrKind::FeqS => RvInstr::FeqS { rd: rd(raw), frs1: rs1(raw), frs2: rs2(raw) },
            InstrKind::FltS => RvInstr::FltS { rd: rd(raw), frs1: rs1(raw), frs2: rs2(raw) },
            InstrKind::FleS => RvInstr::FleS { rd: rd(raw), frs1: rs1(raw), frs2: rs2(raw) },
            InstrKind::FcvtWS => RvInstr::FcvtWS { rd: rd(raw), frs1: rs1(raw), rm: rm(raw) },
            InstrKind::FcvtWuS => RvInstr::FcvtWuS { rd: rd(raw), frs1: rs1(raw), rm: rm(raw) },
            InstrKind::FcvtSW => RvInstr::FcvtSW { frd: rd(raw), rs1: rs1(raw), rm: rm(raw) },
            InstrKind::FcvtSWu => RvInstr::FcvtSWu { frd: rd(raw), rs1: rs1(raw), rm: rm(raw) },
            InstrKind::FmvXW => RvInstr::FmvXW { rd: rd(raw), frs1: rs1(raw) },
            InstrKind::FclassS => RvInstr::FclassS { rd: rd(raw), frs1: rs1(raw) },
            InstrKind::FmvWX => RvInstr::FmvWX { frd: rd(raw), rs1: rs1(raw) },
            InstrKind::Custom { extension, opcode } => RvInstr::Custom {
                extension,
                opcode,
                raw,
                fields: CustomFields::new().with_rd(rd(raw)).with_rs1(rs1(raw)).with_rs2(rs2(raw)),
            },
        }
    }
}

/// One row of an instruction table.
#[derive(Debug, Clone, Copy)]
pub struct InstrDef {
    /// Mnemonic, for conflict reports.
    pub name: &'static str,
    /// The bits of a word that the entry inspects.
    pub mask: u32,
    /// The value those bits must have.
    pub match_val: u32,
    /// What the entry builds from a matching word.
    pub kind: InstrKind,
}

impl InstrDef {
    /// The match value has no bit outside the mask.
    pub open spec fn wf(self) -> bool {
        self.match_val & self.mask == self.match_val
    }

    /// `raw` agrees with the match value on every inspected bit.
    pub open spec fn spec_matches(self, raw: u32) -> bool {
        raw & self.mask == self.match_val
    }

    /// The two entries agree on every bit that both inspect.
    pub open spec fn spec_conflicts_with(self, other: InstrDef) -> bool {
        self.match_val & (self.mask & other.mask) == other.match_val & (self.mask & other.mask)
    }

    /// What the entry decodes `raw` to.
    pub open spec fn spec_decode(self, raw: u32) -> DecodedInstr {
        DecodedInstr { raw, instr: self.kind.spec_build(raw) }
    }

    /// An entry from its parts.
    pub fn new(name: &'static str, mask: u32, match_val: u32, kind: InstrKind) -> (r: Self)
        ensures
            r == (InstrDef { name, mask, match_val, kind }),
    {
        InstrDef { name, mask, match_val, kind }
    }

    /// Whether the entry claims `raw`.
    pub fn matches(&self, raw: u32) -> (r: bool)
        ensures
            r == self.spec_matches(raw),
    {
        (raw & self.mask) == self.match_val
    }

    /// Decodes `raw` as this entry's instruction.
    pub fn decode_instr(&self, raw: u32) -> (r: DecodedInstr)
        ensures
            r == self.spec_decode(raw),
            r.instr.wf(),
    {
        DecodedInstr { raw, instr: self.kind.build(raw) }
    }

    /// Whether the two entries conflict.
    pub fn conflicts_with(&self, other: &InstrDef) -> (r: bool)
        ensures
            r == self.spec_conflicts_with(*other),
    {
        let common_mask = self.mask & other.mask;
        (self.match_val & common_mask) == (other.match_val & common_mask)
    }
}

/// Two entries that do not conflict never claim the same word.
pub proof fn lemma_no_conflict_no_common_word(a: InstrDef, b: InstrDef, raw: u32)
    requires
        !a.spec_conflicts_with(b),
    ensures
        !(a.spec_matches(raw) && b.spec_matches(raw)),
{
    let (am, av, bm, bv) = (a.mask, a.match_val, b.mask, b.match_val);
    assert((raw & am == av && raw & bm == bv) ==> (av & (am & bm) == bv & (am & bm)))
        by (bit_vector);
}

/// Two well-formed entries that conflict both claim the union of their match
/// values.
pub proof fn lemma_conflict_has_common_word(a: InstrDef, b: InstrDef)
    requires
        a.wf(),
        b.wf(),
        a.spec_conflicts_with(b),
    ensures
        a.spec_matches(a.match_val | b.match_val),
        b.spec_matches(a.match_val | b.match_val),
{
    let (am, av, bm, bv) = (a.mask, a.match_val, b.mask, b.match_val);
    assert((av & am == av && bv & bm == bv && av & (am & bm) == bv & (am & bm)) ==> ((av | bv) & am
        == av && (av | bv) & bm == bv)) by (bit_vector);
}

/// The first entry of `table`, from index `from` on, that claims `raw`.
pub open spec fn first_match(table: Seq<InstrDef>, raw: u32, from: int) -> Option<int>
    decreases table.len() - from,
{
    if from < 0 || from >= table.len() {
        None
    } else if table[from].spec_matches(raw) {
        Some(from)
    } else {
        first_match(table, raw, from + 1)
    }
}

/// What a table decodes `raw` to: the instruction of the first entry that
/// claims it, if any does.
pub open spec fn table_decode(table: Seq<InstrDef>, raw: u32) -> Option<DecodedInstr> {
    match first_match(table, raw, 0) {
        Some(i) => Some(table[i].spec_decode(raw)),
        None => None,
    }
}

/// `first_match` returns an entry that claims the word, preceded by none that
/// does; it returns nothing only where no entry claims the word.
pub proof fn lemma_first_match(table: Seq<InstrDef>, raw: u32, from: int)
    requires
        0 <= from,
    ensures
        match first_match(table, raw, from) {
            Some(i) => from <= i < table.len() && table[i].spec_matches(raw) && forall|j: int|
                from <= j < i ==> !table[j].spec_matches(raw),
            None => forall|j: int| from <= j < table.len() ==> !table[j].spec_matches(raw),
        },
    decreases table.len() - from,
{
    if from < table.len() && !table[from].spec_matches(raw) {
        lemma_first_match(table, raw, from + 1);
    }
}

/// A decoder that walks one instruction table.
#[derive(Debug)]
pub struct TableDrivenDecoder {
    name: &'static str,
    instrs: Vec<InstrDef>,
    opcodes: Option<Vec<u32>>,
    allow_overlap: bool,
}

impl TableDrivenDecoder {
    /// The table, in lookup order.
    pub closed spec fn table(&self) -> Seq<InstrDef> {
        self.instrs@
    }

    /// The primary opcodes that the decoder declares; `None` for a wildcard.
    pub closed spec fn opcode_list(&self) -> Option<Seq<u32>> {
        match self.opcodes {
            Some(ops) => Some(ops@),
            None => None,
        }
    }

    /// Whether the decoder shares its opcodes with others.
    pub closed spec fn overlap_allowed(&self) -> bool {
        self.allow_overlap
    }

    /// The decoder's label.
    pub closed spec fn label(&self) -> &'static str {
        self.name
    }

    /// Every entry is well formed, and where the decoder declares its
    /// opcodes, every entry inspects the whole opcode field and lies under a
    /// declared opcode.
    pub open spec fn wf(&self) -> bool {
        forall|i: int|
            0 <= i < self.table().len() ==> {
                &&& (#[trigger] self.table()[i]).wf()
                &&& match self.opcode_list() {
                    Some(ops) => self.table()[i].mask & 0x7F == 0x7F && ops.contains(
                        self.table()[i].match_val & 0x7F,
                    ),
                    None => true,
                }
            }
    }

    /// A decoder that walks `instrs` and stands under `opcodes`, or under
    /// every opcode where `opcodes` is `None`.
    pub fn new(
        name: &'static str,
        instrs: Vec<InstrDef>,
        opcodes: Option<Vec<u32>>,
        allow_overlap: bool,
    ) -> (r: Self)
        ensures
            r.label() == name,
            r.table() == instrs@,
            r.opcode_list() == match opcodes {
                Some(ops) => Some(ops@),
                None => None,
            },
            r.overlap_allowed() == allow_overlap,
    {
        TableDrivenDecoder { name, instrs, opcodes, allow_overlap }
    }

    /// The instruction table.
    pub fn instrs(&self) -> (r: &[InstrDef])
        ensures
            r@ == self.table(),
    {
        self.instrs.as_slice()
    }
}

impl Clone for TableDrivenDecoder {
    fn clone(&self) -> (r: Self)
        ensures
            r.label() == self.label(),
            r.table() == self.table(),
            r.opcode_list() == self.opcode_list(),
            r.overlap_allowed() == self.overlap_allowed(),
    {
        let mut instrs: Vec<InstrDef> = Vec::new();
        let mut i: usize = 0;
        while i < self.instrs.len()
            invariant
                i <= self.instrs.len(),
                instrs@ == self.instrs@.take(i as int),
            decreases self.instrs.len() - i,
        {
            instrs.push(self.instrs[i]);
            assert(self.instrs@.take(i as int + 1) == self.instrs@.take(i as int).push(
                self.instrs@[i as int],
            ));
            i += 1;
        }
        assert(self.instrs@.take(self.instrs@.len() as int) == self.instrs@);
        let opcodes = match &self.opcodes {
            Some(ops) => {
                let mut copy: Vec<u32> = Vec::new();
                let mut k: usize = 0;
                while k < ops.len()
                    invariant
                        k <= ops.len(),
                        copy@ == ops@.take(k as int),
                    decreases ops.len() - k,
                {
                    copy.push(ops[k]);
                    assert(ops@.take(k as int + 1) == ops@.take(k as int).push(ops@[k as int]));
                    k += 1;
                }
                assert(ops@.take(ops@.len() as int) == ops@);
                Some(copy)
            },
            None => None,
        };
        TableDrivenDecoder { name: self.name, instrs, opcodes, allow_overlap: self.allow_overlap }
    }
}

impl InstrDecoder for TableDrivenDecoder {
    open spec fn spec_decode(&self, raw: u32) -> Option<DecodedInstr> {
        table_decode(self.table(), raw)
    }

    open spec fn spec_handled_opcodes(&self) -> Option<Seq<u32>> {
        self.opcode_list()
    }

    open spec fn spec_allow_opcode_overlap(&self) -> bool {
        self.overlap_allowed()
    }

    open spec fn spec_name(&self) -> Seq<char> {
        self.label()@
    }

    fn name(&self) -> (r: &str) {
        self.name
    }

    fn decode(&self, raw: u32) -> (r: Option<DecodedInstr>) {
        let mut i: usize = 0;
        while i < self.instrs.len()
            invariant
                i <= self.instrs.len(),
                first_match(self.table(), raw, 0) == first_match(self.table(), raw, i as int),
            decreases self.instrs.len() - i,
        {
            if self.instrs[i].matches(raw) {
                return Some(self.instrs[i].decode_instr(raw));
            }
            i += 1;
        }
        None
    }

    fn handled_opcodes(&self) -> (r: Option<&[u32]>) {
        match &self.opcodes {
            Some(ops) => Some(ops.as_slice()),
            None => None,
        }
    }

    fn allow_opcode_overlap(&self) -> (r: bool) {
        self.allow_overlap
    }
}

} // verus!
