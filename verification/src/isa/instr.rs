//! The decoded instruction record.
use vstd::prelude::*;

verus! {

/// An instruction after decoding: one variant per mnemonic, each carrying
/// exactly the operands its executor reads, with immediates already
/// sign-extended.
#[derive(Debug, Clone, Copy, PartialEq, Eq)]
pub enum RvInstr {
    /// `rd = rs1 + rs2`
    Add { rd: u8, rs1: u8, rs2: u8 },
    /// `rd = rs1 - rs2`
    Sub { rd: u8, rs1: u8, rs2: u8 },
    /// `rd = rs1 & rs2`
    And { rd: u8, rs1: u8, rs2: u8 },
    /// `rd = rs1 | rs2`
    Or { rd: u8, rs1: u8, rs2: u8 },
    /// `rd = rs1 ^ rs2`
    Xor { rd: u8, rs1: u8, rs2: u8 },
    /// `rd = (rs1 < rs2) ? 1 : 0`, signed
    Slt { rd: u8, rs1: u8, rs2: u8 },
    /// `rd = (rs1 < rs2) ? 1 : 0`, unsigned
    Sltu { rd: u8, rs1: u8, rs2: u8 },
    /// `rd = rs1 << rs2[4:0]`
    Sll { rd: u8, rs1: u8, rs2: u8 },
    /// `rd = rs1 >> rs2[4:0]`, logical
    Srl { rd: u8, rs1: u8, rs2: u8 },
    /// `rd = rs1 >> rs2[4:0]`, arithmetic
    Sra { rd: u8, rs1: u8, rs2: u8 },
    /// `rd = rs1 + imm`
    Addi { rd: u8, rs1: u8, imm: i32 },
    /// `rd = rs1 & imm`
    Andi { rd: u8, rs1: u8, imm: i32 },
    /// `rd = rs1 | imm`
    Ori { rd: u8, rs1: u8, imm: i32 },
    /// `rd = rs1 ^ imm`
    Xori { rd: u8, rs1: u8, imm: i32 },
    /// `rd = (rs1 < imm) ? 1 : 0`, signed
    Slti { rd: u8, rs1: u8, imm: i32 },
    /// `rd = (rs1 < imm) ? 1 : 0`, unsigned
    Sltiu { rd: u8, rs1: u8, imm: i32 },
    /// `rd = rs1 << shamt`
    Slli { rd: u8, rs1: u8, shamt: u8 },
    /// `rd = rs1 >> shamt`, logical
    Srli { rd: u8, rs1: u8, shamt: u8 },
    /// `rd = rs1 >> shamt`, arithmetic
    Srai { rd: u8, rs1: u8, shamt: u8 },
    /// `rd = sign_extend(mem8[rs1 + offset])`
    Lb { rd: u8, rs1: u8, offset: i32 },
    /// `rd = sign_extend(mem16[rs1 + offset])`
    Lh { rd: u8, rs1: u8, offset: i32 },
    /// `rd = mem32[rs1 + offset]`
    Lw { rd: u8, rs1: u8, offset: i32 },
    /// `rd = zero_extend(mem8[rs1 + offset])`
    Lbu { rd: u8, rs1: u8, offset: i32 },
    /// `rd = zero_extend(mem16[rs1 + offset])`
    Lhu { rd: u8, rs1: u8, offset: i32 },
    /// `mem8[rs1 + offset] = rs2[7:0]`
    Sb { rs1: u8, rs2: u8, offset: i32 },
    /// `mem16[rs1 + offset] = rs2[15:0]`
    Sh { rs1: u8, rs2: u8, offset: i32 },
    /// `mem32[rs1 + offset] = rs2`
    Sw { rs1: u8, rs2: u8, offset: i32 },
    /// `rd = imm`, the low twelve bits of `imm` being zero
    Lui { rd: u8, imm: i32 },
    /// `rd = pc + imm`
    Auipc { rd: u8, imm: i32 },
    /// `rd = pc + 4; pc = pc + offset`
    Jal { rd: u8, offset: i32 },
    /// `rd = pc + 4; pc = (rs1 + offset) & !1`
    Jalr { rd: u8, rs1: u8, offset: i32 },
    /// branch if `rs1 == rs2`
    Beq { rs1: u8, rs2: u8, offset: i32 },
    /// branch if `rs1 != rs2`
    Bne { rs1: u8, rs2: u8, offset: i32 },
    /// branch if `rs1 < rs2`, signed
    Blt { rs1: u8, rs2: u8, offset: i32 },
    /// branch if `rs1 >= rs2`, signed
    Bge { rs1: u8, rs2: u8, offset: i32 },
    /// branch if `rs1 < rs2`, unsigned
    Bltu { rs1: u8, rs2: u8, offset: i32 },
    /// branch if `rs1 >= rs2`, unsigned
    Bgeu { rs1: u8, rs2: u8, offset: i32 },
    /// environment call
    Ecall,
    /// breakpoint
    Ebreak,
    /// memory ordering fence
    Fence { pred: u8, succ: u8, fm: u8 },
    /// instruction-fetch fence
    FenceI,
    /// `rd = (rs1 * rs2)[31:0]`
    Mul { rd: u8, rs1: u8, rs2: u8 },
    /// `rd = (rs1 * rs2)[63:32]`, signed by signed
    Mulh { rd: u8, rs1: u8, rs2: u8 },
    /// `rd = (rs1 * rs2)[63:32]`, signed by unsigned
    Mulhsu { rd: u8, rs1: u8, rs2: u8 },
    /// `rd = (rs1 * rs2)[63:32]`, unsigned by unsigned
    Mulhu { rd: u8, rs1: u8, rs2: u8 },
    /// `rd = rs1 / rs2`, signed
    Div { rd: u8, rs1: u8, rs2: u8 },
    /// `rd = rs1 / rs2`, unsigned
    Divu { rd: u8, rs1: u8, rs2: u8 },
    /// `rd = rs1 % rs2`, signed
    Rem { rd: u8, rs1: u8, rs2: u8 },
    /// `rd = rs1 % rs2`, unsigned
    Remu { rd: u8, rs1: u8, rs2: u8 },
    /// `rd = csr; csr = rs1`
    Csrrw { rd: u8, rs1: u8, csr: u16 },
    /// `rd = csr; csr |= rs1`
    Csrrs { rd: u8, rs1: u8, csr: u16 },
    /// `rd = csr; csr &= !rs1`
    Csrrc { rd: u8, rs1: u8, csr: u16 },
    /// `rd = csr; csr = zimm`
    Csrrwi { rd: u8, zimm: u8, csr: u16 },
    /// `rd = csr; csr |= zimm`
    Csrrsi { rd: u8, zimm: u8, csr: u16 },
    /// `rd = csr; csr &= !zimm`
    Csrrci { rd: u8, zimm: u8, csr: u16 },
    /// return from a machine-mode trap handler
    Mret,
    /// return from a supervisor-mode trap handler
    Sret,
    /// wait for interrupt
    Wfi,
    /// `frd = mem32[rs1 + offset]`
    Flw { frd: u8, rs1: u8, offset: i32 },
    /// `mem32[rs1 + offset] = frs2`
    Fsw { frs2: u8, rs1: u8, offset: i32 },
    /// `frd = frs1 + frs2`
    FaddS { frd: u8, frs1: u8, frs2: u8, rm: u8 },
    /// `frd = frs1 - frs2`
    FsubS { frd: u8, frs1: u8, frs2: u8, rm: u8 },
    /// `frd = frs1 * frs2`
    FmulS { frd: u8, frs1: u8, frs2: u8, rm: u8 },
    /// `frd = frs1 / frs2`
    FdivS { frd: u8, frs1: u8, frs2: u8, rm: u8 },
    /// `frd = sqrt(frs1)`
    FsqrtS { frd: u8, frs1: u8, rm: u8 },
    /// `frd = frs1 * frs2 + frs3`
    FmaddS { frd: u8, frs1: u8, frs2: u8, frs3: u8, rm: u8 },
    /// `frd = frs1 * frs2 - frs3`
    FmsubS { frd: u8, frs1: u8, frs2: u8, frs3: u8, rm: u8 },
    /// `frd = -(frs1 * frs2) - frs3`
    FnmaddS { frd: u8, frs1: u8, frs2: u8, frs3: u8, rm: u8 },
    /// `frd = -(frs1 * frs2) + frs3`
    FnmsubS { frd: u8, frs1: u8, frs2: u8, frs3: u8, rm: u8 },
    /// magnitude of `frs1`, sign of `frs2`
    FsgnjS { frd: u8, frs1: u8, frs2: u8 },
    /// magnitude of `frs1`, opposite of the sign of `frs2`
    FsgnjnS { frd: u8, frs1: u8, frs2: u8 },
    /// magnitude of `frs1`, sign of `frs1` xor sign of `frs2`
    FsgnjxS { frd: u8, frs1: u8, frs2: u8 },
    /// `frd = min(frs1, frs2)`
    FminS { frd: u8, frs1: u8, frs2: u8 },
    /// `frd = max(frs1, frs2)`
    FmaxS { frd: u8, frs1: u8, frs2: u8 },
    /// `rd = (frs1 == frs2) ? 1 : 0`
    FeqS { rd: u8, frs1: u8, frs2: u8 },
    /// `rd = (frs1 < frs2) ? 1 : 0`
    FltS { rd: u8, frs1: u8, frs2: u8 },
    /// `rd = (frs1 <= frs2) ? 1 : 0`
    FleS { rd: u8, frs1: u8, frs2: u8 },
    /// float to signed integer
    FcvtWS { rd: u8, frs1: u8, rm: u8 },
    /// float to unsigned integer
    FcvtWuS { rd: u8, frs1: u8, rm: u8 },
    /// signed integer to float
    FcvtSW { frd: u8, rs1: u8, rm: u8 },
    /// unsigned integer to float
    FcvtSWu { frd: u8, rs1: u8, rm: u8 },
    /// bit pattern of `frs1` to `rd`
    FmvXW { rd: u8, frs1: u8 },
    /// bit pattern of `rs1` to `frd`
    FmvWX { frd: u8, rs1: u8 },
    /// `rd` = one-hot class of `frs1`
    FclassS { rd: u8, frs1: u8 },
    /// A word that no registered decoder claims.
    Illegal { raw: u32 },
    /// An instruction of a non-standard extension.  Every in-tree executor
    /// treats it as illegal.
    Custom { extension: &'static str, opcode: u8, raw: u32, fields: CustomFields },
}

/// Operands of a custom instruction.
#[derive(Debug, Clone, Copy, PartialEq, Eq)]
pub struct CustomFields {
    pub rd: Option<u8>,
    pub rs1: Option<u8>,
    pub rs2: Option<u8>,
    pub rs3: Option<u8>,
    pub imm: Option<i32>,
    /// Extension-specific payload.
    pub extra: u64,
}

impl CustomFields {
    /// No operand present, payload zero.
    pub open spec fn spec_new() -> Self {
        CustomFields { rd: None, rs1: None, rs2: None, rs3: None, imm: None, extra: 0 }
    }

    /// Operands of which none is present.
    pub fn new() -> (r: Self)
        ensures
            r == Self::spec_new(),
    {
        CustomFields { rd: None, rs1: None, rs2: None, rs3: None, imm: None, extra: 0 }
    }

    /// The operands with the destination register `rd`.
    pub fn with_rd(self, rd: u8) -> (r: Self)
        ensures
            r == (CustomFields { rd: Some(rd), ..self }),
    {
        let mut out = self;
        out.rd = Some(rd);
        out
    }

    /// The operands with the first source register `rs1`.
    pub fn with_rs1(self, rs1: u8) -> (r: Self)
        ensures
            r == (CustomFields { rs1: Some(rs1), ..self }),
    {
        let mut out = self;
        out.rs1 = Some(rs1);
        out
    }

    /// The operands with the second source register `rs2`.
    pub fn with_rs2(self, rs2: u8) -> (r: Self)
        ensures
            r == (CustomFields { rs2: Some(rs2), ..self }),
    {
        let mut out = self;
        out.rs2 = Some(rs2);
        out
    }

    /// The operands with the immediate `imm`.
    pub fn with_imm(self, imm: i32) -> (r: Self)
        ensures
            r == (CustomFields { imm: Some(imm), ..self }),
    {
        let mut out = self;
        out.imm = Some(imm);
        out
    }

    /// The operands with the payload `extra`.
    pub fn with_extra(self, extra: u64) -> (r: Self)
        ensures
            r == (CustomFields { extra, ..self }),
    {
        let mut out = self;
        out.extra = extra;
        out
    }
}

impl Default for CustomFields {
    fn default() -> (r: Self)
        ensures
            r == Self::spec_new(),
    {
        CustomFields::new()
    }
}

/// A decoded instruction together with the word it came from.
#[derive(Debug, Clone, Copy)]
pub struct DecodedInstr {
    /// The 32-bit instruction word.
    pub raw: u32,
    /// Its meaning.
    pub instr: RvInstr,
}

impl RvInstr {
    /// Every register index and every shift amount is a five-bit number.
    pub open spec fn wf(self) -> bool {
        match self {
            RvInstr::Add { rd, rs1, rs2 }
            | RvInstr::Sub { rd, rs1, rs2 }
            | RvInstr::And { rd, rs1, rs2 }
            | RvInstr::Or { rd, rs1, rs2 }
            | RvInstr::Xor { rd, rs1, rs2 }
            | RvInstr::Slt { rd, rs1, rs2 }
            | RvInstr::Sltu { rd, rs1, rs2 }
            | RvInstr::Sll { rd, rs1, rs2 }
            | RvInstr::Srl { rd, rs1, rs2 }
            | RvInstr::Sra { rd, rs1, rs2 }
            | RvInstr::Mul { rd, rs1, rs2 }
            | RvInstr::Mulh { rd, rs1, rs2 }
            | RvInstr::Mulhsu { rd, rs1, rs2 }
            | RvInstr::Mulhu { rd, rs1, rs2 }
            | RvInstr::Div { rd, rs1, rs2 }
            | RvInstr::Divu { rd, rs1, rs2 }
            | RvInstr::Rem { rd, rs1, rs2 }
            | RvInstr::Remu { rd, rs1, rs2 } => rd < 32 && rs1 < 32 && rs2 < 32,
            RvInstr::Addi { rd, rs1, .. }
            | RvInstr::Andi { rd, rs1, .. }
            | RvInstr::Ori { rd, rs1, .. }
            | RvInstr::Xori { rd, rs1, .. }
            | RvInstr::Slti { rd, rs1, .. }
            | RvInstr::Sltiu { rd, rs1, .. }
            | RvInstr::Lb { rd, rs1, .. }
            | RvInstr::Lh { rd, rs1, .. }
            | RvInstr::Lw { rd, rs1, .. }
            | RvInstr::Lbu { rd, rs1, .. }
            | RvInstr::Lhu { rd, rs1, .. }
            | RvInstr::Jalr { rd, rs1, .. }
            | RvInstr::Csrrw { rd, rs1, .. }
            | RvInstr::Csrrs { rd, rs1, .. }
            | RvInstr::Csrrc { rd, rs1, .. } => rd < 32 && rs1 < 32,
            RvInstr::Slli { rd, rs1, shamt }
            | RvInstr::Srli { rd, rs1, shamt }
            | RvInstr::Srai { rd, rs1, shamt } => rd < 32 && rs1 < 32 && shamt < 32,
            RvInstr::Sb { rs1, rs2, .. }
            | RvInstr::Sh { rs1, rs2, .. }
            | RvInstr::Sw { rs1, rs2, .. }
            | RvInstr::Beq { rs1, rs2, .. }
            | RvInstr::Bne { rs1, rs2, .. }
            | RvInstr::Blt { rs1, rs2, .. }
            | RvInstr::Bge { rs1, rs2, .. }
            | RvInstr::Bltu { rs1, rs2, .. }
            | RvInstr::Bgeu { rs1, rs2, .. } => rs1 < 32 && rs2 < 32,
            RvInstr::Lui { rd, .. } | RvInstr::Auipc { rd, .. } | RvInstr::Jal { rd, .. } => rd
                < 32,
            RvInstr::Csrrwi { rd, .. }
            | RvInstr::Csrrsi { rd, .. }
            | RvInstr::Csrrci { rd, .. } => rd < 32,
            RvInstr::Flw { frd, rs1, .. } => frd < 32 && rs1 < 32,
            RvInstr::Fsw { frs2, rs1, .. } => frs2 < 32 && rs1 < 32,
            RvInstr::FaddS { frd, frs1, frs2, .. }
            | RvInstr::FsubS { frd, frs1, frs2, .. }
            | RvInstr::FmulS { frd, frs1, frs2, .. }
            | RvInstr::FdivS { frd, frs1, frs2, .. }
            | RvInstr::FsgnjS { frd, frs1, frs2 }
            | RvInstr::FsgnjnS { frd, frs1, frs2 }
            | RvInstr::FsgnjxS { frd, frs1, frs2 }
            | RvInstr::FminS { frd, frs1, frs2 }
            | RvInstr::FmaxS { frd, frs1, frs2 } => frd < 32 && frs1 < 32 && frs2 < 32,
            RvInstr::FsqrtS { frd, frs1, .. } => frd < 32 && frs1 < 32,
            RvInstr::FmaddS { frd, frs1, frs2, frs3, .. }
            | RvInstr::FmsubS { frd, frs1, frs2, frs3, .. }
            | RvInstr::FnmaddS { frd, frs1, frs2, frs3, .. }
            | RvInstr::FnmsubS { frd, frs1, frs2, frs3, .. } => frd < 32 && frs1 < 32 && frs2 < 32
                && frs3 < 32,
            RvInstr::FeqS { rd, frs1, frs2 }
            | RvInstr::FltS { rd, frs1, frs2 }
            | RvInstr::FleS { rd, frs1, frs2 } => rd < 32 && frs1 < 32 && frs2 < 32,
            RvInstr::FcvtWS { rd, frs1, .. }
            | RvInstr::FcvtWuS { rd, frs1, .. }
            | RvInstr::FmvXW { rd, frs1 }
            | RvInstr::FclassS { rd, frs1 } => rd < 32 && frs1 < 32,
            RvInstr::FcvtSW { frd, rs1, .. }
            | RvInstr::FcvtSWu { frd, rs1, .. }
            | RvInstr::FmvWX { frd, rs1 } => frd < 32 && rs1 < 32,
            RvInstr::Ecall
            | RvInstr::Ebreak
            | RvInstr::Fence { .. }
            | RvInstr::FenceI
            | RvInstr::Mret
            | RvInstr::Sret
            | RvInstr::Wfi
            | RvInstr::Illegal { .. }
            | RvInstr::Custom { .. } => true,
        }
    }
}

} // verus!
